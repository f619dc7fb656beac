[package]
name = "webdriver_handlers"
version = "0.1.0"
edition = "2021"
publish = false

[dependencies]
cookie = "=0.11.5"
euclid = { version = "=0.19.9", features = ["serde"] }
hyper_serde = "=0.11.1"
ipc-channel = "=0.14.1"
serde = { version = "=1.0.229", features = ["derive"] }
