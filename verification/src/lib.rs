//! The decisions of a browser's WebDriver endpoint: which document, node or
//! window a command speaks of, what the script engine, the DOM and the cookie
//! store are asked on its behalf, and what is replied.

pub mod cookies;
pub mod documents;
pub mod dom;
pub mod elements;
pub mod find;
pub mod frames;
pub mod ids;
pub mod laws;
pub mod page;
pub mod rect;
pub mod script;
pub mod step;
