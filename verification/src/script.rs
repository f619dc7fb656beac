//! Scripts that a command has the page run, and the values that come back.

use crate::step::Step;
use vstd::prelude::*;

verus! {

/// A number as the script engine holds it. An integer and a double can be the
/// same number, and are then sent as the same number.
#[derive(Clone, Copy, Debug, PartialEq, Eq, Structural)]
pub enum JsNumber {
    Int32(i32),
    /// A double, given by its IEEE 754 bits.
    Double(u64),
}

/// A value of the script engine, as far as its type lets it be sent.
#[derive(Debug, PartialEq)]
pub enum JsVal {
    Undefined,
    Boolean(bool),
    Int32(i32),
    /// A double, given by its IEEE 754 bits.
    Double(u64),
    /// A string, as converted by the engine.
    String(String),
    Null,
    /// A value of any other type: an object, a symbol.
    Other,
}

/// A script's value in a reply.
#[derive(Debug, PartialEq)]
pub enum WebDriverJSValue {
    Undefined,
    Null,
    Boolean(bool),
    Number(JsNumber),
    String(String),
}

/// Why a script has no value in a reply.
#[derive(Clone, Copy, Debug, PartialEq, Eq, Structural)]
pub enum WebDriverJSError {
    /// The script's value is of a type that cannot be sent.
    UnknownType,
    /// There is no window to run the script in.
    BrowsingContextNotFound,
}

pub type WebDriverJSResult = Result<WebDriverJSValue, WebDriverJSError>;

/// Asks for the value of a script, run in a window.
#[derive(Debug, PartialEq)]
pub struct Evaluation<W> {
    pub window: W,
    pub script: String,
}

/// What is done with a window to run a script that replies by itself.
#[derive(Debug, PartialEq)]
pub enum AsyncAction<C> {
    /// Gives the window the channel on which its scripts reply.
    SetWebDriverScriptChan(C),
    /// Runs a script; its value is dropped.
    Evaluate(String),
}

/// What becomes of a script that is to reply by itself.
#[derive(Debug, PartialEq)]
pub enum AsyncStep<W, C> {
    /// The actions are carried out on the window, in this order.
    Run { window: W, actions: Vec<AsyncAction<C>> },
    /// The script cannot be run; `result` is sent on `reply`.
    Refuse { reply: C, result: WebDriverJSResult },
}

/// The value that is sent for a value of the script engine.
pub open spec fn webdriver_value(val: JsVal) -> WebDriverJSResult {
    match val {
        JsVal::Undefined => Ok(WebDriverJSValue::Undefined),
        JsVal::Null => Ok(WebDriverJSValue::Null),
        JsVal::Boolean(b) => Ok(WebDriverJSValue::Boolean(b)),
        JsVal::Int32(i) => Ok(WebDriverJSValue::Number(JsNumber::Int32(i))),
        JsVal::Double(bits) => Ok(WebDriverJSValue::Number(JsNumber::Double(bits))),
        JsVal::String(s) => Ok(WebDriverJSValue::String(s)),
        JsVal::Other => Err(WebDriverJSError::UnknownType),
    }
}

/// Turns a value of the script engine into one that can be sent. An object or
/// a symbol cannot.
pub fn jsval_to_webdriver(val: JsVal) -> (result: WebDriverJSResult)
    ensures
        result == webdriver_value(val),
{
    match val {
        JsVal::Undefined => Ok(WebDriverJSValue::Undefined),
        JsVal::Boolean(b) => Ok(WebDriverJSValue::Boolean(b)),
        JsVal::Double(bits) => Ok(WebDriverJSValue::Number(JsNumber::Double(bits))),
        JsVal::Int32(i) => Ok(WebDriverJSValue::Number(JsNumber::Int32(i))),
        JsVal::String(s) => Ok(WebDriverJSValue::String(s)),
        JsVal::Null => Ok(WebDriverJSValue::Null),
        JsVal::Other => Err(WebDriverJSError::UnknownType),
    }
}

/// The result of a script that has no window to run in.
pub open spec fn refused() -> WebDriverJSResult {
    Err(WebDriverJSError::BrowsingContextNotFound)
}

/// Has `eval` run in the window; refuses when there is none.
pub fn handle_execute_script<W>(window: Option<W>, eval: String) -> (step: Step<
    Evaluation<W>,
    WebDriverJSResult,
>)
    ensures
        step == (match window {
            Some(window) => Step::Ask(Evaluation { window, script: eval }),
            None => Step::Reply(refused()),
        }),
{
    match window {
        Some(window) => Step::Ask(Evaluation { window, script: eval }),
        None => Step::Reply(Err(WebDriverJSError::BrowsingContextNotFound)),
    }
}

impl<W> Evaluation<W> {
    /// The reply once the script has run. `rval` is the value that it left; a
    /// script that left none counts as having left `undefined`.
    pub fn reply(&self, rval: Option<JsVal>) -> (reply: WebDriverJSResult)
        ensures
            reply == webdriver_value(match rval {
                Some(val) => val,
                None => JsVal::Undefined,
            }),
    {
        match rval {
            Some(val) => jsval_to_webdriver(val),
            None => jsval_to_webdriver(JsVal::Undefined),
        }
    }
}

/// Hands the window the channel on which the script is to reply, and then has
/// `eval` run; refuses on that channel when there is no window.
pub fn handle_execute_async_script<W, C>(
    window: Option<W>,
    eval: String,
    reply: C,
) -> (step: AsyncStep<W, C>)
    ensures
        window matches Some(given) ==> {
            &&& step matches AsyncStep::Run { window, actions }
            &&& window == given
            &&& actions@ == seq![
                AsyncAction::SetWebDriverScriptChan(reply),
                AsyncAction::Evaluate(eval),
            ]
        },
        window is None ==> step == (AsyncStep::<W, C>::Refuse { reply, result: refused() }),
{
    match window {
        Some(window) => {
            let mut actions: Vec<AsyncAction<C>> = Vec::new();
            actions.push(AsyncAction::SetWebDriverScriptChan(reply));
            actions.push(AsyncAction::Evaluate(eval));
            AsyncStep::Run { window, actions }
        },
        None => AsyncStep::Refuse {
            reply,
            result: Err(WebDriverJSError::BrowsingContextNotFound),
        },
    }
}

/// Whether two results may be sent as the same value: each holds a value, and
/// the values are equal, or both are numbers. Which numbers are the same once
/// sent is left open.
pub open spec fn may_be_sent_alike(a: WebDriverJSResult, b: WebDriverJSResult) -> bool {
    match (a, b) {
        (Ok(WebDriverJSValue::Number(_)), Ok(WebDriverJSValue::Number(_))) => true,
        (Ok(x), Ok(y)) => x == y,
        _ => false,
    }
}

/// A value of the script engine that can be sent can be told from any other but
/// for numbers: two that are sent alike are alike, or both numbers. An integer
/// and a double that are the same number are sent as that number.
pub proof fn law_sent_values_are_distinct(a: JsVal, b: JsVal)
    requires
        may_be_sent_alike(webdriver_value(a), webdriver_value(b)),
    ensures
        a == b || ((a is Int32 || a is Double) && (b is Int32 || b is Double)),
{
}

} // verus!
