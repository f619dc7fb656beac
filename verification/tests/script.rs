use webdriver_handlers::script::{
    handle_execute_async_script, handle_execute_script, jsval_to_webdriver, AsyncAction, AsyncStep,
    Evaluation, JsNumber, JsVal, WebDriverJSError, WebDriverJSValue,
};
use webdriver_handlers::step::Step;

#[test]
fn values() {
    assert_eq!(jsval_to_webdriver(JsVal::Undefined), Ok(WebDriverJSValue::Undefined));
    assert_eq!(jsval_to_webdriver(JsVal::Null), Ok(WebDriverJSValue::Null));
    assert_eq!(jsval_to_webdriver(JsVal::Boolean(true)), Ok(WebDriverJSValue::Boolean(true)));
    assert_eq!(jsval_to_webdriver(JsVal::Boolean(false)), Ok(WebDriverJSValue::Boolean(false)));
    assert_eq!(
        jsval_to_webdriver(JsVal::Int32(-3)),
        Ok(WebDriverJSValue::Number(JsNumber::Int32(-3)))
    );
    let bits = 2.5f64.to_bits();
    assert_eq!(
        jsval_to_webdriver(JsVal::Double(bits)),
        Ok(WebDriverJSValue::Number(JsNumber::Double(bits)))
    );
    assert_eq!(
        jsval_to_webdriver(JsVal::String("s".to_string())),
        Ok(WebDriverJSValue::String("s".to_string()))
    );
    assert_eq!(jsval_to_webdriver(JsVal::Other), Err(WebDriverJSError::UnknownType));
}

#[test]
fn a_script_runs_in_its_window() {
    let script = || "return 1".to_string();
    assert_eq!(
        handle_execute_script(Some(4), script()),
        Step::Ask(Evaluation { window: 4, script: script() })
    );
    assert_eq!(
        handle_execute_script::<u8>(None, script()),
        Step::Reply(Err(WebDriverJSError::BrowsingContextNotFound))
    );
}

#[test]
fn a_script_replies_with_its_value() {
    let evaluation = Evaluation { window: 4, script: "x".to_string() };
    assert_eq!(
        evaluation.reply(Some(JsVal::Boolean(true))),
        Ok(WebDriverJSValue::Boolean(true))
    );
    assert_eq!(evaluation.reply(Some(JsVal::Other)), Err(WebDriverJSError::UnknownType));
    assert_eq!(evaluation.reply(None), Ok(WebDriverJSValue::Undefined));
}

#[test]
fn an_async_script_has_its_channel_before_it_runs() {
    assert_eq!(
        handle_execute_async_script(Some(4), "f()".to_string(), 'c'),
        AsyncStep::Run {
            window: 4,
            actions: vec![
                AsyncAction::SetWebDriverScriptChan('c'),
                AsyncAction::Evaluate("f()".to_string()),
            ],
        }
    );
    assert_eq!(
        handle_execute_async_script::<u8, char>(None, "f()".to_string(), 'c'),
        AsyncStep::Refuse {
            reply: 'c',
            result: Err(WebDriverJSError::BrowsingContextNotFound),
        }
    );
}

#[test]
fn values_that_differ_are_sent_differently() {
    let values = || {
        vec![
            JsVal::Undefined,
            JsVal::Null,
            JsVal::Boolean(false),
            JsVal::Boolean(true),
            JsVal::Int32(0),
            JsVal::String(String::new()),
            JsVal::String("undefined".to_string()),
        ]
    };
    for (i, a) in values().into_iter().enumerate() {
        let sent = jsval_to_webdriver(a);
        for (j, b) in values().into_iter().enumerate() {
            assert_eq!(sent == jsval_to_webdriver(b), i == j);
        }
    }
}
