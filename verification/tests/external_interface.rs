use avm2_method::external_interface::{
    console_log_text, is_location_href, DesktopExternalInterfaceProvider, ExternalValue, Reply,
};

fn text(reply: Reply) -> Option<String> {
    match reply {
        Reply::Text(text) => Some(text),
        _ => None,
    }
}

fn spoofing() -> DesktopExternalInterfaceProvider {
    DesktopExternalInterfaceProvider { spoof_url: Some("https://example.org/game".to_string()) }
}

fn plain() -> DesktopExternalInterfaceProvider {
    DesktopExternalInterfaceProvider { spoof_url: None }
}

fn string(text: &str) -> ExternalValue {
    ExternalValue::String(text.to_string())
}

#[test]
fn location_href_is_one_of_three_expressions() {
    assert!(is_location_href("document.location.href"));
    assert!(is_location_href("window.location.href"));
    assert!(is_location_href("top.location.href"));
    assert!(!is_location_href("location.href"));
    assert!(!is_location_href("window.location.href "));
    assert!(!is_location_href("Window.location.href"));
    assert!(!is_location_href(""));
}

#[test]
fn to_string_of_the_location_gives_the_spoofed_address() {
    for name in [
        "document.location.href.toString",
        "window.location.href.toString",
        "top.location.href.toString",
    ] {
        assert_eq!(text(spoofing().call_method(name, &[])).as_deref(), Some("https://example.org/game"));
        assert!(matches!(plain().call_method(name, &[]), Reply::UnknownMethod));
    }
    assert!(matches!(
        spoofing().call_method("window.location.toString", &[]),
        Reply::UnknownMethod
    ));
    assert!(matches!(
        spoofing().call_method("window.location.href", &[]),
        Reply::UnknownMethod
    ));
    assert!(matches!(spoofing().call_method(".toString", &[]), Reply::UnknownMethod));
}

#[test]
fn eval_answers_only_for_the_location() {
    let asked = [string("window.location.href")];
    assert_eq!(text(spoofing().call_method("eval", &asked)).as_deref(), Some("https://example.org/game"));
    assert!(matches!(plain().call_method("eval", &asked), Reply::EvalRefused));
    assert!(matches!(spoofing().call_method("eval", &[]), Reply::EvalRefused));
    assert!(matches!(spoofing().call_method("eval", &[string("1 + 1")]), Reply::EvalRefused));
    assert!(matches!(
        spoofing().call_method("eval", &[string("top.location.href"), ExternalValue::Null]),
        Reply::EvalRefused
    ));
    assert!(matches!(
        spoofing().call_method("eval", &[ExternalValue::Number("1".to_string())]),
        Reply::EvalRefused
    ));
}

#[test]
fn console_log_joins_what_it_shows_with_spaces() {
    let args = [
        string("score"),
        ExternalValue::Number("12.5".to_string()),
        ExternalValue::Bool(true),
        ExternalValue::Bool(false),
        ExternalValue::Undefined,
        ExternalValue::Null,
        ExternalValue::Other,
    ];
    assert_eq!(console_log_text(&args), "score 12.5 true false undefined null <unknown>");
    assert_eq!(console_log_text(&[]), "");
    assert_eq!(console_log_text(&[string("one")]), "one");
    assert_eq!(console_log_text(&[string(""), string("")]), " ");
    match spoofing().call_method("console.log", &args) {
        Reply::ConsoleLog(log) => {
            assert_eq!(log, "score 12.5 true false undefined null <unknown>")
        }
        _ => panic!("console.log was not logged"),
    }
}

#[test]
fn user_agent_and_unknown_methods() {
    for provider in [spoofing(), plain()] {
        assert_eq!(
            text(provider.call_method("window.navigator.userAgent.toString", &[])).as_deref(),
            Some("mundo-gaturro-desktop")
        );
        assert!(matches!(provider.call_method("alert", &[]), Reply::UnknownMethod));
        assert!(matches!(provider.call_method("", &[]), Reply::UnknownMethod));
        assert!(matches!(provider.call_method("Eval", &[]), Reply::UnknownMethod));
        assert_eq!(provider.get_id(), None);
    }
}

#[test]
fn replies_answer_with_text_or_undefined() {
    assert!(matches!(
        Reply::Text("x".to_string()).into_value(),
        ExternalValue::String(text) if text == "x"
    ));
    assert!(matches!(Reply::ConsoleLog("x".to_string()).into_value(), ExternalValue::Undefined));
    assert!(matches!(Reply::EvalRefused.into_value(), ExternalValue::Undefined));
    assert!(matches!(Reply::UnknownMethod.into_value(), ExternalValue::Undefined));
}
