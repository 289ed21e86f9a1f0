use mockmail::{ConfigError, SendError, SEND_CONTEXT};

#[test]
fn send_context_is_the_fixed_text() {
    assert_eq!(SEND_CONTEXT, "cannot send mail");
}

#[test]
fn send_error_wraps_the_cause_under_the_context() {
    let error = SendError::new("Email address not verified".to_string());
    assert_eq!(error.context, "cannot send mail");
    assert_eq!(error.cause, "Email address not verified");
}

#[test]
fn send_error_keeps_an_empty_cause() {
    let error = SendError::new(String::new());
    assert_eq!(
        error,
        SendError { context: "cannot send mail".to_string(), cause: String::new() }
    );
}

#[test]
fn config_error_reports_the_cause() {
    let error = ConfigError::new("no credentials".to_string());
    assert_eq!(error, ConfigError { cause: "no credentials".to_string() });
}
