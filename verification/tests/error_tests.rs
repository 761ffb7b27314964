use cmdfix::Error;

#[test]
fn test_error_creation() {
    let err = Error::config("test config error");
    assert_eq!(err.message(), "Configuration error: test config error");
}

#[test]
fn test_result_type() {
    let result: Result<i32, Error> = Ok(42);
    assert!(result.is_ok());
}

#[test]
fn test_error_messages_by_kind() {
    assert_eq!(Error::rule("r").message(), "Rule error: r");
    assert_eq!(Error::shell("s").message(), "Shell error: s");
    assert_eq!(Error::fuzzy_match("f").message(), "Fuzzy matching error: f");
    assert_eq!(Error::command_parse("c").message(), "Command parsing error: c");
    assert_eq!(Error::NoCorrections.message(), "No corrections found");
    assert_eq!(
        Error::Other("boom".to_string()).message(),
        "Error: boom"
    );
}
