use cmdfix::ShellOutput;

#[test]
fn test_shell_output_success() {
    let output = ShellOutput::new("test".to_string(), "output".to_string(), "".to_string(), 0);
    assert!(output.success);
}

#[test]
fn test_shell_output_failure() {
    let output = ShellOutput::new("test".to_string(), "".to_string(), "error".to_string(), 1);
    assert!(!output.success);
}
