use cmdfix::types::Command;
use cmdfix::types::CorrectedCommand;

#[test]
fn test_command_creation() {
    let cmd = Command::new("ls -la", "error message", 1);
    assert_eq!(cmd.script, "ls -la");
    assert_eq!(cmd.output, "error message");
    assert_eq!(cmd.exit_code, 1);
}

#[test]
fn test_command_script_parts() {
    let cmd = Command::new("git branch -d feature", "output", 0);
    let parts = cmd.script_parts();
    assert_eq!(parts, vec!["git", "branch", "-d", "feature"]);
}

#[test]
fn test_corrected_command_priority() {
    let cmd1 = CorrectedCommand::new("cmd1", 100);
    let cmd2 = CorrectedCommand::new("cmd2", 50);
    assert!(cmd2 < cmd1);
}

#[test]
fn test_corrected_command_equality_ignores_priority() {
    let a = CorrectedCommand::new("same", 100);
    let b = CorrectedCommand::new("same", 900);
    let c = CorrectedCommand::with_side_effect("same", 100, "hook");
    assert!(a == b);
    assert!(a != c);
}
