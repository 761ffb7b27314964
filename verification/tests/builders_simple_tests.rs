use cmdfix::types::Command;
use cmdfix::SimpleRuleBuilder;

#[test]
fn test_simple_rule_builder_with_replace() {
    let rule = SimpleRuleBuilder::new("test_rule")
        .match_command("git branch -d")
        .match_output("If you are sure")
        .replace("-d", "-D");

    let cmd = Command::new("git branch -d feature", "If you are sure to delete it", 1);
    assert!(rule.matches(&cmd));

    let corrections = rule.get_new_commands(&cmd);
    assert!(!corrections.is_empty());
    assert_eq!(corrections[0], "git branch -D feature");
}

#[test]
fn test_simple_rule_builder_multiple_replacements() {
    let rule = SimpleRuleBuilder::new("test_rule")
        .match_command("test")
        .match_output("error")
        .replace("test", "test2");

    let cmd = Command::new("test test command", "error occurred", 1);
    assert!(rule.matches(&cmd));

    let corrections = rule.get_new_commands(&cmd);
    assert_eq!(corrections[0], "test2 test2 command");
}

#[test]
fn test_simple_rule_priority() {
    let rule = SimpleRuleBuilder::new("test").priority(500).replace("a", "b");

    assert_eq!(rule.priority(), 500);
}

#[test]
fn test_literal_rule_round_trip() {
    let rule = SimpleRuleBuilder::new("round_trip").replace("X", "Y");
    let cmd = Command::new("aXb", "error", 1);
    let corrections = rule.get_new_commands(&cmd);
    assert_eq!(corrections, vec!["aYb".to_string()]);
}

#[test]
fn test_simple_rule_empty_find_prepends_once() {
    let rule = SimpleRuleBuilder::new("prepend").replace("", "sudo ");
    let cmd = Command::new("apt update", "Permission denied", 1);
    let corrections = rule.get_new_commands(&cmd);
    assert_eq!(corrections, vec!["sudo apt update".to_string()]);
}

#[test]
fn test_simple_string_rule_macro() {
    let rule = SimpleRuleBuilder::new("TestRule")
        .match_command("test")
        .match_output("error")
        .priority(100)
        .replace("test", "test2");

    let cmd = Command::new("test command", "error occurred", 1);
    assert!(rule.matches(&cmd));

    let corrections = rule.get_new_commands(&cmd);
    assert!(!corrections.is_empty());
    assert_eq!(corrections[0], "test2 command");
}

#[test]
fn test_simple_string_rule_no_match() {
    let rule = SimpleRuleBuilder::new("TestRule2")
        .match_command("test")
        .match_output("error")
        .priority(100)
        .replace("test", "test2");

    let cmd = Command::new("other command", "no error", 0);
    assert!(!rule.matches(&cmd));
}
