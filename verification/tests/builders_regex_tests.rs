use cmdfix::rules::builders::regex::CaptureRewrite;
use cmdfix::types::Command;
use cmdfix::RegexRuleBuilder;

#[test]
fn test_regex_rule_builder_creation() {
    let builder = RegexRuleBuilder::new("test");
    assert_eq!(builder.priority, 1000);
}

#[test]
fn test_regex_rule_command_pattern() {
    let rule = RegexRuleBuilder::new("git_push")
        .match_command_regex("git push$")
        .unwrap()
        .replace_simple("git push -u origin main")
        .unwrap();

    let cmd = Command::new("git push", "Everything up-to-date", 0);

    assert!(rule.matches(&cmd));
    let corrections = rule.get_new_commands(&cmd);
    assert!(!corrections.is_empty());
}

#[test]
fn test_regex_rule_with_captures() {
    let rule = RegexRuleBuilder::new("git_branch")
        .match_command_regex("git push ([a-z]+)$")
        .unwrap()
        .replace_with(CaptureRewrite::Group {
            index: 1,
            prefix: "git push -u origin ".to_string(),
            suffix: String::new(),
        })
        .build()
        .unwrap();

    let cmd = Command::new("git push main", "", 0);

    assert!(rule.matches(&cmd));
    let corrections = rule.get_new_commands(&cmd);
    assert_eq!(corrections[0], "git push -u origin main");
}

#[test]
fn test_regex_rule_output_pattern() {
    let rule = RegexRuleBuilder::new("permission_denied")
        .match_output_regex("Permission denied")
        .unwrap()
        .replace_simple("sudo $0")
        .unwrap();

    let cmd = Command::new("apt update", "Permission denied", 1);

    assert!(rule.matches(&cmd));
}

#[test]
fn test_regex_rule_both_patterns() {
    let rule = RegexRuleBuilder::new("full_match")
        .match_command_regex("git")
        .unwrap()
        .match_output_regex("error")
        .unwrap()
        .replace_simple("echo 'git error'")
        .unwrap();

    let cmd_match = Command::new("git status", "error: not a repository", 1);
    let cmd_no_match_output = Command::new("git status", "On branch main", 0);

    assert!(rule.matches(&cmd_match));
    assert!(!rule.matches(&cmd_no_match_output));
}

#[test]
fn test_regex_rule_missing_pattern_error() {
    let result = RegexRuleBuilder::new("invalid").build();
    assert!(result.is_err());
}

#[test]
fn test_regex_rule_priority() {
    let rule = RegexRuleBuilder::new("test")
        .priority(500)
        .match_command_regex("test")
        .unwrap()
        .replace_simple("corrected")
        .unwrap();

    assert_eq!(rule.priority(), 500);
}

#[test]
fn test_regex_rule_invalid_pattern_error() {
    let result = RegexRuleBuilder::new("broken").match_command_regex("(unclosed");
    assert!(result.is_err());
}

#[test]
fn test_regex_rule_missing_replacement_error() {
    let result = RegexRuleBuilder::new("no_replacement")
        .match_command_regex("git push$")
        .unwrap()
        .build();
    assert!(result.is_err());
}

#[test]
fn test_regex_template_substitutes_group() {
    let rule = RegexRuleBuilder::new("substitute")
        .match_command_regex("git push ([a-z]+)$")
        .unwrap()
        .replace_simple("git push -u origin $1")
        .unwrap();

    let cmd = Command::new("git push main", "", 0);
    let corrections = rule.get_new_commands(&cmd);
    assert_eq!(corrections, vec!["git push -u origin main".to_string()]);
}

#[test]
fn test_regex_template_without_placeholder_falls_back() {
    // A template that substitution leaves unchanged proposes the original
    // script unchanged, rather than wrong output.
    let rule = RegexRuleBuilder::new("noop")
        .match_command_regex("git push$")
        .unwrap()
        .replace_simple("still $9 here")
        .unwrap();

    let cmd = Command::new("git push", "", 0);
    let corrections = rule.get_new_commands(&cmd);
    assert_eq!(corrections, vec!["git push".to_string()]);
}
