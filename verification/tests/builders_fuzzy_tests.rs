use cmdfix::types::Command;
use cmdfix::FuzzyRuleBuilder;

#[test]
fn test_fuzzy_rule_builder_creation() {
    let builder = FuzzyRuleBuilder::new("test");
    assert_eq!(builder.priority, 1000);
    assert_eq!(builder.threshold, 20);
}

#[test]
fn test_fuzzy_rule_command_pattern() {
    let rule = FuzzyRuleBuilder::new("git_status")
        .match_command("git status")
        .threshold(10)
        .replace("git status")
        .build()
        .unwrap();

    // Exact match
    let cmd_exact = Command::new("git status", "", 0);
    assert!(rule.matches(&cmd_exact));

    // Far match (should not match)
    let cmd_far = Command::new("apt update", "", 0);
    assert!(!rule.matches(&cmd_far));
}

#[test]
fn test_fuzzy_rule_output_pattern() {
    let rule = FuzzyRuleBuilder::new("permission_error")
        .match_output("Permission denied")
        .threshold(10)
        .replace("sudo last_command")
        .build()
        .unwrap();

    let cmd_match = Command::new("apt update", "Permission denied", 1);
    assert!(rule.matches(&cmd_match));
}

#[test]
fn test_fuzzy_rule_threshold() {
    let _rule_strict = FuzzyRuleBuilder::new("strict")
        .match_command("git status")
        .threshold(200) // Clamped to 100: very strict
        .replace("git status")
        .build()
        .unwrap();

    let rule_lenient = FuzzyRuleBuilder::new("lenient")
        .match_command("git status")
        .threshold(5) // Very lenient threshold
        .replace("git status")
        .build()
        .unwrap();

    let cmd = Command::new("git status", "", 0);

    // Lenient should match exact string
    assert!(rule_lenient.matches(&cmd));
}

#[test]
fn test_fuzzy_rule_both_patterns() {
    let rule = FuzzyRuleBuilder::new("full_match")
        .match_command("git push")
        .match_output("error")
        .replace("git pull")
        .build()
        .unwrap();

    let cmd_both_match = Command::new("git push", "error: rejected", 1);
    let cmd_cmd_only = Command::new("git push", "Success", 0);

    assert!(rule.matches(&cmd_both_match));
    assert!(!rule.matches(&cmd_cmd_only));
}

#[test]
fn test_fuzzy_rule_missing_pattern_error() {
    let result = FuzzyRuleBuilder::new("invalid").replace("corrected").build();
    assert!(result.is_err());
}

#[test]
fn test_fuzzy_rule_missing_replacement_error() {
    let result = FuzzyRuleBuilder::new("invalid").match_command("test").build();
    assert!(result.is_err());
}

#[test]
fn test_fuzzy_rule_priority() {
    let rule = FuzzyRuleBuilder::new("test")
        .priority(500)
        .match_command("test")
        .replace("corrected")
        .build()
        .unwrap();

    assert_eq!(rule.priority(), 500);
}

#[test]
fn test_fuzzy_rule_get_new_commands() {
    let rule = FuzzyRuleBuilder::new("test")
        .match_command("old")
        .replace("new_command")
        .build()
        .unwrap();

    let cmd = Command::new("old", "", 0);
    let corrections = rule.get_new_commands(&cmd);
    assert_eq!(corrections.len(), 1);
    assert_eq!(corrections[0], "new_command");
}

#[test]
fn test_fuzzy_threshold_monotonic_on_match() {
    // Raising the threshold can only remove matches: whenever the stricter
    // rule matches, the looser one must match too.
    let strict = FuzzyRuleBuilder::new("strict")
        .match_command("git status")
        .threshold(90)
        .replace("git status")
        .build()
        .unwrap();
    let loose = FuzzyRuleBuilder::new("loose")
        .match_command("git status")
        .threshold(5)
        .replace("git status")
        .build()
        .unwrap();

    for script in ["git status", "git stats", "apt update", ""] {
        let cmd = Command::new(script, "", 0);
        if strict.matches(&cmd) {
            assert!(loose.matches(&cmd));
        }
    }
}
