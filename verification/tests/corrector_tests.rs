use cmdfix::types::Command;
use cmdfix::types::CustomRule;
use cmdfix::Corrector;
use cmdfix::RuleRegistry;

fn test_rule(name: &str, matches_result: bool, suggestions: Vec<String>) -> cmdfix::Rule {
    CustomRule::new(name, matches_result, suggestions)
}

#[test]
fn test_rule_registry() {
    let mut registry = RuleRegistry::new();
    assert_eq!(registry.len(), 0);

    registry.add_rule(test_rule("test1", true, vec![]));
    assert_eq!(registry.len(), 1);
}

#[test]
fn test_corrector_basic() {
    let mut registry = RuleRegistry::new();
    registry.add_rule(test_rule("test", true, vec!["corrected".to_string()]));

    let corrector = Corrector::new(registry);
    let cmd = Command::new("test", "error", 1);
    let corrections = corrector.get_corrections(&cmd);

    assert_eq!(corrections.len(), 1);
    assert_eq!(corrections[0].script, "corrected");
}

#[test]
fn test_corrector_no_match() {
    let registry = RuleRegistry::new();
    let corrector = Corrector::new(registry);
    let cmd = Command::new("test", "error", 1);
    let corrections = corrector.get_corrections(&cmd);

    assert!(corrections.is_empty());
}

#[test]
fn test_corrector_multiple_rules() {
    let mut registry = RuleRegistry::new();
    registry.add_rule(test_rule("rule1", true, vec!["correction1".to_string()]));
    registry.add_rule(test_rule("rule2", true, vec!["correction2".to_string()]));

    let corrector = Corrector::new(registry);
    let cmd = Command::new("test", "error", 1);
    let corrections = corrector.get_corrections(&cmd);

    assert_eq!(corrections.len(), 2);
}

#[test]
fn test_rule_requires_output() {
    let mut registry = RuleRegistry::new();
    registry.add_rule(test_rule("test", true, vec!["corrected".to_string()]));

    let corrector = Corrector::new(registry);
    let cmd = Command::new("test", "", 1); // No output

    // The rule matches but requires output, and the command has none.
    let corrections = corrector.get_corrections(&cmd);
    assert_eq!(corrections.len(), 0);
}

#[test]
fn test_rule_registry_creation() {
    let registry = RuleRegistry::new();
    assert!(registry.is_empty());
    assert_eq!(registry.len(), 0);
}

#[test]
fn test_rule_registry_add() {
    let mut registry = RuleRegistry::new();
    registry.add_rule(test_rule("test", false, vec![]));

    assert!(!registry.is_empty());
    assert_eq!(registry.len(), 1);
}

#[test]
fn test_rule_registry_multiple() {
    let mut registry = RuleRegistry::new();
    registry.add_rules(vec![
        test_rule("test1", false, vec![]),
        test_rule("test2", false, vec![]),
    ]);

    assert_eq!(registry.len(), 2);
}

#[test]
fn test_evaluation_deterministic() {
    let mut registry = RuleRegistry::new();
    registry.add_rule(test_rule("a", true, vec!["one".to_string(), "two".to_string()]));
    registry.add_rule(test_rule("b", true, vec!["three".to_string()]));

    let corrector = Corrector::new(registry);
    let cmd = Command::new("x", "error", 1);
    let first = corrector.get_corrections(&cmd);
    let second = corrector.get_corrections(&cmd);

    assert_eq!(first.len(), second.len());
    for (a, b) in first.iter().zip(second.iter()) {
        assert_eq!(a.script, b.script);
        assert_eq!(a.priority, b.priority);
        assert_eq!(a.side_effect, b.side_effect);
    }
}

#[test]
fn test_corrections_sorted_by_priority() {
    let mut registry = RuleRegistry::new();
    let mut high = match test_rule("high", true, vec!["later".to_string()]) {
        cmdfix::Rule::Custom(c) => c,
        _ => unreachable!(),
    };
    high.priority = 900;
    registry.add_rule(cmdfix::Rule::Custom(high));
    let mut low = match test_rule("low", true, vec!["sooner".to_string()]) {
        cmdfix::Rule::Custom(c) => c,
        _ => unreachable!(),
    };
    low.priority = 10;
    registry.add_rule(cmdfix::Rule::Custom(low));

    let corrector = Corrector::new(registry);
    let cmd = Command::new("x", "error", 1);
    let corrections = corrector.get_corrections(&cmd);

    assert_eq!(corrections.len(), 2);
    for pair in corrections.windows(2) {
        assert!(pair[0].priority <= pair[1].priority);
    }
    assert_eq!(corrections[0].script, "sooner");
}

#[test]
fn test_duplicate_candidates_collapse() {
    let mut registry = RuleRegistry::new();
    let mut a = match test_rule("a", true, vec!["fix".to_string()]) {
        cmdfix::Rule::Custom(c) => c,
        _ => unreachable!(),
    };
    a.priority = 100;
    registry.add_rule(cmdfix::Rule::Custom(a));
    let mut b = match test_rule("b", true, vec!["fix".to_string()]) {
        cmdfix::Rule::Custom(c) => c,
        _ => unreachable!(),
    };
    b.priority = 200;
    registry.add_rule(cmdfix::Rule::Custom(b));

    let corrector = Corrector::new(registry);
    let cmd = Command::new("x", "error", 1);
    let corrections = corrector.get_corrections(&cmd);

    // The two equal candidates sort next to each other; the lower priority wins.
    assert_eq!(corrections.len(), 1);
    assert_eq!(corrections[0].script, "fix");
    assert_eq!(corrections[0].priority, 100);
}

#[test]
fn test_priority_scaling_two_candidates() {
    let mut registry = RuleRegistry::new();
    let mut rule = match test_rule("scaled", true, vec!["first".to_string(), "second".to_string()])
    {
        cmdfix::Rule::Custom(c) => c,
        _ => unreachable!(),
    };
    rule.priority = 100;
    registry.add_rule(cmdfix::Rule::Custom(rule));

    let corrector = Corrector::new(registry);
    let cmd = Command::new("x", "error", 1);
    let corrections = corrector.get_corrections(&cmd);

    assert_eq!(corrections.len(), 2);
    assert_eq!(corrections[0].script, "first");
    assert_eq!(corrections[0].priority, 100);
    assert_eq!(corrections[1].script, "second");
    assert_eq!(corrections[1].priority, 200);
}

#[test]
fn test_end_to_end_scenario() {
    // Rule A: priority 100, matches a script containing "mkdir ", inserts -p.
    // Rule B: priority 500, matches an output containing "Permission denied",
    // prefixes sudo. Only rule A's condition is met here.
    let mut registry = RuleRegistry::new();
    registry.add_rule(
        cmdfix::SimpleRuleBuilder::new("rule_a")
            .match_command("mkdir ")
            .priority(100)
            .replace("mkdir ", "mkdir -p "),
    );
    registry.add_rule(
        cmdfix::SimpleRuleBuilder::new("rule_b")
            .match_output("Permission denied")
            .priority(500)
            .replace("", "sudo "),
    );

    let corrector = Corrector::new(registry);
    let cmd = Command::new("mkdir a/b", "No such file or directory", 1);
    let corrections = corrector.get_corrections(&cmd);

    assert_eq!(corrections.len(), 1);
    assert_eq!(corrections[0].script, "mkdir -p a/b");
    assert_eq!(corrections[0].priority, 100);
}

#[test]
fn test_get_best_correction() {
    let mut registry = RuleRegistry::new();
    registry.add_rule(test_rule("only", true, vec!["the fix".to_string()]));
    let corrector = Corrector::new(registry);

    let cmd = Command::new("x", "error", 1);
    let best = corrector.get_best_correction(&cmd);
    assert_eq!(best.map(|c| c.script), Some("the fix".to_string()));

    let empty = Corrector::new(RuleRegistry::new());
    assert!(empty.get_best_correction(&cmd).is_none());
}
