use cmdfix::config::RuleConfig;
use cmdfix::Config;

#[test]
fn test_config_default() {
    let config = Config::default();
    assert!(config.global.interactive);
    assert!(!config.global.debug);
    assert!(config.rules.is_empty());
}

#[test]
fn test_rule_config_default() {
    let config = Config::default();
    assert!(config.is_rule_enabled("any_rule"));
    assert_eq!(config.get_rule_priority("any_rule"), None);
}

#[test]
fn test_rule_disabled() {
    let mut config = Config::default();
    config.set_rule(
        "git_branch_delete",
        RuleConfig { enabled: false, priority: None },
    );

    assert!(!config.is_rule_enabled("git_branch_delete"));
    assert!(config.is_rule_enabled("other_rule"));
}

#[test]
fn test_rule_priority_override() {
    let mut config = Config::default();
    config.set_rule(
        "mkdir_p",
        RuleConfig { enabled: true, priority: Some(150) },
    );

    assert_eq!(config.get_rule_priority("mkdir_p"), Some(150));
    assert_eq!(config.get_rule_priority("other_rule"), None);
}

#[test]
fn test_config_example_valid() {
    let example = Config::example();
    let parsed: Result<toml::Value, _> = toml::from_str(&example);
    assert!(parsed.is_ok(), "Example config should be valid TOML");
}

#[test]
fn test_set_rule_overrides_earlier_entry() {
    let mut config = Config::default();
    config.set_rule("mkdir_p", RuleConfig { enabled: true, priority: Some(100) });
    config.set_rule("mkdir_p", RuleConfig { enabled: false, priority: Some(200) });
    assert!(!config.is_rule_enabled("mkdir_p"));
    assert_eq!(config.get_rule_priority("mkdir_p"), Some(200));
}
