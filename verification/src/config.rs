//! In-memory configuration: per-rule enable flags and priority overrides,
//! plus global settings. Loading and saving files is the caller's concern.

use crate::text::str_eq;
use vstd::prelude::*;
use vstd::string::StringExecFns;

verus! {

/// Global settings.
#[derive(Debug, Clone, Copy)]
pub struct GlobalConfig {
    /// Offer interactive selection when several corrections are available.
    pub interactive: bool,
    /// Print debug information.
    pub debug: bool,
}

impl Default for GlobalConfig {
    /// Interactive selection on, debug output off.
    fn default() -> (r: GlobalConfig)
        ensures
            r.interactive == true,
            r.debug == false,
    {
        GlobalConfig { interactive: true, debug: false }
    }
}

/// Settings for one rule, looked up by the rule's name.
#[derive(Debug, Clone, Copy)]
pub struct RuleConfig {
    /// Whether the rule may fire.
    pub enabled: bool,
    /// Overrides the rule's priority when set (lower ranks first).
    pub priority: Option<i32>,
}

impl Default for RuleConfig {
    /// Enabled, with no priority override.
    fn default() -> (r: RuleConfig)
        ensures
            r.enabled == true,
            r.priority is None,
    {
        RuleConfig { enabled: true, priority: None }
    }
}

/// The first entry of `entries` whose name is `name`, if any.
pub open spec fn find_entry(entries: Seq<(String, RuleConfig)>, name: Seq<char>) -> Option<
    RuleConfig,
>
    decreases entries.len(),
{
    if entries.len() == 0 {
        None
    } else if entries[0].0@ == name {
        Some(entries[0].1)
    } else {
        find_entry(entries.drop_first(), name)
    }
}

/// The whole configuration: global settings and per-rule entries. A rule
/// without an entry is enabled and keeps its own priority. When a name has
/// several entries, the first one wins.
#[derive(Debug)]
pub struct Config {
    /// Global settings.
    pub global: GlobalConfig,
    /// Per-rule settings, looked up by name; the first entry for a name wins.
    pub rules: Vec<(String, RuleConfig)>,
}

impl Default for Config {
    /// Default global settings and no per-rule entries.
    fn default() -> (r: Config)
        ensures
            r.global.interactive == true,
            r.global.debug == false,
            r.rules@ =~= Seq::<(String, RuleConfig)>::empty(),
    {
        Config { global: GlobalConfig::default(), rules: Vec::new() }
    }
}

impl Config {
    /// Builds the default configuration.
    pub fn new() -> (r: Config)
        ensures
            r.global.interactive == true,
            r.global.debug == false,
            r.rules@ =~= Seq::<(String, RuleConfig)>::empty(),
    {
        Config::default()
    }

    /// The entry for `name`, if one exists.
    pub open spec fn spec_find_rule(&self, name: Seq<char>) -> Option<RuleConfig> {
        find_entry(self.rules@, name)
    }

    /// Whether the rule named `name` is enabled: its entry's flag, or true
    /// without an entry.
    pub open spec fn spec_rule_enabled(&self, name: Seq<char>) -> bool {
        match self.spec_find_rule(name) {
            Some(c) => c.enabled,
            None => true,
        }
    }

    /// The priority override for the rule named `name`, if any.
    pub open spec fn spec_rule_priority(&self, name: Seq<char>) -> Option<i32> {
        match self.spec_find_rule(name) {
            Some(c) => c.priority,
            None => None,
        }
    }

    /// Sets the entry for `name`, overriding any earlier entry of that name
    /// and leaving every other name's lookup unchanged.
    pub fn set_rule(&mut self, name: &str, entry: RuleConfig)
        ensures
            final(self).global == old(self).global,
            forall|n: Seq<char>|
                final(self).spec_find_rule(n) == if n == name@ {
                    Some(entry)
                } else {
                    old(self).spec_find_rule(n)
                },
    {
        self.rules.insert(0, (String::from_str(name), entry));
        proof {
            assert(self.rules@.drop_first() =~= old(self).rules@);
            assert(forall|n: Seq<char>|
                self.spec_find_rule(n) == if n == name@ {
                    Some(entry)
                } else {
                    old(self).spec_find_rule(n)
                });
        }
    }

    /// Looks up whether the rule named `rule_name` is enabled; a rule without
    /// an entry is enabled.
    pub fn is_rule_enabled(&self, rule_name: &str) -> (r: bool)
        ensures
            r == self.spec_rule_enabled(rule_name@),
    {
        match self.find_rule(rule_name) {
            Some(c) => c.enabled,
            None => true,
        }
    }

    /// Looks up the priority override for the rule named `rule_name`.
    pub fn get_rule_priority(&self, rule_name: &str) -> (r: Option<i32>)
        ensures
            r == self.spec_rule_priority(rule_name@),
    {
        match self.find_rule(rule_name) {
            Some(c) => c.priority,
            None => None,
        }
    }

    /// Scans for the first entry named `rule_name`.
    fn find_rule(&self, rule_name: &str) -> (r: Option<RuleConfig>)
        ensures
            r == self.spec_find_rule(rule_name@),
    {
        proof {
            assert(self.rules@.skip(0) =~= self.rules@);
        }
        let mut i: usize = 0;
        while i < self.rules.len()
            invariant
                i <= self.rules@.len(),
                find_entry(self.rules@, rule_name@) == find_entry(
                    self.rules@.skip(i as int),
                    rule_name@,
                ),
            decreases self.rules@.len() - i,
        {
            let entry = &self.rules[i];
            proof {
                assert(self.rules@.skip(i as int)[0] == self.rules@[i as int]);
                assert(self.rules@.skip(i as int).drop_first() =~= self.rules@.skip(i + 1));
            }
            if str_eq(entry.0.as_str(), rule_name) {
                return Some(entry.1);
            }
            i += 1;
        }
        proof {
            assert(self.rules@.skip(self.rules@.len() as int) =~= Seq::<(
                String,
                RuleConfig,
            )>::empty());
        }
        None
    }

    /// An example configuration file in TOML form, with comments.
    pub fn example() -> (r: String)
        ensures
            r@ == example_text(),
    {
        String::from_str(EXAMPLE_TEXT)
    }
}

/// The text of the example configuration.
pub open spec fn example_text() -> Seq<char> {
    EXAMPLE_TEXT@
}

pub const EXAMPLE_TEXT: &'static str = "# cmdfix configuration

[global]
# Offer interactive selection when several corrections are available
interactive = true

# Print debug information
debug = false

# Override rules by name
[rules.git_branch_delete]
# Turn this rule off
enabled = false

[rules.git_push_set_upstream]
# Override the priority (lower ranks first)
priority = 300

[rules.mkdir_p]
enabled = true
priority = 150
";

} // verus!
