//! The rule system: builders for the three rule kinds, the registry that
//! owns rules, and the catalogs of domain rules.

pub mod builders;
pub mod filesystem;
pub mod git;
pub mod package_managers;
pub mod permissions;

use crate::config::Config;
use crate::types::Rule;
use vstd::prelude::*;

verus! {

/// An ordered, insertion-order-preserving collection that owns rules. Names
/// are not required to be unique: duplicate-named rules coexist and all fire.
pub struct RuleRegistry {
    /// The owned rules, in insertion order.
    pub rules: Vec<Rule>,
}

impl RuleRegistry {
    /// Builds an empty registry.
    pub fn new() -> (r: RuleRegistry)
        ensures
            r.rules@ =~= Seq::<Rule>::empty(),
    {
        RuleRegistry { rules: Vec::new() }
    }

    /// Moves one rule into the registry, at the end.
    pub fn add_rule(&mut self, rule: Rule)
        ensures
            final(self).rules@ == old(self).rules@.push(rule),
    {
        self.rules.push(rule);
    }

    /// Moves a batch of rules into the registry, keeping their order.
    pub fn add_rules(&mut self, rules: Vec<Rule>)
        ensures
            final(self).rules@ == old(self).rules@ + rules@,
    {
        let mut rest = rules;
        let ghost all = rest@;
        while rest.len() > 0
            invariant
                self.rules@ + rest@ == old(self).rules@ + all,
            decreases rest.len(),
        {
            let ghost rest_before = rest@;
            let ghost rules_before = self.rules@;
            let rule = rest.remove(0);
            self.rules.push(rule);
            proof {
                assert(rest_before =~= seq![rule] + rest@);
                assert(self.rules@ + rest@ =~= rules_before + rest_before);
            }
        }
        proof {
            assert(self.rules@ =~= self.rules@ + rest@);
        }
    }

    /// The number of registered rules.
    pub fn len(&self) -> (r: usize)
        ensures
            r == self.rules@.len(),
    {
        self.rules.len()
    }

    /// Whether the registry holds no rule.
    pub fn is_empty(&self) -> (r: bool)
        ensures
            r == (self.rules@.len() == 0),
    {
        self.rules.is_empty()
    }

    /// All owned rules, in insertion order.
    pub fn rules(&self) -> (r: &Vec<Rule>)
        ensures
            r == &self.rules,
    {
        &self.rules
    }

    /// The rules that are enabled by default, in insertion order.
    pub fn enabled_rules(&self) -> (r: Vec<&Rule>)
        ensures
            r@.map_values(|x: &Rule| *x) == enabled_only(self.rules@),
    {
        enabled_of(&self.rules)
    }

    /// Wraps this registry in a corrector.
    pub fn into_corrector(self) -> (r: crate::corrector::Corrector)
        ensures
            r.registry.rules@ == self.rules@,
    {
        crate::corrector::Corrector::new(self)
    }
}

impl Default for RuleRegistry {
    /// An empty registry.
    fn default() -> (r: RuleRegistry)
        ensures
            r.rules@ =~= Seq::<Rule>::empty(),
    {
        RuleRegistry::new()
    }
}

/// The subsequence of `rules` whose `enabled_by_default` is true, in order.
pub open spec fn enabled_only(rules: Seq<Rule>) -> Seq<Rule>
    decreases rules.len(),
{
    if rules.len() == 0 {
        Seq::<Rule>::empty()
    } else if rules[0].spec_enabled_by_default() {
        seq![rules[0]] + enabled_only(rules.drop_first())
    } else {
        enabled_only(rules.drop_first())
    }
}

/// `enabled_only` over a take-prefix grows by at most the next element.
proof fn lemma_enabled_only_take_step(rules: Seq<Rule>, i: int)
    requires
        0 <= i < rules.len(),
    ensures
        enabled_only(rules.take(i + 1)) == if rules[i].spec_enabled_by_default() {
            enabled_only(rules.take(i)) + seq![rules[i]]
        } else {
            enabled_only(rules.take(i))
        },
    decreases i,
{
    let pre = rules.take(i + 1);
    if i == 0 {
        assert(pre.drop_first() =~= rules.take(0));
        assert(rules.take(0) =~= Seq::<Rule>::empty());
        if rules[0].spec_enabled_by_default() {
            assert(enabled_only(pre) =~= enabled_only(rules.take(0)) + seq![rules[0]]);
        }
    } else {
        lemma_enabled_only_take_step(rules.drop_first(), i - 1);
        assert(pre.drop_first() =~= rules.drop_first().take(i));
        assert(rules.take(i).drop_first() =~= rules.drop_first().take(i - 1));
        assert(rules.drop_first()[i - 1] == rules[i]);
        if rules[0].spec_enabled_by_default() {
            assert(enabled_only(rules.take(i)) == seq![rules[0]] + enabled_only(
                rules.drop_first().take(i - 1),
            ));
            if rules[i].spec_enabled_by_default() {
                assert(seq![rules[0]] + (enabled_only(rules.drop_first().take(i - 1))
                    + seq![rules[i]]) =~= (seq![rules[0]] + enabled_only(
                    rules.drop_first().take(i - 1),
                )) + seq![rules[i]]);
            }
        }
    }
}

/// Collects references to the rules that are enabled by default.
fn enabled_of(rules: &Vec<Rule>) -> (r: Vec<&Rule>)
    ensures
        r@.map_values(|x: &Rule| *x) == enabled_only(rules@),
{
    let mut out: Vec<&Rule> = Vec::new();
    let mut i: usize = 0;
    while i < rules.len()
        invariant
            i <= rules.len(),
            out@.map_values(|x: &Rule| *x) == enabled_only(rules@.take(i as int)),
        decreases rules.len() - i,
    {
        let rule = &rules[i];
        proof {
            lemma_enabled_only_take_step(rules@, i as int);
        }
        if rule.enabled_by_default() {
            out.push(rule);
            proof {
                assert(out@.map_values(|x: &Rule| *x) =~= enabled_only(rules@.take(i + 1)));
            }
        }
        i += 1;
    }
    proof {
        assert(rules@.take(rules@.len() as int) =~= rules@);
    }
    out
}

/// Keeps the rules that the configuration enables (by name; a rule without an
/// entry stays), preserving order.
pub fn filter_rules_by_config(rules: Vec<Rule>, config: &Config) -> (r: Vec<Rule>)
    ensures
        r@ == config_enabled_only(rules@, *config),
{
    let mut rest = rules;
    let ghost all = rest@;
    let ghost cfg = *config;
    let mut out: Vec<Rule> = Vec::new();
    proof {
        assert(out@ + config_enabled_only(all, cfg) =~= config_enabled_only(all, cfg));
    }
    while rest.len() > 0
        invariant
            out@ + config_enabled_only(rest@, cfg) == config_enabled_only(all, cfg),
            cfg == *config,
        decreases rest.len(),
    {
        let ghost rest_before = rest@;
        let ghost out_before = out@;
        let rule = rest.remove(0);
        proof {
            assert(rest_before[0] == rule);
            assert(rest_before.drop_first() =~= rest@);
        }
        if config.is_rule_enabled(rule.name()) {
            out.push(rule);
            proof {
                assert(config_enabled_only(rest_before, cfg) == seq![rule] + config_enabled_only(
                    rest@,
                    cfg,
                ));
                assert(out@ + config_enabled_only(rest@, cfg) =~= out_before
                    + config_enabled_only(rest_before, cfg));
            }
        } else {
            proof {
                assert(config_enabled_only(rest_before, cfg) == config_enabled_only(rest@, cfg));
            }
        }
    }
    proof {
        assert(out@ =~= out@ + config_enabled_only(rest@, cfg));
    }
    out
}

/// The subsequence of `rules` that `config` enables, in order.
pub open spec fn config_enabled_only(rules: Seq<Rule>, config: Config) -> Seq<Rule>
    decreases rules.len(),
{
    if rules.len() == 0 {
        Seq::<Rule>::empty()
    } else if config.spec_rule_enabled(rules[0].spec_name()) {
        seq![rules[0]] + config_enabled_only(rules.drop_first(), config)
    } else {
        config_enabled_only(rules.drop_first(), config)
    }
}

} // verus!
