//! Fuzzy-similarity rules: approximate matching of the script and the output
//! against set targets, with a fixed replacement.

use crate::error::Error;
use crate::skim::fuzzy_score;
use crate::skim::fuzzy_score_of;
use crate::types::Command;
use crate::types::Rule;
use vstd::prelude::*;
use vstd::string::StringExecFns;

verus! {

/// The approximate-similarity score of `pattern` against `choice` exceeds
/// `threshold` (an unalignable pattern never matches).
pub open spec fn fuzzy_above(choice: Seq<char>, pattern: Seq<char>, threshold: i64) -> bool {
    match fuzzy_score_of(choice, pattern) {
        Some(score) => score > threshold,
        None => false,
    }
}

/// A fuzzy rule: each set target must score above the threshold against its
/// field; unset targets are no constraint. It always proposes its one fixed
/// replacement.
pub struct FuzzyRule {
    /// Stable identifier of the rule.
    pub name: String,
    /// Approximate target for the script, if set.
    pub command_pattern: Option<String>,
    /// Approximate target for the output, if set.
    pub output_pattern: Option<String>,
    /// The fixed replacement script this rule proposes.
    pub replacement: String,
    /// Similarity threshold within [0, 100]; the score must exceed it.
    pub threshold: i64,
    /// Rank of the rule; a numerically lower priority wins.
    pub priority: i32,
}

impl FuzzyRule {
    /// The rule matches: each set target scores above the threshold.
    pub open spec fn spec_matches(&self, cmd: Command) -> bool {
        &&& match self.command_pattern {
            Some(p) => fuzzy_above(cmd.script@, p@, self.threshold),
            None => true,
        }
        &&& match self.output_pattern {
            Some(p) => fuzzy_above(cmd.output@, p@, self.threshold),
            None => true,
        }
    }

    /// The one fixed proposal, independent of the command.
    pub open spec fn spec_new_commands(&self, cmd: Command) -> Seq<Seq<char>> {
        seq![self.replacement@]
    }

    /// Tests the two approximate constraints.
    pub fn matches(&self, command: &Command) -> (r: bool)
        ensures
            r == self.spec_matches(*command),
    {
        let cmd_ok = match &self.command_pattern {
            Some(p) => match fuzzy_score(command.script.as_str(), p.as_str()) {
                Some(score) => score > self.threshold,
                None => false,
            },
            None => true,
        };
        let out_ok = match &self.output_pattern {
            Some(p) => match fuzzy_score(command.output.as_str(), p.as_str()) {
                Some(score) => score > self.threshold,
                None => false,
            },
            None => true,
        };
        cmd_ok && out_ok
    }

    /// Produces the one fixed proposal.
    pub fn get_new_commands(&self, command: &Command) -> (r: Vec<String>)
        ensures
            crate::text::string_views(r@) == self.spec_new_commands(*command),
    {
        let mut r: Vec<String> = Vec::new();
        r.push(self.replacement.clone());
        proof {
            assert(crate::text::string_views(r@) =~= self.spec_new_commands(*command));
        }
        r
    }
}

/// Raising the threshold can only remove fuzzy matches, never add them: for a
/// fixed text and target, a rule that matches at the stricter threshold also
/// matches at the looser one.
pub proof fn lemma_fuzzy_threshold_monotonic(
    choice: Seq<char>,
    pattern: Seq<char>,
    loose: i64,
    strict: i64,
)
    requires
        loose <= strict,
    ensures
        fuzzy_above(choice, pattern, strict) ==> fuzzy_above(choice, pattern, loose),
{
}

/// Declarative construction of a fuzzy rule; building fails when no target is
/// set or no replacement is set.
pub struct FuzzyRuleBuilder {
    /// Stable identifier the built rule will carry.
    pub name: String,
    /// Approximate target for the script, if set.
    pub command_pattern: Option<String>,
    /// Approximate target for the output, if set.
    pub output_pattern: Option<String>,
    /// The fixed replacement, if set; required for building.
    pub replacement: Option<String>,
    /// Similarity threshold, clamped to [0, 100] when set.
    pub threshold: i64,
    /// Rank of the built rule.
    pub priority: i32,
}

impl FuzzyRuleBuilder {
    /// Starts a builder with the given rule name, the default threshold of
    /// 20, and the default priority.
    pub fn new(name: &str) -> (r: FuzzyRuleBuilder)
        ensures
            r.name@ == name@,
            r.command_pattern is None,
            r.output_pattern is None,
            r.replacement is None,
            r.threshold == 20,
            r.priority == 1000,
    {
        FuzzyRuleBuilder {
            name: String::from_str(name),
            command_pattern: None,
            output_pattern: None,
            replacement: None,
            threshold: 20,
            priority: 1000,
        }
    }

    /// Sets the approximate target for the script.
    pub fn match_command(self, pattern: &str) -> (r: FuzzyRuleBuilder)
        ensures
            r.name == self.name,
            r.command_pattern matches Some(p) && p@ == pattern@,
            r.output_pattern == self.output_pattern,
            r.replacement == self.replacement,
            r.threshold == self.threshold,
            r.priority == self.priority,
    {
        FuzzyRuleBuilder { command_pattern: Some(String::from_str(pattern)), ..self }
    }

    /// Sets the approximate target for the output.
    pub fn match_output(self, pattern: &str) -> (r: FuzzyRuleBuilder)
        ensures
            r.name == self.name,
            r.command_pattern == self.command_pattern,
            r.output_pattern matches Some(p) && p@ == pattern@,
            r.replacement == self.replacement,
            r.threshold == self.threshold,
            r.priority == self.priority,
    {
        FuzzyRuleBuilder { output_pattern: Some(String::from_str(pattern)), ..self }
    }

    /// Sets the similarity threshold, clamped to [0, 100].
    pub fn threshold(self, t: i64) -> (r: FuzzyRuleBuilder)
        ensures
            r.name == self.name,
            r.command_pattern == self.command_pattern,
            r.output_pattern == self.output_pattern,
            r.replacement == self.replacement,
            r.threshold == if t < 0 {
                0int
            } else if t > 100 {
                100int
            } else {
                t as int
            },
            r.priority == self.priority,
    {
        let clamped: i64 = if t < 0 {
            0
        } else if t > 100 {
            100
        } else {
            t
        };
        FuzzyRuleBuilder { threshold: clamped, ..self }
    }

    /// Sets the priority (lower ranks first).
    pub fn priority(self, p: i32) -> (r: FuzzyRuleBuilder)
        ensures
            r.name == self.name,
            r.command_pattern == self.command_pattern,
            r.output_pattern == self.output_pattern,
            r.replacement == self.replacement,
            r.threshold == self.threshold,
            r.priority == p,
    {
        FuzzyRuleBuilder { priority: p, ..self }
    }

    /// Sets the fixed replacement script.
    pub fn replace(self, replacement: &str) -> (r: FuzzyRuleBuilder)
        ensures
            r.name == self.name,
            r.command_pattern == self.command_pattern,
            r.output_pattern == self.output_pattern,
            r.replacement matches Some(p) && p@ == replacement@,
            r.threshold == self.threshold,
            r.priority == self.priority,
    {
        FuzzyRuleBuilder { replacement: Some(String::from_str(replacement)), ..self }
    }

    /// Builds the rule. Fails exactly when no target is set or no replacement
    /// is set; on success the rule carries this builder's fields unchanged.
    pub fn build(self) -> (r: Result<Rule, Error>)
        ensures
            r is Err <==> (self.command_pattern is None && self.output_pattern is None)
                || self.replacement is None,
            (self.command_pattern is None && self.output_pattern is None) ==> (r matches Err(e)
                && e matches Error::Rule(m)
                && m@ == "FuzzyRuleBuilder: At least one pattern (command or output) must be set"@),
            !(self.command_pattern is None && self.output_pattern is None)
                && self.replacement is None ==> (r matches Err(e) && e matches Error::Rule(m) && m@
                == "FuzzyRuleBuilder: replacement must be set"@),
            r matches Ok(rule) ==> rule matches Rule::Fuzzy(f) && {
                &&& f.name == self.name
                &&& f.command_pattern == self.command_pattern
                &&& f.output_pattern == self.output_pattern
                &&& self.replacement matches Some(rep) && f.replacement == rep
                &&& f.threshold == self.threshold
                &&& f.priority == self.priority
            },
    {
        if self.command_pattern.is_none() && self.output_pattern.is_none() {
            return Err(
                Error::rule("FuzzyRuleBuilder: At least one pattern (command or output) must be set"),
            );
        }
        match self.replacement {
            None => Err(Error::rule("FuzzyRuleBuilder: replacement must be set")),
            Some(replacement) => Ok(
                Rule::Fuzzy(
                    FuzzyRule {
                        name: self.name,
                        command_pattern: self.command_pattern,
                        output_pattern: self.output_pattern,
                        replacement,
                        threshold: self.threshold,
                        priority: self.priority,
                    },
                ),
            ),
        }
    }
}

} // verus!
