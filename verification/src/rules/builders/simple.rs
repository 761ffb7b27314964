//! Literal-substitution rules: substring tests on the script and the output,
//! and a global find/replace on the script.

use crate::text::has_substring;
use crate::text::replace_all;
use crate::text::str_contains;
use crate::text::str_replace;
use crate::text::string_views;
use crate::types::Command;
use crate::types::Rule;
use vstd::prelude::*;
use vstd::string::StringExecFns;

verus! {

/// A literal rule: it matches when each set substring occurs in the matching
/// field (an unset one is no constraint), and proposes the script with every
/// occurrence of the find text replaced.
pub struct SimpleRule {
    /// Stable identifier of the rule.
    pub name: String,
    /// Substring that must occur in the script, if set.
    pub match_cmd: Option<String>,
    /// Substring that must occur in the output, if set.
    pub match_out: Option<String>,
    /// The (find, replace) pair applied to the script; without it the rule
    /// proposes nothing.
    pub replacement: Option<(String, String)>,
    /// Rank of the rule; a numerically lower priority wins.
    pub priority: i32,
}

impl SimpleRule {
    /// The rule matches: each set substring occurs in its field.
    pub open spec fn spec_matches(&self, cmd: Command) -> bool {
        &&& match self.match_cmd {
            Some(p) => has_substring(cmd.script@, p@),
            None => true,
        }
        &&& match self.match_out {
            Some(p) => has_substring(cmd.output@, p@),
            None => true,
        }
    }

    /// The one proposed script, when a replacement pair is set: the script
    /// with every occurrence of the find text replaced.
    pub open spec fn spec_new_commands(&self, cmd: Command) -> Seq<Seq<char>> {
        match self.replacement {
            Some(pair) => seq![replace_all(cmd.script@, pair.0@, pair.1@)],
            None => Seq::<Seq<char>>::empty(),
        }
    }

    /// Tests the two substring constraints.
    pub fn matches(&self, command: &Command) -> (r: bool)
        ensures
            r == self.spec_matches(*command),
    {
        let cmd_ok = match &self.match_cmd {
            Some(p) => str_contains(command.script.as_str(), p.as_str()),
            None => true,
        };
        let out_ok = match &self.match_out {
            Some(p) => str_contains(command.output.as_str(), p.as_str()),
            None => true,
        };
        cmd_ok && out_ok
    }

    /// Produces the proposed scripts for a matching command.
    pub fn get_new_commands(&self, command: &Command) -> (r: Vec<String>)
        ensures
            string_views(r@) == self.spec_new_commands(*command),
    {
        let mut r: Vec<String> = Vec::new();
        match &self.replacement {
            Some(pair) => {
                r.push(str_replace(command.script.as_str(), pair.0.as_str(), pair.1.as_str()));
            },
            None => {},
        }
        proof {
            assert(string_views(r@) =~= self.spec_new_commands(*command));
        }
        r
    }
}

/// `r` is the literal rule with exactly these fields; `None` stands for an
/// unset substring constraint.
pub open spec fn is_simple_rule(
    r: Rule,
    name: Seq<char>,
    match_cmd: Option<Seq<char>>,
    match_out: Option<Seq<char>>,
    find: Seq<char>,
    replace: Seq<char>,
    priority: i32,
) -> bool {
    r matches Rule::Simple(sr) && {
        &&& sr.name@ == name
        &&& match (sr.match_cmd, match_cmd) {
            (Some(a), Some(b)) => a@ == b,
            (None, None) => true,
            _ => false,
        }
        &&& match (sr.match_out, match_out) {
            (Some(a), Some(b)) => a@ == b,
            (None, None) => true,
            _ => false,
        }
        &&& sr.replacement matches Some(pair) && pair.0@ == find && pair.1@ == replace
        &&& sr.priority == priority
    }
}

/// Declarative construction of a literal rule; it cannot fail.
pub struct SimpleRuleBuilder {
    /// Stable identifier the built rule will carry.
    pub name: String,
    /// Substring the script must contain, if set.
    pub match_cmd: Option<String>,
    /// Substring the output must contain, if set.
    pub match_out: Option<String>,
    /// Rank of the built rule.
    pub priority: i32,
}

impl SimpleRuleBuilder {
    /// Starts a builder with the given rule name and the default priority.
    pub fn new(name: &str) -> (r: SimpleRuleBuilder)
        ensures
            r.name@ == name@,
            r.match_cmd is None,
            r.match_out is None,
            r.priority == 1000,
    {
        SimpleRuleBuilder {
            name: String::from_str(name),
            match_cmd: None,
            match_out: None,
            priority: 1000,
        }
    }

    /// Sets the substring the script must contain.
    pub fn match_command(self, pattern: &str) -> (r: SimpleRuleBuilder)
        ensures
            r.name == self.name,
            r.match_cmd matches Some(p) && p@ == pattern@,
            r.match_out == self.match_out,
            r.priority == self.priority,
    {
        SimpleRuleBuilder { match_cmd: Some(String::from_str(pattern)), ..self }
    }

    /// Sets the substring the output must contain.
    pub fn match_output(self, pattern: &str) -> (r: SimpleRuleBuilder)
        ensures
            r.name == self.name,
            r.match_cmd == self.match_cmd,
            r.match_out matches Some(p) && p@ == pattern@,
            r.priority == self.priority,
    {
        SimpleRuleBuilder { match_out: Some(String::from_str(pattern)), ..self }
    }

    /// Sets the priority (lower ranks first).
    pub fn priority(self, p: i32) -> (r: SimpleRuleBuilder)
        ensures
            r.name == self.name,
            r.match_cmd == self.match_cmd,
            r.match_out == self.match_out,
            r.priority == p,
    {
        SimpleRuleBuilder { priority: p, ..self }
    }

    /// Finishes the rule with a global find/replace pair on the script.
    pub fn replace(self, old: &str, new: &str) -> (r: Rule)
        ensures
            r matches Rule::Simple(sr) && {
                &&& sr.name == self.name
                &&& sr.match_cmd == self.match_cmd
                &&& sr.match_out == self.match_out
                &&& sr.replacement matches Some(pair) && pair.0@ == old@ && pair.1@ == new@
                &&& sr.priority == self.priority
            },
    {
        Rule::Simple(
            SimpleRule {
                name: self.name,
                match_cmd: self.match_cmd,
                match_out: self.match_out,
                replacement: Some((String::from_str(old), String::from_str(new))),
                priority: self.priority,
            },
        )
    }
}

} // verus!
