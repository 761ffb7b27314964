//! Regex-capture rules: pattern tests on the script and the output, and a
//! rewrite of the script built from the capture groups of the match.

use crate::error::Error;
use crate::re::captures;
use crate::re::compile;
use crate::re::is_match;
use crate::re::regex_groups;
use crate::re::regex_matches;
use crate::re::RegexPattern;
use crate::text::replace_all;
use crate::text::str_replace;
use crate::text::string_views;
use crate::types::Command;
use crate::types::Rule;
use vstd::prelude::*;
use vstd::string::StringExecFns;

verus! {

/// The placeholder text for capture group `i`: `$0` through `$9`.
pub open spec fn placeholder_text(i: int) -> Seq<char> {
    if i == 0 {
        "$0"@
    } else if i == 1 {
        "$1"@
    } else if i == 2 {
        "$2"@
    } else if i == 3 {
        "$3"@
    } else if i == 4 {
        "$4"@
    } else if i == 5 {
        "$5"@
    } else if i == 6 {
        "$6"@
    } else if i == 7 {
        "$7"@
    } else if i == 8 {
        "$8"@
    } else {
        "$9"@
    }
}

/// The placeholder string for capture group `i`.
fn placeholder_str(i: usize) -> (r: &'static str)
    requires
        i < 10,
    ensures
        r@ == placeholder_text(i as int),
{
    match i {
        0 => "$0",
        1 => "$1",
        2 => "$2",
        3 => "$3",
        4 => "$4",
        5 => "$5",
        6 => "$6",
        7 => "$7",
        8 => "$8",
        _ => "$9",
    }
}

/// The template after substituting groups 0 up to (excluding) `i`, in order:
/// for each present group, every occurrence of its placeholder is replaced by
/// the group's text.
pub open spec fn subst_groups_upto(
    t: Seq<char>,
    groups: Seq<Option<Seq<char>>>,
    i: int,
) -> Seq<char>
    decreases i,
{
    if i <= 0 {
        t
    } else {
        let prev = subst_groups_upto(t, groups, i - 1);
        if i - 1 < groups.len() {
            match groups[i - 1] {
                Some(g) => replace_all(prev, placeholder_text(i - 1), g),
                None => prev,
            }
        } else {
            prev
        }
    }
}

/// The template after substituting the placeholders `$0` through `$9` of the
/// present capture groups, in ascending order.
pub open spec fn subst_groups(t: Seq<char>, groups: Seq<Option<Seq<char>>>) -> Seq<char> {
    subst_groups_upto(t, groups, 10)
}

/// How a regex rule turns the original script and the capture groups of a
/// match into proposed scripts. A closed set of rewrites stands in for an
/// arbitrary replacement function.
pub enum CaptureRewrite {
    /// A template with positional placeholders `$0` through `$9` referring to
    /// capture groups. When substitution changes nothing, the original script
    /// is proposed unchanged (a no-op rather than wrong output).
    Template(String),
    /// One proposal `prefix + group + suffix` built from a single capture
    /// group; nothing is proposed when that group is absent.
    Group { index: usize, prefix: String, suffix: String },
}

/// The proposals of a rewrite, given the original script and the capture
/// groups of the match that fired.
pub open spec fn rewrite_outputs(
    rw: CaptureRewrite,
    script: Seq<char>,
    groups: Seq<Option<Seq<char>>>,
) -> Seq<Seq<char>> {
    match rw {
        CaptureRewrite::Template(t) => {
            let subst = subst_groups(t@, groups);
            if subst == t@ {
                seq![script]
            } else {
                seq![subst]
            }
        },
        CaptureRewrite::Group { index, prefix, suffix } => {
            if index < groups.len() {
                match groups[index as int] {
                    Some(g) => seq![prefix@ + g + suffix@],
                    None => Seq::<Seq<char>>::empty(),
                }
            } else {
                Seq::<Seq<char>>::empty()
            }
        },
    }
}

/// Applies a rewrite to the original script and the extracted capture groups.
fn apply_rewrite(rw: &CaptureRewrite, script: &str, groups: &Vec<Option<String>>) -> (r: Vec<
    String,
>)
    ensures
        string_views(r@) == rewrite_outputs(*rw, script@, groups.deep_view()),
{
    let mut r: Vec<String> = Vec::new();
    match rw {
        CaptureRewrite::Template(t) => {
            let mut result: String = t.clone();
            let mut i: usize = 0;
            while i < 10
                invariant
                    i <= 10,
                    result@ == subst_groups_upto(t@, groups.deep_view(), i as int),
                decreases 10 - i,
            {
                if i < groups.len() {
                    match &groups[i] {
                        Some(g) => {
                            let placeholder = placeholder_str(i);
                            result = str_replace(result.as_str(), placeholder, g.as_str());
                        },
                        None => {},
                    }
                    proof {
                        assert(groups.deep_view()[i as int] == match groups@[i as int] {
                            Some(s) => Some(s@),
                            None => None::<Seq<char>>,
                        });
                    }
                }
                i += 1;
            }
            if result == *t {
                r.push(String::from_str(script));
            } else {
                r.push(result);
            }
        },
        CaptureRewrite::Group { index, prefix, suffix } => {
            if *index < groups.len() {
                match &groups[*index] {
                    Some(g) => {
                        let mut s = prefix.clone();
                        s.append(g.as_str());
                        s.append(suffix.as_str());
                        r.push(s);
                    },
                    None => {},
                }
                proof {
                    assert(groups.deep_view()[*index as int] == match groups@[*index as int] {
                        Some(s) => Some(s@),
                        None => None::<Seq<char>>,
                    });
                }
            }
        },
    }
    proof {
        assert(string_views(r@) =~= rewrite_outputs(*rw, script@, groups.deep_view()));
    }
    r
}

/// A regex rule: it matches when each set pattern matches its field (an unset
/// one is no constraint), and rewrites the script from the capture groups of
/// the script match, falling back to the output match when no script pattern
/// is set or it does not match.
pub struct RegexRule {
    /// Stable identifier of the rule.
    pub name: String,
    /// Compiled pattern tested against the script, if set.
    pub command_pattern: Option<RegexPattern>,
    /// Compiled pattern tested against the output, if set.
    pub output_pattern: Option<RegexPattern>,
    /// How proposals are built from the capture groups.
    pub rewrite: CaptureRewrite,
    /// Rank of the rule; a numerically lower priority wins.
    pub priority: i32,
}

impl RegexRule {
    /// The rule matches: each set pattern matches its field.
    pub open spec fn spec_matches(&self, cmd: Command) -> bool {
        &&& match self.command_pattern {
            Some(rp) => regex_matches(rp.pattern_view(), cmd.script@),
            None => true,
        }
        &&& match self.output_pattern {
            Some(rp) => regex_matches(rp.pattern_view(), cmd.output@),
            None => true,
        }
    }

    /// The proposals: rewrite from the script match's groups when the script
    /// pattern is set and matches; otherwise from the output match's groups;
    /// otherwise nothing.
    pub open spec fn spec_new_commands(&self, cmd: Command) -> Seq<Seq<char>> {
        let script_groups = match self.command_pattern {
            Some(rp) => if regex_matches(rp.pattern_view(), cmd.script@) {
                Some(regex_groups(rp.pattern_view(), cmd.script@))
            } else {
                None
            },
            None => None,
        };
        let output_groups = match self.output_pattern {
            Some(rp) => if regex_matches(rp.pattern_view(), cmd.output@) {
                Some(regex_groups(rp.pattern_view(), cmd.output@))
            } else {
                None
            },
            None => None,
        };
        match script_groups {
            Some(groups) => rewrite_outputs(self.rewrite, cmd.script@, groups),
            None => match output_groups {
                Some(groups) => rewrite_outputs(self.rewrite, cmd.script@, groups),
                None => Seq::<Seq<char>>::empty(),
            },
        }
    }

    /// Tests the two pattern constraints.
    pub fn matches(&self, command: &Command) -> (r: bool)
        ensures
            r == self.spec_matches(*command),
    {
        let cmd_ok = match &self.command_pattern {
            Some(rp) => is_match(rp, command.script.as_str()),
            None => true,
        };
        let out_ok = match &self.output_pattern {
            Some(rp) => is_match(rp, command.output.as_str()),
            None => true,
        };
        cmd_ok && out_ok
    }

    /// Produces the proposed scripts for a matching command.
    pub fn get_new_commands(&self, command: &Command) -> (r: Vec<String>)
        ensures
            string_views(r@) == self.spec_new_commands(*command),
    {
        if let Some(rp) = &self.command_pattern {
            if let Some(groups) = captures(rp, command.script.as_str()) {
                return apply_rewrite(&self.rewrite, command.script.as_str(), &groups);
            }
        }
        if let Some(rp) = &self.output_pattern {
            if let Some(groups) = captures(rp, command.output.as_str()) {
                return apply_rewrite(&self.rewrite, command.script.as_str(), &groups);
            }
        }
        let r: Vec<String> = Vec::new();
        proof {
            assert(string_views(r@) =~= self.spec_new_commands(*command));
        }
        r
    }
}

/// Declarative construction of a regex rule; building fails when no pattern
/// is set or no rewrite is set, and setting a pattern fails when its text is
/// not a valid regular expression.
pub struct RegexRuleBuilder {
    /// Stable identifier the built rule will carry.
    pub name: String,
    /// Compiled pattern for the script, if set.
    pub command_pattern: Option<RegexPattern>,
    /// Compiled pattern for the output, if set.
    pub output_pattern: Option<RegexPattern>,
    /// The rewrite, if set; required for building.
    pub rewrite: Option<CaptureRewrite>,
    /// Rank of the built rule.
    pub priority: i32,
}

impl RegexRuleBuilder {
    /// Starts a builder with the given rule name and the default priority.
    pub fn new(name: &str) -> (r: RegexRuleBuilder)
        ensures
            r.name@ == name@,
            r.command_pattern is None,
            r.output_pattern is None,
            r.rewrite is None,
            r.priority == 1000,
    {
        RegexRuleBuilder {
            name: String::from_str(name),
            command_pattern: None,
            output_pattern: None,
            rewrite: None,
            priority: 1000,
        }
    }

    /// Compiles and sets the pattern tested against the script. Fails exactly
    /// when the pattern text is not accepted as a regular expression.
    pub fn match_command_regex(self, pattern: &str) -> (r: Result<RegexRuleBuilder, Error>)
        ensures
            r is Ok <==> crate::re::regex_accepts(pattern@),
            r matches Ok(b) ==> {
                &&& b.name == self.name
                &&& b.command_pattern matches Some(rp) && rp.pattern_view() == pattern@
                &&& b.output_pattern == self.output_pattern
                &&& b.rewrite == self.rewrite
                &&& b.priority == self.priority
            },
            r matches Err(e) ==> e matches Error::Rule(m) && m@ == "invalid regular expression: "@
                + pattern@,
    {
        match compile(pattern) {
            Some(rp) => Ok(RegexRuleBuilder { command_pattern: Some(rp), ..self }),
            None => {
                let mut m = String::from_str("invalid regular expression: ");
                m.append(pattern);
                Err(Error::Rule(m))
            },
        }
    }

    /// Compiles and sets the pattern tested against the output. Fails exactly
    /// when the pattern text is not accepted as a regular expression.
    pub fn match_output_regex(self, pattern: &str) -> (r: Result<RegexRuleBuilder, Error>)
        ensures
            r is Ok <==> crate::re::regex_accepts(pattern@),
            r matches Ok(b) ==> {
                &&& b.name == self.name
                &&& b.command_pattern == self.command_pattern
                &&& b.output_pattern matches Some(rp) && rp.pattern_view() == pattern@
                &&& b.rewrite == self.rewrite
                &&& b.priority == self.priority
            },
            r matches Err(e) ==> e matches Error::Rule(m) && m@ == "invalid regular expression: "@
                + pattern@,
    {
        match compile(pattern) {
            Some(rp) => Ok(RegexRuleBuilder { output_pattern: Some(rp), ..self }),
            None => {
                let mut m = String::from_str("invalid regular expression: ");
                m.append(pattern);
                Err(Error::Rule(m))
            },
        }
    }

    /// Sets the priority (lower ranks first).
    pub fn priority(self, p: i32) -> (r: RegexRuleBuilder)
        ensures
            r.name == self.name,
            r.command_pattern == self.command_pattern,
            r.output_pattern == self.output_pattern,
            r.rewrite == self.rewrite,
            r.priority == p,
    {
        RegexRuleBuilder { priority: p, ..self }
    }

    /// Sets how proposals are built from the capture groups.
    pub fn replace_with(self, rewrite: CaptureRewrite) -> (r: RegexRuleBuilder)
        ensures
            r.name == self.name,
            r.command_pattern == self.command_pattern,
            r.output_pattern == self.output_pattern,
            r.rewrite matches Some(rw) && rw == rewrite,
            r.priority == self.priority,
    {
        RegexRuleBuilder { rewrite: Some(rewrite), ..self }
    }

    /// Builds the rule. Fails exactly when no pattern is set or no rewrite is
    /// set; on success the rule carries this builder's fields unchanged.
    pub fn build(self) -> (r: Result<Rule, Error>)
        ensures
            r is Err <==> (self.command_pattern is None && self.output_pattern is None)
                || self.rewrite is None,
            (self.command_pattern is None && self.output_pattern is None) ==> (r matches Err(e)
                && e matches Error::Rule(m)
                && m@ == "RegexRuleBuilder: At least one pattern (command or output) must be set"@),
            !(self.command_pattern is None && self.output_pattern is None) && self.rewrite is None
                ==> (r matches Err(e) && e matches Error::Rule(m) && m@
                == "RegexRuleBuilder: a replacement must be set"@),
            r matches Ok(rule) ==> rule matches Rule::Regex(rr) && {
                &&& rr.name == self.name
                &&& rr.command_pattern == self.command_pattern
                &&& rr.output_pattern == self.output_pattern
                &&& self.rewrite matches Some(rw) && rr.rewrite == rw
                &&& rr.priority == self.priority
            },
    {
        if self.command_pattern.is_none() && self.output_pattern.is_none() {
            return Err(
                Error::rule("RegexRuleBuilder: At least one pattern (command or output) must be set"),
            );
        }
        match self.rewrite {
            None => Err(Error::rule("RegexRuleBuilder: a replacement must be set")),
            Some(rewrite) => Ok(
                Rule::Regex(
                    RegexRule {
                        name: self.name,
                        command_pattern: self.command_pattern,
                        output_pattern: self.output_pattern,
                        rewrite,
                        priority: self.priority,
                    },
                ),
            ),
        }
    }

    /// Convenience path: builds the rule with a template rewrite whose
    /// placeholders `$0` through `$9` refer to capture groups.
    pub fn replace_simple(self, template: &str) -> (r: Result<Rule, Error>)
        ensures
            r is Err <==> self.command_pattern is None && self.output_pattern is None,
            r matches Ok(rule) ==> rule matches Rule::Regex(rr) && {
                &&& rr.name == self.name
                &&& rr.command_pattern == self.command_pattern
                &&& rr.output_pattern == self.output_pattern
                &&& rr.rewrite matches CaptureRewrite::Template(t) && t@ == template@
                &&& rr.priority == self.priority
            },
    {
        self.replace_with(CaptureRewrite::Template(String::from_str(template))).build()
    }
}

} // verus!
