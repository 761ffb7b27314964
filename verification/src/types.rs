//! Core value types of the correction engine: the observed failure
//! (`Command`) and one proposed fix (`CorrectedCommand`).

use crate::rules::builders::fuzzy::FuzzyRule;
use crate::rules::builders::regex::RegexRule;
use crate::rules::builders::simple::SimpleRule;
use crate::text::string_views;
use core::cmp::Ordering;
use vstd::prelude::*;
use vstd::string::StrSliceExecFns;
use vstd::string::StringExecFns;

verus! {

/// One observed shell failure: the script that was run, the output it
/// produced, and its exit code. Immutable once constructed.
#[derive(Debug)]
#[verifier::ext_equal]
pub struct Command {
    /// The original shell script text.
    pub script: String,
    /// The captured output (stdout/stderr) of the failed run.
    pub output: String,
    /// The exit code of the failed run.
    pub exit_code: i32,
}

impl Command {
    /// Builds a command from its parts.
    pub fn new(script: &str, output: &str, exit_code: i32) -> (r: Command)
        ensures
            r.script@ == script@,
            r.output@ == output@,
            r.exit_code == exit_code,
    {
        Command { script: String::from_str(script), output: String::from_str(output), exit_code }
    }
}

/// `c` separates words, as the whitespace splitter sees it.
pub open spec fn is_space(c: char) -> bool {
    c == ' ' || c == '\t' || c == '\n' || c == '\r' || c == '\u{b}' || c == '\u{c}'
}

/// The words of `s` from position `i` on, with `cur` the word read so far.
pub open spec fn split_acc(s: Seq<char>, i: int, cur: Seq<char>) -> Seq<Seq<char>>
    decreases s.len() - i,
{
    if i < 0 || i >= s.len() {
        if cur.len() > 0 {
            seq![cur]
        } else {
            Seq::<Seq<char>>::empty()
        }
    } else if is_space(s[i]) {
        if cur.len() > 0 {
            seq![cur] + split_acc(s, i + 1, Seq::<char>::empty())
        } else {
            split_acc(s, i + 1, Seq::<char>::empty())
        }
    } else {
        split_acc(s, i + 1, cur.push(s[i]))
    }
}

/// The words of `s`: its maximal runs of non-whitespace characters, in order.
pub open spec fn split_whitespace_spec(s: Seq<char>) -> Seq<Seq<char>> {
    split_acc(s, 0, Seq::<char>::empty())
}

impl Command {
    /// The words of the script, split on whitespace.
    pub fn script_parts(&self) -> (r: Vec<String>)
        ensures
            string_views(r@) == split_whitespace_spec(self.script@),
    {
        let s = self.script.as_str();
        let n = s.unicode_len();
        let mut parts: Vec<String> = Vec::new();
        let mut cur = String::new();
        let mut i: usize = 0;
        proof {
            assert(string_views(parts@) + split_acc(s@, 0, cur@) =~= split_whitespace_spec(s@));
        }
        while i < n
            invariant
                i <= n,
                n == s@.len(),
                string_views(parts@) + split_acc(s@, i as int, cur@) == split_whitespace_spec(s@),
            decreases n - i,
        {
            let c = s.get_char(i);
            if c == ' ' || c == '\t' || c == '\n' || c == '\r' || c == '\u{b}' || c == '\u{c}' {
                if !cur.as_str().is_empty() {
                    let ghost parts_before = parts@;
                    let ghost word = cur@;
                    parts.push(cur);
                    cur = String::new();
                    proof {
                        assert(string_views(parts@) =~= string_views(parts_before).push(word));
                        assert(string_views(parts_before) + (seq![word] + split_acc(
                            s@,
                            i + 1,
                            cur@,
                        )) =~= string_views(parts@) + split_acc(s@, i + 1, cur@));
                    }
                } else {
                    proof {
                        assert(cur@ =~= Seq::<char>::empty());
                    }
                }
            } else {
                let ghost word = cur@;
                cur.append(s.substring_char(i, i + 1));
                proof {
                    assert(cur@ =~= word.push(s@[i as int]));
                }
            }
            i += 1;
        }
        if !cur.as_str().is_empty() {
            let ghost parts_before = parts@;
            let ghost word = cur@;
            parts.push(cur);
            proof {
                assert(string_views(parts@) =~= string_views(parts_before).push(word));
                assert(string_views(parts@) =~= string_views(parts_before) + seq![word]);
            }
        } else {
            proof {
                assert(string_views(parts@) =~= string_views(parts@) + split_acc(
                    s@,
                    n as int,
                    cur@,
                ));
            }
        }
        parts
    }
}

impl Clone for Command {
    fn clone(&self) -> (r: Self)
        ensures
            r == *self,
    {
        let r = Command {
            script: self.script.clone(),
            output: self.output.clone(),
            exit_code: self.exit_code,
        };
        proof {
            assert(r =~= *self);
        }
        r
    }
}

/// The mathematical content of a `CorrectedCommand`: its text, its rank, and
/// its optional side-effect label.
#[verifier::ext_equal]
pub ghost struct CandidateView {
    pub script: Seq<char>,
    pub priority: int,
    pub side_effect: Option<Seq<char>>,
}

/// Two proposals are the same candidate when they agree on the corrected text
/// and the side-effect label; the priority is deliberately ignored, so that
/// deduplication can collapse equal proposals of different rank.
pub open spec fn same_candidate(a: CandidateView, b: CandidateView) -> bool {
    a.script == b.script && a.side_effect == b.side_effect
}

/// One proposed fix: the corrected script text, a rank (lower is better), and
/// an optional side-effect label.
#[derive(Debug)]
#[verifier::ext_equal]
pub struct CorrectedCommand {
    /// The corrected shell script text.
    pub script: String,
    /// Rank of this proposal; a numerically lower priority sorts first.
    pub priority: i32,
    /// Optional label of a side effect to run along with the correction.
    pub side_effect: Option<String>,
}

impl View for CorrectedCommand {
    type V = CandidateView;

    open spec fn view(&self) -> CandidateView {
        CandidateView {
            script: self.script@,
            priority: self.priority as int,
            side_effect: match self.side_effect {
                Option::Some(s) => Option::Some(s@),
                Option::None => Option::None,
            },
        }
    }
}

/// The views of a sequence of proposals, element by element.
pub open spec fn candidate_views(s: Seq<CorrectedCommand>) -> Seq<CandidateView> {
    s.map_values(|c: CorrectedCommand| c@)
}

impl CorrectedCommand {
    /// Builds a proposal without a side effect.
    pub fn new(script: &str, priority: i32) -> (r: CorrectedCommand)
        ensures
            r@ == (CandidateView { script: script@, priority: priority as int, side_effect: None }),
    {
        CorrectedCommand { script: String::from_str(script), priority, side_effect: None }
    }

    /// Builds a proposal carrying a side-effect label.
    pub fn with_side_effect(script: &str, priority: i32, side_effect: &str) -> (r:
        CorrectedCommand)
        ensures
            r@ == (CandidateView {
                script: script@,
                priority: priority as int,
                side_effect: Some(side_effect@),
            }),
    {
        CorrectedCommand {
            script: String::from_str(script),
            priority,
            side_effect: Some(String::from_str(side_effect)),
        }
    }
}

impl Clone for CorrectedCommand {
    fn clone(&self) -> (r: Self)
        ensures
            r == *self,
    {
        let side_effect = match &self.side_effect {
            Some(s) => Some(s.clone()),
            None => None,
        };
        let r = CorrectedCommand { script: self.script.clone(), priority: self.priority, side_effect };
        proof {
            assert(r =~= *self);
        }
        r
    }
}

impl PartialEq for CorrectedCommand {
    /// Equality is by `(script, side_effect)` only: the priority does not
    /// take part, so equal proposals of different rank compare equal.
    fn eq(&self, other: &Self) -> (r: bool) {
        let scripts_equal = self.script == other.script;
        let sides_equal = match (&self.side_effect, &other.side_effect) {
            (Some(a), Some(b)) => *a == *b,
            (None, None) => true,
            _ => false,
        };
        scripts_equal && sides_equal
    }
}

impl vstd::std_specs::cmp::PartialEqSpecImpl for CorrectedCommand {
    open spec fn obeys_eq_spec() -> bool {
        true
    }

    open spec fn eq_spec(&self, other: &Self) -> bool {
        same_candidate(self@, other@)
    }
}

/// What `partial_cmp` returns: the order is by `priority` alone.
pub open spec fn spec_priority_order(a: int, b: int) -> Option<Ordering> {
    if a < b {
        Some(Ordering::Less)
    } else if a == b {
        Some(Ordering::Equal)
    } else {
        Some(Ordering::Greater)
    }
}

impl PartialOrd for CorrectedCommand {
    /// Ordering is by `priority` alone, so that sorting ranks proposals; note
    /// the deliberate asymmetry with `eq`, which ignores the priority.
    fn partial_cmp(&self, other: &Self) -> (r: Option<Ordering>) {
        if self.priority < other.priority {
            Some(Ordering::Less)
        } else if self.priority == other.priority {
            Some(Ordering::Equal)
        } else {
            Some(Ordering::Greater)
        }
    }
}

impl vstd::std_specs::cmp::PartialOrdSpecImpl for CorrectedCommand {
    open spec fn obeys_partial_cmp_spec() -> bool {
        true
    }

    open spec fn partial_cmp_spec(&self, other: &Self) -> Option<Ordering> {
        spec_priority_order(self@.priority, other@.priority)
    }
}

/// A caller-defined rule with a fixed match decision and a fixed list of
/// proposals; the closed-world stand-in for custom rule implementations.
pub struct CustomRule {
    /// Stable identifier of the rule.
    pub name: String,
    /// The fixed answer of `matches`.
    pub always_matches: bool,
    /// The fixed proposals, in preference order.
    pub suggestions: Vec<String>,
    /// Rank of the rule; a numerically lower priority wins.
    pub priority: i32,
    /// Whether the rule is only evaluated on commands with output.
    pub requires_output: bool,
    /// Whether the rule is enabled when no configuration says otherwise.
    pub enabled_by_default: bool,
}

impl CustomRule {
    /// Builds a custom rule with the default priority and gating.
    pub fn new(name: &str, matches: bool, suggestions: Vec<String>) -> (r: Rule)
        ensures
            r matches Rule::Custom(c) && {
                &&& c.name@ == name@
                &&& c.always_matches == matches
                &&& c.suggestions == suggestions
                &&& c.priority == 1000
                &&& c.requires_output == true
                &&& c.enabled_by_default == true
            },
    {
        Rule::Custom(
            CustomRule {
                name: String::from_str(name),
                always_matches: matches,
                suggestions,
                priority: 1000,
                requires_output: true,
                enabled_by_default: true,
            },
        )
    }
}

/// The rank of the i-th (0-based) proposal of a rule with base priority `p`:
/// `(i + 1) * p`, saturated to the `i32` range. A rule's later proposals rank
/// numerically worse, scaled by the rule's own priority.
pub open spec fn scaled_priority(i: int, p: int) -> int {
    let k: int = if i + 1 <= i32::MAX {
        i + 1
    } else {
        i32::MAX as int
    };
    let v = k * p;
    if v > i32::MAX {
        i32::MAX as int
    } else if v < i32::MIN {
        i32::MIN as int
    } else {
        v
    }
}

/// A correction strategy: one of the three built rule kinds, or a
/// caller-defined rule.
pub enum Rule {
    /// A literal-substitution rule.
    Simple(SimpleRule),
    /// A regex-capture rule.
    Regex(RegexRule),
    /// A fuzzy-similarity rule.
    Fuzzy(FuzzyRule),
    /// A caller-defined rule.
    Custom(CustomRule),
}

impl Rule {
    /// The rule's stable identifier.
    pub open spec fn spec_name(&self) -> Seq<char> {
        match self {
            Rule::Simple(r) => r.name@,
            Rule::Regex(r) => r.name@,
            Rule::Fuzzy(r) => r.name@,
            Rule::Custom(r) => r.name@,
        }
    }

    /// The rule's base priority.
    pub open spec fn spec_priority(&self) -> i32 {
        match self {
            Rule::Simple(r) => r.priority,
            Rule::Regex(r) => r.priority,
            Rule::Fuzzy(r) => r.priority,
            Rule::Custom(r) => r.priority,
        }
    }

    /// Whether the rule must only be evaluated on commands with output.
    pub open spec fn spec_requires_output(&self) -> bool {
        match self {
            Rule::Custom(r) => r.requires_output,
            _ => true,
        }
    }

    /// Whether the rule is enabled when no configuration says otherwise.
    pub open spec fn spec_enabled_by_default(&self) -> bool {
        match self {
            Rule::Custom(r) => r.enabled_by_default,
            _ => true,
        }
    }

    /// Whether the rule matches the command.
    pub open spec fn spec_matches(&self, cmd: Command) -> bool {
        match self {
            Rule::Simple(r) => r.spec_matches(cmd),
            Rule::Regex(r) => r.spec_matches(cmd),
            Rule::Fuzzy(r) => r.spec_matches(cmd),
            Rule::Custom(r) => r.always_matches,
        }
    }

    /// The scripts the rule proposes for a matching command, in the rule's
    /// own preference order.
    pub open spec fn spec_new_commands(&self, cmd: Command) -> Seq<Seq<char>> {
        match self {
            Rule::Simple(r) => r.spec_new_commands(cmd),
            Rule::Regex(r) => r.spec_new_commands(cmd),
            Rule::Fuzzy(r) => r.spec_new_commands(cmd),
            Rule::Custom(r) => string_views(r.suggestions@),
        }
    }

    /// The rule's proposals as ranked candidates: the i-th proposal gets
    /// priority `(i + 1) * priority()` and no side effect.
    pub open spec fn spec_corrected_commands(&self, cmd: Command) -> Seq<CandidateView> {
        Seq::new(
            self.spec_new_commands(cmd).len(),
            |i: int|
                CandidateView {
                    script: self.spec_new_commands(cmd)[i],
                    priority: scaled_priority(i, self.spec_priority() as int),
                    side_effect: None,
                },
        )
    }

    /// The rule's stable identifier.
    pub fn name(&self) -> (r: &str)
        ensures
            r@ == self.spec_name(),
    {
        match self {
            Rule::Simple(r) => r.name.as_str(),
            Rule::Regex(r) => r.name.as_str(),
            Rule::Fuzzy(r) => r.name.as_str(),
            Rule::Custom(r) => r.name.as_str(),
        }
    }

    /// The rule's base priority; numerically lower ranks first.
    pub fn priority(&self) -> (r: i32)
        ensures
            r == self.spec_priority(),
    {
        match self {
            Rule::Simple(r) => r.priority,
            Rule::Regex(r) => r.priority,
            Rule::Fuzzy(r) => r.priority,
            Rule::Custom(r) => r.priority,
        }
    }

    /// Whether the engine must skip this rule on commands without output.
    pub fn requires_output(&self) -> (r: bool)
        ensures
            r == self.spec_requires_output(),
    {
        match self {
            Rule::Custom(r) => r.requires_output,
            _ => true,
        }
    }

    /// Whether the rule is enabled when no configuration says otherwise.
    pub fn enabled_by_default(&self) -> (r: bool)
        ensures
            r == self.spec_enabled_by_default(),
    {
        match self {
            Rule::Custom(r) => r.enabled_by_default,
            _ => true,
        }
    }

    /// Whether the rule matches the command. Pure: neither the rule nor the
    /// command changes.
    pub fn matches(&self, command: &Command) -> (r: bool)
        ensures
            r == self.spec_matches(*command),
    {
        match self {
            Rule::Simple(r) => r.matches(command),
            Rule::Regex(r) => r.matches(command),
            Rule::Fuzzy(r) => r.matches(command),
            Rule::Custom(r) => r.always_matches,
        }
    }

    /// The scripts this rule proposes for the command.
    pub fn get_new_commands(&self, command: &Command) -> (r: Vec<String>)
        ensures
            string_views(r@) == self.spec_new_commands(*command),
    {
        match self {
            Rule::Simple(r) => r.get_new_commands(command),
            Rule::Regex(r) => r.get_new_commands(command),
            Rule::Fuzzy(r) => r.get_new_commands(command),
            Rule::Custom(r) => {
                let mut out: Vec<String> = Vec::new();
                let mut i: usize = 0;
                while i < r.suggestions.len()
                    invariant
                        i <= r.suggestions.len(),
                        out@ == r.suggestions@.take(i as int),
                    decreases r.suggestions.len() - i,
                {
                    out.push(r.suggestions[i].clone());
                    proof {
                        assert(out@ =~= r.suggestions@.take(i + 1));
                    }
                    i += 1;
                }
                proof {
                    assert(r.suggestions@.take(r.suggestions@.len() as int) =~= r.suggestions@);
                }
                out
            },
        }
    }

    /// The rule's ranked candidates for the command: the i-th proposed script
    /// becomes a candidate with priority `(i + 1) * priority()`, saturated to
    /// the `i32` range, and no side effect.
    pub fn get_corrected_commands(&self, command: &Command) -> (r: Vec<CorrectedCommand>)
        ensures
            candidate_views(r@) == self.spec_corrected_commands(*command),
    {
        let cmds = self.get_new_commands(command);
        let p = self.priority();
        let mut out: Vec<CorrectedCommand> = Vec::new();
        let mut i: usize = 0;
        while i < cmds.len()
            invariant
                i <= cmds.len(),
                string_views(cmds@) == self.spec_new_commands(*command),
                p == self.spec_priority(),
                candidate_views(out@) == self.spec_corrected_commands(*command).take(i as int),
            decreases cmds.len() - i,
        {
            let k: i32 = if i + 1 <= i32::MAX as usize {
                (i + 1) as i32
            } else {
                i32::MAX
            };
            proof {
                assert((k as int) * (p as int) <= 0x4000_0000_0000_0000 && (k as int) * (p as int)
                    >= -0x4000_0000_0000_0000) by (nonlinear_arith)
                    requires
                        -0x8000_0000 <= k as int <= 0x7fff_ffff,
                        -0x8000_0000 <= p as int <= 0x7fff_ffff,
                ;
            }
            let prod: i64 = (k as i64) * (p as i64);
            let scaled: i32 = if prod > i32::MAX as i64 {
                i32::MAX
            } else if prod < i32::MIN as i64 {
                i32::MIN
            } else {
                prod as i32
            };
            let script = cmds[i].clone();
            let ghost out_before = out@;
            out.push(CorrectedCommand { script, priority: scaled, side_effect: None });
            proof {
                let full = self.spec_corrected_commands(*command);
                let added = out@.last();
                assert(scaled as int == scaled_priority(i as int, p as int));
                assert(string_views(cmds@)[i as int] == cmds@[i as int]@);
                assert(added@ == full[i as int]);
                assert(candidate_views(out@) =~= candidate_views(out_before).push(added@));
                assert(full.take(i as int).push(full[i as int]) =~= full.take(i + 1));
                assert(candidate_views(out@) == full.take(i + 1));
            }
            i += 1;
        }
        proof {
            let full = self.spec_corrected_commands(*command);
            assert(full.take(full.len() as int) =~= full);
        }
        out
    }
}

} // verus!
