//! Trusted boundary to the `regex` crate: compiling a pattern, testing for a
//! match, and extracting the capture groups of the leftmost match.

use vstd::prelude::*;

verus! {

#[verifier::external_type_specification]
#[verifier::external_body]
pub struct ExRegex(regex::Regex);

/// Whether `regex::Regex::new` accepts `pattern`: valid syntax and within the
/// default size limit. Deterministic in the pattern text.
pub uninterp spec fn regex_accepts(pattern: Seq<char>) -> bool;

/// Whether the regular expression compiled from `pattern` matches anywhere in
/// `text`.
pub uninterp spec fn regex_matches(pattern: Seq<char>, text: Seq<char>) -> bool;

/// The capture groups of the leftmost match of `pattern` in `text`: entry 0
/// is the overall match, entry i the text of group i, `None` for a group that
/// did not participate. Only meaningful when the pattern matches.
pub uninterp spec fn regex_groups(pattern: Seq<char>, text: Seq<char>) -> Seq<Option<Seq<char>>>;

/// A compiled regular expression stored beside its source pattern. Values are
/// only built by `compile` below, which ties the two fields together; the
/// contracts of `is_match` and `captures` rest on that tie.
pub struct RegexPattern {
    pattern: String,
    compiled: regex::Regex,
}

impl RegexPattern {
    /// The source text this value was compiled from.
    pub closed spec fn pattern_view(&self) -> Seq<char> {
        self.pattern@
    }
}

/// Relies on `regex::Regex::new`: it succeeds exactly on the patterns that
/// `regex_accepts` names (the same pattern always gives the same outcome),
/// and the compiled value is stored beside the pattern it came from.
#[verifier::external_body]
pub fn compile(pattern: &str) -> (r: Option<RegexPattern>)
    ensures
        r is Some <==> regex_accepts(pattern@),
        r matches Some(rp) ==> rp.pattern_view() == pattern@,
{
    match regex::Regex::new(pattern) {
        Ok(compiled) => Some(RegexPattern { pattern: pattern.to_string(), compiled }),
        Err(_) => None,
    }
}

/// Relies on `regex::Regex::is_match`: true exactly when the pattern matches
/// somewhere in `text`; deterministic in the pattern and the text, which
/// `regex_matches` names.
#[verifier::external_body]
pub fn is_match(rp: &RegexPattern, text: &str) -> (r: bool)
    ensures
        r == regex_matches(rp.pattern_view(), text@),
{
    rp.compiled.is_match(text)
}

/// Relies on `regex::Regex::captures`: returns the groups of the leftmost
/// match, or `None` exactly when `is_match` would return false; group i is
/// `None` when it did not participate in the match. `regex_groups` names the
/// extracted texts.
#[verifier::external_body]
pub fn captures(rp: &RegexPattern, text: &str) -> (r: Option<Vec<Option<String>>>)
    ensures
        r is Some <==> regex_matches(rp.pattern_view(), text@),
        r matches Some(groups) ==> groups.deep_view() == regex_groups(rp.pattern_view(), text@),
{
    rp.compiled.captures(text).map(|caps| {
        (0..caps.len()).map(|i| caps.get(i).map(|m| m.as_str().to_string())).collect()
    })
}

} // verus!
