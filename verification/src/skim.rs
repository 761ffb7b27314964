//! Trusted boundary to the `fuzzy-matcher` crate: the subsequence-alignment
//! scorer used by the fuzzy rules and the standalone matcher utilities.

use vstd::prelude::*;

verus! {

/// The score that `SkimMatcherV2` in its default configuration assigns to
/// aligning `pattern` against `choice`; `None` when the pattern cannot be
/// aligned at all. Higher means more similar; there is no normalized upper
/// bound.
pub uninterp spec fn fuzzy_score_of(choice: Seq<char>, pattern: Seq<char>) -> Option<i64>;

/// Relies on `fuzzy_matcher::skim::SkimMatcherV2::fuzzy_match` with the
/// default configuration: the score is a function of the two texts alone, so
/// `fuzzy_score_of` names its outcome.
#[verifier::external_body]
pub fn fuzzy_score(choice: &str, pattern: &str) -> (r: Option<i64>)
    ensures
        r == fuzzy_score_of(choice@, pattern@),
{
    let matcher = fuzzy_matcher::skim::SkimMatcherV2::default();
    fuzzy_matcher::FuzzyMatcher::fuzzy_match(&matcher, choice, pattern)
}

} // verus!
