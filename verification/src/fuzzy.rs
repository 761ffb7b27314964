//! Approximate-match utilities: a standalone scorer over candidate lists,
//! and selection helpers over ranked corrections.

use crate::corrector::sort_ranked;
use crate::skim::fuzzy_score;
use crate::skim::fuzzy_score_of;
use crate::text::string_views;
use crate::types::candidate_views;
use crate::types::CorrectedCommand;
use vstd::prelude::*;

verus! {

/// The views of a sequence of (text, score) pairs.
pub open spec fn pair_views(s: Seq<(String, i64)>) -> Seq<(Seq<char>, i64)> {
    s.map_values(|p: (String, i64)| (p.0@, p.1))
}

/// The best-scoring candidate for `query`, scanning left to right; among
/// equal scores the later candidate wins. `None` when no candidate aligns.
pub open spec fn best_match_spec(candidates: Seq<Seq<char>>, query: Seq<char>) -> Option<
    (Seq<char>, i64),
>
    decreases candidates.len(),
{
    if candidates.len() == 0 {
        None
    } else {
        let prev = best_match_spec(candidates.drop_last(), query);
        match fuzzy_score_of(candidates.last(), query) {
            Some(score) => match prev {
                Some(b) => if score >= b.1 {
                    Some((candidates.last(), score))
                } else {
                    Some(b)
                },
                None => Some((candidates.last(), score)),
            },
            None => prev,
        }
    }
}

/// The candidates that align with `query` at a score of at least
/// `min_score`, in input order, each with its score.
pub open spec fn matching_spec(
    candidates: Seq<Seq<char>>,
    query: Seq<char>,
    min_score: i64,
) -> Seq<(Seq<char>, i64)>
    decreases candidates.len(),
{
    if candidates.len() == 0 {
        Seq::<(Seq<char>, i64)>::empty()
    } else {
        let rest = matching_spec(candidates.drop_first(), query, min_score);
        match fuzzy_score_of(candidates[0], query) {
            Some(score) => if score >= min_score {
                seq![(candidates[0], score)] + rest
            } else {
                rest
            },
            None => rest,
        }
    }
}

/// Stable insertion of `c` into `s` for the descending order: `c` goes after
/// every element whose score is at least its own.
pub open spec fn insert_scored(c: (Seq<char>, i64), s: Seq<(Seq<char>, i64)>) -> Seq<
    (Seq<char>, i64),
>
    decreases s.len(),
{
    if s.len() == 0 {
        seq![c]
    } else if s[0].1 >= c.1 {
        seq![s[0]] + insert_scored(c, s.drop_first())
    } else {
        seq![c] + s
    }
}

/// Stable sort by descending score: elements are inserted left to right, so
/// ties keep the order in which they appeared.
pub open spec fn sort_scored(s: Seq<(Seq<char>, i64)>) -> Seq<(Seq<char>, i64)>
    decreases s.len(),
{
    if s.len() == 0 {
        Seq::<(Seq<char>, i64)>::empty()
    } else {
        insert_scored(s.last(), sort_scored(s.drop_last()))
    }
}

/// `insert_scored` splits `s` at the scan position: before the first element
/// with a strictly smaller score.
proof fn lemma_insert_scored_at(c: (Seq<char>, i64), s: Seq<(Seq<char>, i64)>, j: int)
    requires
        0 <= j <= s.len(),
        forall|k: int| 0 <= k < j ==> s[k].1 >= c.1,
        j < s.len() ==> s[j].1 < c.1,
    ensures
        insert_scored(c, s) == s.take(j) + seq![c] + s.skip(j),
    decreases j,
{
    if j == 0 {
        if s.len() == 0 {
            assert(s.take(0) + seq![c] + s.skip(0) =~= seq![c]);
        } else {
            assert(s.take(0) + seq![c] + s.skip(0) =~= seq![c] + s);
        }
    } else {
        lemma_insert_scored_at(c, s.drop_first(), j - 1);
        assert(s.drop_first().take(j - 1) =~= s.take(j).drop_first());
        assert(s.drop_first().skip(j - 1) =~= s.skip(j));
        assert(seq![s[0]] + (s.drop_first().take(j - 1) + seq![c] + s.drop_first().skip(j - 1))
            =~= s.take(j) + seq![c] + s.skip(j));
    }
}

/// A fuzzy matcher over lists of candidate strings.
pub struct FuzzyMatcher {}

impl FuzzyMatcher {
    /// Builds a matcher.
    pub fn new() -> (r: FuzzyMatcher) {
        FuzzyMatcher {}
    }

    /// The best-scoring candidate for `query`, with its score; `None` when no
    /// candidate aligns.
    pub fn find_best_match(&self, query: &str, candidates: &Vec<String>) -> (r: Option<
        (String, i64),
    >)
        ensures
            match r {
                Some(p) => best_match_spec(string_views(candidates@), query@) matches Some(b)
                    && p.0@ == b.0 && p.1 == b.1,
                None => best_match_spec(string_views(candidates@), query@) is None,
            },
    {
        let ghost all = string_views(candidates@);
        let mut best: Option<(String, i64)> = None;
        let mut i: usize = 0;
        proof {
            assert(all.take(0) =~= Seq::<Seq<char>>::empty());
        }
        while i < candidates.len()
            invariant
                i <= candidates@.len(),
                all == string_views(candidates@),
                match best {
                    Some(p) => best_match_spec(all.take(i as int), query@) matches Some(b) && p.0@
                        == b.0 && p.1 == b.1,
                    None => best_match_spec(all.take(i as int), query@) is None,
                },
            decreases candidates@.len() - i,
        {
            let candidate = &candidates[i];
            proof {
                assert(all[i as int] == candidates@[i as int]@);
                assert(all.take(i + 1).drop_last() =~= all.take(i as int));
                assert(all.take(i + 1).last() == all[i as int]);
            }
            match fuzzy_score(candidate.as_str(), query) {
                Some(score) => {
                    let replace = match &best {
                        Some(p) => score >= p.1,
                        None => true,
                    };
                    if replace {
                        best = Some((candidate.clone(), score));
                    }
                },
                None => {},
            }
            i += 1;
        }
        proof {
            assert(all.take(candidates@.len() as int) =~= all);
        }
        best
    }

    /// Every candidate scoring at least `min_score` against `query`, with its
    /// score, sorted by descending score (stable for ties).
    pub fn find_all_matches(&self, query: &str, candidates: &Vec<String>, min_score: i64) -> (r:
        Vec<(String, i64)>)
        ensures
            pair_views(r@) == sort_scored(matching_spec(string_views(candidates@), query@, min_score)),
    {
        let ghost all = string_views(candidates@);
        let mut found: Vec<(String, i64)> = Vec::new();
        let mut i: usize = 0;
        proof {
            assert(pair_views(found@) =~= matching_spec(all.skip(0), query@, min_score).take(0));
            assert(all.skip(0) =~= all);
            assert(pair_views(found@) + matching_spec(all.skip(0), query@, min_score)
                =~= matching_spec(all, query@, min_score));
        }
        while i < candidates.len()
            invariant
                i <= candidates@.len(),
                all == string_views(candidates@),
                pair_views(found@) + matching_spec(all.skip(i as int), query@, min_score)
                    == matching_spec(all, query@, min_score),
            decreases candidates@.len() - i,
        {
            let candidate = &candidates[i];
            let ghost found_before = found@;
            proof {
                assert(all[i as int] == candidates@[i as int]@);
                assert(all.skip(i as int)[0] == all[i as int]);
                assert(all.skip(i as int).drop_first() =~= all.skip(i + 1));
            }
            match fuzzy_score(candidate.as_str(), query) {
                Some(score) => {
                    if score >= min_score {
                        found.push((candidate.clone(), score));
                        proof {
                            assert(pair_views(found@) =~= pair_views(found_before) + seq![
                                (all[i as int], score),
                            ]);
                            assert(pair_views(found@) + matching_spec(
                                all.skip(i + 1),
                                query@,
                                min_score,
                            ) =~= pair_views(found_before) + matching_spec(
                                all.skip(i as int),
                                query@,
                                min_score,
                            ));
                        }
                    }
                },
                None => {},
            }
            i += 1;
        }
        proof {
            assert(all.skip(candidates@.len() as int) =~= Seq::<Seq<char>>::empty());
            assert(pair_views(found@) =~= pair_views(found@) + matching_spec(
                all.skip(candidates@.len() as int),
                query@,
                min_score,
            ));
        }
        sort_matches(found)
    }
}

impl Default for FuzzyMatcher {
    /// The same matcher `new` builds.
    fn default() -> (r: FuzzyMatcher) {
        FuzzyMatcher::new()
    }
}

/// Sorts (text, score) pairs by descending score, stably.
fn sort_matches(input: Vec<(String, i64)>) -> (r: Vec<(String, i64)>)
    ensures
        pair_views(r@) == sort_scored(pair_views(input@)),
{
    let ghost all = pair_views(input@);
    let mut rest = input;
    let n = rest.len();
    let mut out: Vec<(String, i64)> = Vec::new();
    let mut k: usize = 0;
    proof {
        assert(pair_views(rest@) =~= all.skip(0));
        assert(pair_views(out@) =~= sort_scored(all.take(0)));
    }
    while k < n
        invariant
            k <= n,
            n == all.len(),
            rest@.len() == n - k,
            pair_views(rest@) == all.skip(k as int),
            pair_views(out@) == sort_scored(all.take(k as int)),
            out@.len() == k,
        decreases n - k,
    {
        let ghost rest_before = rest@;
        let ghost out_before = out@;
        let c = rest.remove(0);
        proof {
            assert(pair_views(rest_before)[0] == (c.0@, c.1));
            assert((c.0@, c.1) == all[k as int]);
            assert(pair_views(rest@) =~= pair_views(rest_before).drop_first());
            assert(pair_views(rest@) =~= all.skip(k + 1));
        }
        let mut j: usize = 0;
        while j < out.len() && out[j].1 >= c.1
            invariant
                j <= out.len(),
                out@ == out_before,
                forall|m: int| 0 <= m < j ==> pair_views(out@)[m].1 >= c.1,
            decreases out.len() - j,
        {
            proof {
                assert(pair_views(out@)[j as int] == (out@[j as int].0@, out@[j as int].1));
            }
            j += 1;
        }
        proof {
            assert(j < out@.len() ==> pair_views(out@)[j as int].1 < c.1) by {
                if j < out@.len() {
                    assert(pair_views(out@)[j as int] == (out@[j as int].0@, out@[j as int].1));
                }
            }
            lemma_insert_scored_at((c.0@, c.1), pair_views(out_before), j as int);
        }
        out.insert(j, c);
        proof {
            let sv = pair_views(out_before);
            assert(out@ == out_before.insert(j as int, c));
            assert(pair_views(out@) =~= sv.take(j as int) + seq![(c.0@, c.1)] + sv.skip(j as int));
            assert(pair_views(out@) == insert_scored((c.0@, c.1), sv));
            assert(all.take(k + 1).drop_last() =~= all.take(k as int));
            assert(all.take(k + 1).last() == all[k as int]);
            assert(sort_scored(all.take(k + 1)) == insert_scored(
                all[k as int],
                sort_scored(all.take(k as int)),
            ));
        }
        k += 1;
    }
    proof {
        assert(all.take(n as int) =~= all);
    }
    out
}

/// Sorts corrections by ascending priority (stable for ties) and keeps at
/// most `limit` of them when a limit is given.
pub fn select_corrections(corrections: Vec<CorrectedCommand>, limit: Option<usize>) -> (r: Vec<
    CorrectedCommand,
>)
    ensures
        candidate_views(r@) == match limit {
            Some(n) => sort_ranked(candidate_views(corrections@)).take(
                if n <= corrections@.len() {
                    n as int
                } else {
                    corrections@.len() as int
                },
            ),
            None => sort_ranked(candidate_views(corrections@)),
        },
{
    let ghost all = candidate_views(corrections@);
    let mut sorted = crate::corrector::sort_candidates(corrections);
    proof {
        crate::corrector::lemma_sort_ranked_len(all);
    }
    match limit {
        Some(n) => {
            sorted.truncate(n);
            proof {
                let full = sort_ranked(all);
                if n <= full.len() {
                    assert(candidate_views(sorted@) =~= full.take(n as int));
                } else {
                    assert(sorted@.len() == full.len());
                    assert(candidate_views(sorted@) =~= full.take(full.len() as int));
                    assert(full.take(full.len() as int) =~= full);
                }
            }
        },
        None => {},
    }
    sorted
}

/// The best approximate match for `query` among candidate paths, if any.
pub fn fuzzy_find_path(query: &str, candidates: &Vec<String>) -> (r: Option<String>)
    ensures
        match r {
            Some(p) => best_match_spec(string_views(candidates@), query@) matches Some(b) && p@
                == b.0,
            None => best_match_spec(string_views(candidates@), query@) is None,
        },
{
    let matcher = FuzzyMatcher::new();
    match matcher.find_best_match(query, candidates) {
        Some(pair) => Some(pair.0),
        None => None,
    }
}

/// The candidates scoring at least `min_score` against `query`, best first.
pub fn filter_by_fuzzy_match(query: &str, candidates: &Vec<String>, min_score: i64) -> (r: Vec<
    String,
>)
    ensures
        string_views(r@) == sort_scored(
            matching_spec(string_views(candidates@), query@, min_score),
        ).map_values(|p: (Seq<char>, i64)| p.0),
{
    let matcher = FuzzyMatcher::new();
    let scored = matcher.find_all_matches(query, candidates, min_score);
    let mut out: Vec<String> = Vec::new();
    let ghost pairs = pair_views(scored@);
    let mut i: usize = 0;
    while i < scored.len()
        invariant
            i <= scored@.len(),
            pairs == pair_views(scored@),
            string_views(out@) == pairs.map_values(|p: (Seq<char>, i64)| p.0).take(i as int),
        decreases scored@.len() - i,
    {
        let ghost out_before = out@;
        out.push(scored[i].0.clone());
        proof {
            let mapped = pairs.map_values(|p: (Seq<char>, i64)| p.0);
            assert(pairs[i as int] == (scored@[i as int].0@, scored@[i as int].1));
            assert(out@.last()@ == mapped[i as int]);
            assert(string_views(out@) =~= string_views(out_before).push(out@.last()@));
            assert(mapped.take(i as int).push(mapped[i as int]) =~= mapped.take(i + 1));
            assert(string_views(out@) == mapped.take(i + 1));
        }
        i += 1;
    }
    proof {
        let mapped = pairs.map_values(|p: (Seq<char>, i64)| p.0);
        assert(mapped.take(scored@.len() as int) =~= mapped);
    }
    out
}

} // verus!
