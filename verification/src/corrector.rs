//! The evaluation pipeline: run every applicable rule, merge the proposals,
//! sort them by priority, drop duplicate candidates, and return the ranked
//! list. Rule evaluation may run on parallel workers; the explicit sort makes
//! the result independent of scheduling.

use crate::rules::enabled_only;
use crate::rules::RuleRegistry;
use crate::types::candidate_views;
use crate::types::same_candidate;
use crate::types::CandidateView;
use crate::types::Command;
use crate::types::CorrectedCommand;
use crate::types::Rule;
use rayon::iter::IntoParallelRefIterator;
use rayon::iter::ParallelIterator;
use vstd::prelude::*;

verus! {

/// Priorities never decrease along the sequence.
pub open spec fn sorted_by_priority(s: Seq<CandidateView>) -> bool {
    forall|i: int, j: int| 0 <= i < j < s.len() ==> s[i].priority <= s[j].priority
}

/// Stable insertion of `c` into `s`: `c` goes after every element whose
/// priority is less than or equal to its own.
pub open spec fn insert_ranked(c: CandidateView, s: Seq<CandidateView>) -> Seq<CandidateView>
    decreases s.len(),
{
    if s.len() == 0 {
        seq![c]
    } else if s[0].priority <= c.priority {
        seq![s[0]] + insert_ranked(c, s.drop_first())
    } else {
        seq![c] + s
    }
}

/// Stable sort by ascending priority: elements are inserted left to right, so
/// ties keep the order in which they were produced.
pub open spec fn sort_ranked(s: Seq<CandidateView>) -> Seq<CandidateView>
    decreases s.len(),
{
    if s.len() == 0 {
        Seq::<CandidateView>::empty()
    } else {
        insert_ranked(s.last(), sort_ranked(s.drop_last()))
    }
}

/// What remains of `s` after removing each element that is the same candidate
/// as the last one kept (`prev` to start with).
pub open spec fn dedup_from(prev: CandidateView, s: Seq<CandidateView>) -> Seq<CandidateView>
    decreases s.len(),
{
    if s.len() == 0 {
        Seq::<CandidateView>::empty()
    } else if same_candidate(s[0], prev) {
        dedup_from(prev, s.drop_first())
    } else {
        seq![s[0]] + dedup_from(s[0], s.drop_first())
    }
}

/// Removes consecutive duplicate candidates, keeping the first of each run;
/// on a sorted sequence the survivor is the one with the smallest priority.
pub open spec fn dedup_ranked(s: Seq<CandidateView>) -> Seq<CandidateView> {
    if s.len() == 0 {
        Seq::<CandidateView>::empty()
    } else {
        seq![s[0]] + dedup_from(s[0], s.drop_first())
    }
}

/// What one rule contributes: nothing when the rule requires output and the
/// command has none (checked before `matches` is ever consulted), nothing
/// when it does not match, and its ranked candidates otherwise.
pub open spec fn rule_contributions(rule: Rule, cmd: Command) -> Seq<CandidateView> {
    if rule.spec_requires_output() && cmd.output@.len() == 0 {
        Seq::<CandidateView>::empty()
    } else if !rule.spec_matches(cmd) {
        Seq::<CandidateView>::empty()
    } else {
        rule.spec_corrected_commands(cmd)
    }
}

/// The contributions of every rule, flattened in registry order.
pub open spec fn all_contributions(rules: Seq<Rule>, cmd: Command) -> Seq<CandidateView>
    decreases rules.len(),
{
    if rules.len() == 0 {
        Seq::<CandidateView>::empty()
    } else {
        rule_contributions(rules[0], cmd) + all_contributions(rules.drop_first(), cmd)
    }
}

/// The full evaluation result: merged contributions, sorted by priority, with
/// consecutive duplicate candidates removed. A function of the registry and
/// the command alone: re-running evaluation always yields this sequence.
pub open spec fn corrections_spec(rules: Seq<Rule>, cmd: Command) -> Seq<CandidateView> {
    dedup_ranked(sort_ranked(all_contributions(rules, cmd)))
}

/// Evaluates one rule under the engine's output gate.
pub fn evaluate_rule(rule: &Rule, command: &Command) -> (r: Vec<CorrectedCommand>)
    ensures
        candidate_views(r@) == rule_contributions(*rule, *command),
{
    if rule.requires_output() && command.output.as_str().is_empty() {
        let r: Vec<CorrectedCommand> = Vec::new();
        proof {
            assert(candidate_views(r@) =~= rule_contributions(*rule, *command));
        }
        r
    } else if !rule.matches(command) {
        let r: Vec<CorrectedCommand> = Vec::new();
        proof {
            assert(candidate_views(r@) =~= rule_contributions(*rule, *command));
        }
        r
    } else {
        rule.get_corrected_commands(command)
    }
}

/// Relies on rayon's `par_iter`, `flat_map_iter` and `collect`: collecting a
/// parallel iterator into a vector yields the same elements in the same order
/// as the sequential iterator chain would, whatever the scheduling. So the
/// result is the in-order concatenation of each rule's contributions.
#[verifier::external_body]
fn evaluate_rules_parallel(rules: &Vec<Rule>, command: &Command) -> (r: Vec<CorrectedCommand>)
    ensures
        candidate_views(r@) == all_contributions(rules@, *command),
{
    rules.par_iter().flat_map_iter(|rule| evaluate_rule(rule, command)).collect()
}

/// `insert_ranked` splits `s` at the scan position: before the first element
/// with a strictly greater priority.
proof fn lemma_insert_ranked_at(c: CandidateView, s: Seq<CandidateView>, j: int)
    requires
        0 <= j <= s.len(),
        forall|k: int| 0 <= k < j ==> s[k].priority <= c.priority,
        j < s.len() ==> s[j].priority > c.priority,
    ensures
        insert_ranked(c, s) == s.take(j) + seq![c] + s.skip(j),
    decreases j,
{
    if j == 0 {
        if s.len() == 0 {
            assert(s.take(0) + seq![c] + s.skip(0) =~= seq![c]);
        } else {
            assert(s[0].priority > c.priority);
            assert(s.take(0) + seq![c] + s.skip(0) =~= seq![c] + s);
        }
    } else {
        assert(s.len() > 0);
        assert(s[0].priority <= c.priority);
        lemma_insert_ranked_at(c, s.drop_first(), j - 1);
        assert(s.drop_first().take(j - 1) =~= s.take(j).drop_first());
        assert(s.drop_first().skip(j - 1) =~= s.skip(j));
        assert(seq![s[0]] + (s.drop_first().take(j - 1) + seq![c] + s.drop_first().skip(j - 1))
            =~= s.take(j) + seq![c] + s.skip(j));
    }
}

/// Inserting into a sorted sequence keeps it sorted, adds one element, and
/// every element of the result is the inserted one or one of the old ones.
proof fn lemma_insert_ranked_props(c: CandidateView, s: Seq<CandidateView>)
    requires
        sorted_by_priority(s),
    ensures
        sorted_by_priority(insert_ranked(c, s)),
        insert_ranked(c, s).len() == s.len() + 1,
        forall|k: int|
            0 <= k < s.len() + 1 ==> (#[trigger] insert_ranked(c, s)[k] == c || exists|m: int|
                0 <= m < s.len() && insert_ranked(c, s)[k] == s[m]),
    decreases s.len(),
{
    let r = insert_ranked(c, s);
    if s.len() == 0 {
    } else if s[0].priority <= c.priority {
        let tail = s.drop_first();
        assert(sorted_by_priority(tail)) by {
            assert(forall|i: int, j: int|
                0 <= i < j < tail.len() ==> tail[i] == s[i + 1] && tail[j] == s[j + 1]);
        }
        lemma_insert_ranked_props(c, tail);
        let rt = insert_ranked(c, tail);
        assert(r == seq![s[0]] + rt);
        assert forall|k: int| 0 <= k < s.len() + 1 implies (#[trigger] r[k] == c || exists|m: int|
            0 <= m < s.len() && r[k] == s[m]) by {
            if k == 0 {
                assert(r[0] == s[0]);
                assert(exists|m: int| 0 <= m < s.len() && r[0] == s[m]) by {
                    assert(r[0] == s[0]);
                }
            } else {
                assert(r[k] == rt[k - 1]);
                if rt[k - 1] == c {
                } else {
                    let m = choose|m: int| 0 <= m < tail.len() && rt[k - 1] == tail[m];
                    assert(tail[m] == s[m + 1]);
                    assert(exists|mm: int| 0 <= mm < s.len() && r[k] == s[mm]) by {
                        assert(r[k] == s[m + 1]);
                    }
                }
            }
        }
        assert forall|i: int, j: int| 0 <= i < j < r.len() implies r[i].priority
            <= r[j].priority by {
            if i == 0 {
                assert(r[0] == s[0]);
                assert(r[j] == rt[j - 1]);
                if rt[j - 1] == c {
                } else {
                    let m = choose|m: int| 0 <= m < tail.len() && rt[j - 1] == tail[m];
                    assert(tail[m] == s[m + 1]);
                }
            } else {
                assert(r[i] == rt[i - 1] && r[j] == rt[j - 1]);
            }
        }
    } else {
        assert(r == seq![c] + s);
        assert forall|k: int| 0 <= k < s.len() + 1 implies (#[trigger] r[k] == c || exists|m: int|
            0 <= m < s.len() && r[k] == s[m]) by {
            if k > 0 {
                assert(exists|m: int| 0 <= m < s.len() && r[k] == s[m]) by {
                    assert(r[k] == s[k - 1]);
                }
            }
        }
    }
}

/// The stable sort is sorted, keeps the length, and every element of the
/// result is an element of the input.
proof fn lemma_sort_ranked_props(s: Seq<CandidateView>)
    ensures
        sorted_by_priority(sort_ranked(s)),
        sort_ranked(s).len() == s.len(),
        forall|k: int|
            0 <= k < s.len() ==> exists|m: int| 0 <= m < s.len() && #[trigger] sort_ranked(s)[k]
                == s[m],
    decreases s.len(),
{
    let r = sort_ranked(s);
    if s.len() == 0 {
    } else {
        let pre = s.drop_last();
        lemma_sort_ranked_props(pre);
        lemma_insert_ranked_props(s.last(), sort_ranked(pre));
        assert forall|k: int| 0 <= k < s.len() implies exists|m: int| 0 <= m < s.len()
            && #[trigger] r[k] == s[m] by {
            if r[k] == s.last() {
                assert(exists|m: int| 0 <= m < s.len() && r[k] == s[m]) by {
                    assert(r[k] == s[s.len() - 1]);
                }
            } else {
                let m0 = choose|m0: int|
                    0 <= m0 < sort_ranked(pre).len() && r[k] == sort_ranked(pre)[m0];
                let m1 = choose|m1: int| 0 <= m1 < pre.len() && sort_ranked(pre)[m0] == pre[m1];
                assert(pre[m1] == s[m1]);
                assert(exists|m: int| 0 <= m < s.len() && r[k] == s[m]) by {
                    assert(r[k] == s[m1]);
                }
            }
        }
    }
}

/// Removing consecutive duplicates from a sorted run above `prev` yields a
/// sorted sequence of elements of the input whose head differs from `prev`,
/// with no two neighbours the same candidate.
proof fn lemma_dedup_from_props(prev: CandidateView, s: Seq<CandidateView>)
    requires
        sorted_by_priority(s),
        forall|k: int| 0 <= k < s.len() ==> prev.priority <= #[trigger] s[k].priority,
    ensures
        sorted_by_priority(dedup_from(prev, s)),
        forall|k: int|
            0 <= k < dedup_from(prev, s).len() ==> prev.priority <= #[trigger] dedup_from(
                prev,
                s,
            )[k].priority,
        dedup_from(prev, s).len() > 0 ==> !same_candidate(dedup_from(prev, s)[0], prev),
        forall|k: int|
            0 <= k < dedup_from(prev, s).len() - 1 ==> !same_candidate(
                #[trigger] dedup_from(prev, s)[k],
                dedup_from(prev, s)[k + 1],
            ),
        forall|k: int|
            0 <= k < dedup_from(prev, s).len() ==> exists|m: int| 0 <= m < s.len()
                && #[trigger] dedup_from(prev, s)[k] == s[m],
    decreases s.len(),
{
    let r = dedup_from(prev, s);
    if s.len() == 0 {
    } else {
        let tail = s.drop_first();
        assert(sorted_by_priority(tail)) by {
            assert(forall|i: int, j: int|
                0 <= i < j < tail.len() ==> tail[i] == s[i + 1] && tail[j] == s[j + 1]);
        }
        assert(forall|k: int| 0 <= k < tail.len() ==> #[trigger] tail[k] == s[k + 1]);
        if same_candidate(s[0], prev) {
            lemma_dedup_from_props(prev, tail);
            assert(r == dedup_from(prev, tail));
            assert forall|k: int| 0 <= k < r.len() implies exists|m: int| 0 <= m < s.len()
                && #[trigger] r[k] == s[m] by {
                let m = choose|m: int| 0 <= m < tail.len() && r[k] == tail[m];
                assert(exists|mm: int| 0 <= mm < s.len() && r[k] == s[mm]) by {
                    assert(r[k] == s[m + 1]);
                }
            }
        } else {
            lemma_dedup_from_props(s[0], tail);
            let rt = dedup_from(s[0], tail);
            assert(r == seq![s[0]] + rt);
            assert(forall|k: int| 0 <= k < rt.len() ==> #[trigger] rt[k] == r[k + 1]);
            assert forall|i: int, j: int| 0 <= i < j < r.len() implies r[i].priority
                <= r[j].priority by {
                if i > 0 {
                    assert(r[i] == rt[i - 1] && r[j] == rt[j - 1]);
                } else {
                    assert(r[j] == rt[j - 1]);
                }
            }
            assert forall|k: int| 0 <= k < r.len() - 1 implies !same_candidate(
                #[trigger] r[k],
                r[k + 1],
            ) by {
                if k == 0 {
                    if rt.len() > 0 {
                        assert(r[1] == rt[0]);
                        assert(!same_candidate(rt[0], s[0]));
                        assert(!same_candidate(s[0], rt[0])) by {
                            assert(same_candidate(s[0], rt[0]) ==> same_candidate(rt[0], s[0]));
                        }
                    }
                } else {
                    assert(r[k] == rt[k - 1] && r[k + 1] == rt[k]);
                }
            }
            assert forall|k: int| 0 <= k < r.len() implies exists|m: int| 0 <= m < s.len()
                && #[trigger] r[k] == s[m] by {
                if k == 0 {
                    assert(exists|m: int| 0 <= m < s.len() && r[0] == s[m]) by {
                        assert(r[0] == s[0]);
                    }
                } else {
                    let m = choose|m: int| 0 <= m < tail.len() && rt[k - 1] == tail[m];
                    assert(exists|mm: int| 0 <= mm < s.len() && r[k] == s[mm]) by {
                        assert(r[k] == s[m + 1]);
                    }
                }
            }
        }
    }
}

/// `dedup_ranked` on a sorted sequence: sorted, no two neighbours the same
/// candidate, and every element taken from the input.
proof fn lemma_dedup_ranked_props(s: Seq<CandidateView>)
    requires
        sorted_by_priority(s),
    ensures
        sorted_by_priority(dedup_ranked(s)),
        forall|k: int|
            0 <= k < dedup_ranked(s).len() - 1 ==> !same_candidate(
                #[trigger] dedup_ranked(s)[k],
                dedup_ranked(s)[k + 1],
            ),
        forall|k: int|
            0 <= k < dedup_ranked(s).len() ==> exists|m: int| 0 <= m < s.len()
                && #[trigger] dedup_ranked(s)[k] == s[m],
    decreases s.len(),
{
    let r = dedup_ranked(s);
    if s.len() == 0 {
    } else {
        let tail = s.drop_first();
        assert(sorted_by_priority(tail)) by {
            assert(forall|i: int, j: int|
                0 <= i < j < tail.len() ==> tail[i] == s[i + 1] && tail[j] == s[j + 1]);
        }
        assert(forall|k: int| 0 <= k < tail.len() ==> #[trigger] tail[k] == s[k + 1]);
        lemma_dedup_from_props(s[0], tail);
        let rt = dedup_from(s[0], tail);
        assert(r == seq![s[0]] + rt);
        assert(forall|k: int| 0 <= k < rt.len() ==> #[trigger] rt[k] == r[k + 1]);
        assert forall|i: int, j: int| 0 <= i < j < r.len() implies r[i].priority
            <= r[j].priority by {
            if i > 0 {
                assert(r[i] == rt[i - 1] && r[j] == rt[j - 1]);
            } else {
                assert(r[j] == rt[j - 1]);
            }
        }
        assert forall|k: int| 0 <= k < r.len() - 1 implies !same_candidate(
            #[trigger] r[k],
            r[k + 1],
        ) by {
            if k == 0 {
                assert(r[1] == rt[0]);
                assert(!same_candidate(rt[0], s[0]));
                assert(!same_candidate(s[0], rt[0])) by {
                    assert(same_candidate(s[0], rt[0]) ==> same_candidate(rt[0], s[0]));
                }
            } else {
                assert(r[k] == rt[k - 1] && r[k + 1] == rt[k]);
            }
        }
        assert forall|k: int| 0 <= k < r.len() implies exists|m: int| 0 <= m < s.len()
            && #[trigger] r[k] == s[m] by {
            if k == 0 {
                assert(exists|m: int| 0 <= m < s.len() && r[0] == s[m]) by {
                    assert(r[0] == s[0]);
                }
            } else {
                let m = choose|m: int| 0 <= m < tail.len() && rt[k - 1] == tail[m];
                assert(exists|mm: int| 0 <= mm < s.len() && r[k] == s[mm]) by {
                    assert(r[k] == s[m + 1]);
                }
            }
        }
    }
}

/// The evaluation result is sorted by ascending priority, and no two
/// neighbouring candidates are the same.
pub proof fn lemma_corrections_sorted(rules: Seq<Rule>, cmd: Command)
    ensures
        sorted_by_priority(corrections_spec(rules, cmd)),
        forall|k: int|
            0 <= k < corrections_spec(rules, cmd).len() - 1 ==> !same_candidate(
                #[trigger] corrections_spec(rules, cmd)[k],
                corrections_spec(rules, cmd)[k + 1],
            ),
{
    lemma_sort_ranked_props(all_contributions(rules, cmd));
    lemma_dedup_ranked_props(sort_ranked(all_contributions(rules, cmd)));
}

/// Deduplication leaves no duplicate candidates at all, provided that in the
/// merged contributions two proposals are the same candidate exactly when
/// they carry the same priority. (Without that tie the engine only removes
/// neighbouring duplicates: equal candidates of different priorities can be
/// separated by an unrelated one and both survive.)
pub proof fn lemma_corrections_no_duplicates(rules: Seq<Rule>, cmd: Command)
    requires
        forall|a: CandidateView, b: CandidateView|
            all_contributions(rules, cmd).contains(a) && all_contributions(rules, cmd).contains(b)
                ==> (#[trigger] same_candidate(a, b) <==> a.priority == b.priority),
    ensures
        forall|i: int, j: int|
            0 <= i < j < corrections_spec(rules, cmd).len() ==> !same_candidate(
                #[trigger] corrections_spec(rules, cmd)[i],
                #[trigger] corrections_spec(rules, cmd)[j],
            ),
{
    let merged = all_contributions(rules, cmd);
    let sorted = sort_ranked(merged);
    let r = corrections_spec(rules, cmd);
    lemma_sort_ranked_props(merged);
    lemma_dedup_ranked_props(sorted);
    assert forall|k: int| 0 <= k < r.len() implies merged.contains(#[trigger] r[k]) by {
        let m = choose|m: int| 0 <= m < sorted.len() && r[k] == sorted[m];
        let m2 = choose|m2: int| 0 <= m2 < merged.len() && sorted[m] == merged[m2];
        assert(merged[m2] == r[k]);
    }
    assert forall|i: int, j: int| 0 <= i < j < r.len() implies !same_candidate(
        #[trigger] r[i],
        #[trigger] r[j],
    ) by {
        assert(merged.contains(r[i]) && merged.contains(r[i + 1]) && merged.contains(r[j]));
        assert(!same_candidate(r[i], r[i + 1]));
        assert(r[i].priority != r[i + 1].priority);
        assert(r[i].priority <= r[i + 1].priority);
        assert(r[i + 1].priority <= r[j].priority || i + 1 == j);
        assert(r[i].priority < r[j].priority);
    }
}

/// For a command with empty output, a rule that requires output contributes
/// nothing, whatever its `matches` would say.
pub proof fn lemma_output_gate(rule: Rule, cmd: Command)
    requires
        rule.spec_requires_output(),
        cmd.output@.len() == 0,
    ensures
        rule_contributions(rule, cmd) == Seq::<CandidateView>::empty(),
{
}

/// For a command with empty output, a registry of rules that all require
/// output yields an empty result.
pub proof fn lemma_output_gates_all(rules: Seq<Rule>, cmd: Command)
    requires
        cmd.output@.len() == 0,
        forall|k: int| 0 <= k < rules.len() ==> (#[trigger] rules[k]).spec_requires_output(),
    ensures
        corrections_spec(rules, cmd) == Seq::<CandidateView>::empty(),
    decreases rules.len(),
{
    if rules.len() == 0 {
    } else {
        let tail = rules.drop_first();
        assert(forall|k: int| 0 <= k < tail.len() ==> #[trigger] tail[k] == rules[k + 1]);
        lemma_output_gates_all(tail, cmd);
        assert(all_contributions(rules, cmd) =~= all_contributions(tail, cmd));
    }
}

/// Evaluation is deterministic: any two results of the evaluation spec for
/// the same registry and command are the same sequence, whatever scheduling
/// produced them.
pub proof fn lemma_corrections_deterministic(
    rules: Seq<Rule>,
    cmd: Command,
    r1: Seq<CandidateView>,
    r2: Seq<CandidateView>,
)
    requires
        r1 == corrections_spec(rules, cmd),
        r2 == corrections_spec(rules, cmd),
    ensures
        r1 == r2,
{
}

/// The stable sort keeps the length.
pub(crate) proof fn lemma_sort_ranked_len(s: Seq<CandidateView>)
    ensures
        sort_ranked(s).len() == s.len(),
{
    lemma_sort_ranked_props(s);
}

/// Sorts candidates by ascending priority, stably.
pub(crate) fn sort_candidates(input: Vec<CorrectedCommand>) -> (r: Vec<CorrectedCommand>)
    ensures
        candidate_views(r@) == sort_ranked(candidate_views(input@)),
{
    let ghost all = candidate_views(input@);
    let mut rest = input;
    let n = rest.len();
    let mut out: Vec<CorrectedCommand> = Vec::new();
    let mut k: usize = 0;
    proof {
        assert(candidate_views(rest@) =~= all.skip(0));
        assert(candidate_views(out@) =~= sort_ranked(all.take(0)));
    }
    while k < n
        invariant
            k <= n,
            n == all.len(),
            rest@.len() == n - k,
            candidate_views(rest@) == all.skip(k as int),
            candidate_views(out@) == sort_ranked(all.take(k as int)),
            out@.len() == k,
        decreases n - k,
    {
        let ghost rest_before = rest@;
        let ghost out_before = out@;
        let c = rest.remove(0);
        proof {
            assert(candidate_views(rest_before)[0] == c@);
            assert(c@ == all[k as int]);
            assert(candidate_views(rest@) =~= candidate_views(rest_before).drop_first());
            assert(candidate_views(rest@) =~= all.skip(k + 1));
        }
        let mut j: usize = 0;
        while j < out.len() && out[j].priority <= c.priority
            invariant
                j <= out.len(),
                out@ == out_before,
                forall|m: int| 0 <= m < j ==> candidate_views(out@)[m].priority <= c@.priority,
            decreases out.len() - j,
        {
            proof {
                assert(candidate_views(out@)[j as int] == out@[j as int]@);
            }
            j += 1;
        }
        proof {
            assert(j < out@.len() ==> candidate_views(out@)[j as int].priority > c@.priority) by {
                if j < out@.len() {
                    assert(candidate_views(out@)[j as int] == out@[j as int]@);
                }
            }
            lemma_insert_ranked_at(c@, candidate_views(out_before), j as int);
        }
        out.insert(j, c);
        proof {
            let sv = candidate_views(out_before);
            assert(out@ == out_before.insert(j as int, c));
            assert(candidate_views(out@) =~= sv.take(j as int) + seq![c@] + sv.skip(j as int));
            assert(candidate_views(out@) == insert_ranked(c@, sv));
            assert(all.take(k + 1).drop_last() =~= all.take(k as int));
            assert(all.take(k + 1).last() == all[k as int]);
            assert(sort_ranked(all.take(k + 1)) == insert_ranked(
                all[k as int],
                sort_ranked(all.take(k as int)),
            ));
        }
        k += 1;
    }
    proof {
        assert(all.take(n as int) =~= all);
    }
    out
}

/// Removes consecutive duplicate candidates, keeping the first of each run.
fn dedup_candidates(input: Vec<CorrectedCommand>) -> (r: Vec<CorrectedCommand>)
    ensures
        candidate_views(r@) == dedup_ranked(candidate_views(input@)),
{
    let ghost all = candidate_views(input@);
    let mut rest = input;
    let mut out: Vec<CorrectedCommand> = Vec::new();
    if rest.len() == 0 {
        proof {
            assert(candidate_views(out@) =~= dedup_ranked(all));
        }
        return out;
    }
    let ghost rest0 = rest@;
    let first = rest.remove(0);
    out.push(first);
    proof {
        assert(candidate_views(rest0)[0] == all[0]);
        assert(candidate_views(rest@) =~= candidate_views(rest0).drop_first());
        assert(candidate_views(rest@) =~= all.drop_first());
        assert(candidate_views(out@) =~= seq![all[0]]);
        assert(dedup_ranked(all) == seq![all[0]] + dedup_from(all[0], all.drop_first()));
    }
    while rest.len() > 0
        invariant
            out@.len() > 0,
            candidate_views(out@) + dedup_from(out@.last()@, candidate_views(rest@))
                == dedup_ranked(all),
        decreases rest.len(),
    {
        let ghost rest_before = rest@;
        let ghost out_before = out@;
        let c = rest.remove(0);
        proof {
            assert(candidate_views(rest_before)[0] == c@);
            assert(candidate_views(rest@) =~= candidate_views(rest_before).drop_first());
        }
        let last_index = out.len() - 1;
        let keep = !(out[last_index] == c);
        proof {
            let prev = out_before.last()@;
            assert(out_before[last_index as int] == out_before.last());
            if !keep {
                assert(same_candidate(c@, prev)) by {
                    assert(same_candidate(out_before.last()@, c@));
                }
                assert(dedup_from(prev, candidate_views(rest_before)) == dedup_from(
                    prev,
                    candidate_views(rest@),
                ));
            } else {
                assert(!same_candidate(c@, prev)) by {
                    assert(!same_candidate(out_before.last()@, c@));
                }
                assert(dedup_from(prev, candidate_views(rest_before)) == seq![c@] + dedup_from(
                    c@,
                    candidate_views(rest@),
                ));
            }
        }
        if keep {
            out.push(c);
            proof {
                assert(candidate_views(out@) =~= candidate_views(out_before) + seq![
                    out@.last()@,
                ]);
                assert(out@.last()@ == candidate_views(rest_before)[0]);
                assert(candidate_views(out@) + dedup_from(out@.last()@, candidate_views(rest@))
                    =~= candidate_views(out_before) + dedup_from(
                    out_before.last()@,
                    candidate_views(rest_before),
                ));
            }
        }
    }
    proof {
        assert(candidate_views(rest@) =~= Seq::<CandidateView>::empty());
        assert(candidate_views(out@) =~= candidate_views(out@) + dedup_from(
            out@.last()@,
            candidate_views(rest@),
        ));
    }
    out
}

/// The evaluation engine: owns a registry and evaluates commands against it.
pub struct Corrector {
    /// The rules this corrector evaluates.
    pub registry: RuleRegistry,
}

impl Corrector {
    /// Wraps a registry in a corrector.
    pub fn new(registry: RuleRegistry) -> (r: Corrector)
        ensures
            r.registry.rules@ == registry.rules@,
    {
        Corrector { registry }
    }

    /// The rules that are enabled by default, in registry order.
    pub fn rules(&self) -> (r: Vec<&Rule>)
        ensures
            r@.map_values(|x: &Rule| *x) == enabled_only(self.registry.rules@),
    {
        self.registry.enabled_rules()
    }

    /// Evaluates every registered rule against the command and returns the
    /// merged proposals, sorted by ascending priority (stable for ties), with
    /// consecutive duplicate candidates removed. The result is a function of
    /// the registry and the command alone.
    pub fn get_corrections(&self, command: &Command) -> (r: Vec<CorrectedCommand>)
        ensures
            candidate_views(r@) == corrections_spec(self.registry.rules@, *command),
            sorted_by_priority(candidate_views(r@)),
            forall|k: int|
                0 <= k < r@.len() - 1 ==> !same_candidate(
                    #[trigger] candidate_views(r@)[k],
                    candidate_views(r@)[k + 1],
                ),
    {
        let merged = evaluate_rules_parallel(&self.registry.rules, command);
        let sorted = sort_candidates(merged);
        let deduped = dedup_candidates(sorted);
        proof {
            lemma_corrections_sorted(self.registry.rules@, *command);
        }
        deduped
    }

    /// The best correction: the first element of the ranked result, or
    /// nothing exactly when evaluation yields nothing.
    pub fn get_best_correction(&self, command: &Command) -> (r: Option<CorrectedCommand>)
        ensures
            r is None <==> corrections_spec(self.registry.rules@, *command).len() == 0,
            r matches Some(c) ==> c@ == corrections_spec(self.registry.rules@, *command)[0],
    {
        let mut corrections = self.get_corrections(command);
        if corrections.len() == 0 {
            None
        } else {
            let ghost views = candidate_views(corrections@);
            let best = corrections.remove(0);
            proof {
                assert(views[0] == best@);
            }
            Some(best)
        }
    }
}

impl Default for Corrector {
    /// A corrector over an empty registry.
    fn default() -> (r: Corrector)
        ensures
            r.registry.rules@ =~= Seq::<Rule>::empty(),
    {
        Corrector::new(RuleRegistry::new())
    }
}

impl From<RuleRegistry> for Corrector {
    /// Wraps the registry, exactly as `into_corrector` does.
    fn from(registry: RuleRegistry) -> (r: Corrector) {
        Corrector { registry }
    }
}

impl vstd::std_specs::convert::FromSpecImpl<RuleRegistry> for Corrector {
    open spec fn obeys_from_spec() -> bool {
        true
    }

    open spec fn from_spec(registry: RuleRegistry) -> Corrector {
        Corrector { registry }
    }
}

} // verus!
