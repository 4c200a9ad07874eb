//! The result aggregator: one sequential pass over the outcome sequence,
//! after the concurrent phase has ended. Successes are merged into the
//! result map, failures are collected into a report, and neither ever aborts
//! the pass.
use vstd::prelude::*;
use crate::orchestrator::gather_outcomes;
use crate::orchestrator::resolved_outcomes;
use crate::orchestrator::UnitResult;
use crate::outcome::FailureReason;
use crate::outcome::FetchOutcome;
use crate::result_map::ResultMap;

verus! {

/// One reported failure: the resource it concerns and why it failed.
pub struct FailureReport {
    pub id: String,
    pub reason: FailureReason,
}

/// The map that aggregating an outcome sequence yields: every success is
/// applied in order, so for a repeated name the last success wins; failures
/// leave the map untouched.
pub open spec fn aggregated_map(s: Seq<FetchOutcome>) -> Map<Seq<char>, Seq<char>>
    decreases s.len(),
{
    if s.len() == 0 {
        Map::empty()
    } else {
        let m = aggregated_map(s.drop_last());
        match s.last() {
            FetchOutcome::Success { id, content } => m.insert(id@, content@),
            FetchOutcome::Failure { .. } => m,
        }
    }
}

/// The failure report that aggregating an outcome sequence yields: the
/// failures, in outcome order, each with its identifier and reason.
pub open spec fn aggregated_failures(s: Seq<FetchOutcome>) -> Seq<FailureReport>
    decreases s.len(),
{
    if s.len() == 0 {
        Seq::empty()
    } else {
        let f = aggregated_failures(s.drop_last());
        match s.last() {
            FetchOutcome::Success { .. } => f,
            FetchOutcome::Failure { id, reason } => f.push(FailureReport { id, reason }),
        }
    }
}

/// Consumes the outcome sequence in order and builds the final map of
/// successes together with the report of every failure.
pub fn aggregate(outcomes: Vec<FetchOutcome>) -> (r: (ResultMap, Vec<FailureReport>))
    ensures
        r.0@ == aggregated_map(outcomes@),
        r.1@ == aggregated_failures(outcomes@),
{
    let ghost all: Seq<FetchOutcome> = outcomes@;
    let mut outcomes = outcomes;
    let mut map = ResultMap::new();
    let mut failures: Vec<FailureReport> = Vec::new();
    let n = outcomes.len();
    let mut i: usize = 0;
    while 0 < outcomes.len()
        invariant
            i <= n <= usize::MAX,
            all.len() == n,
            outcomes@ == all.skip(i as int),
            map@ == aggregated_map(all.take(i as int)),
            failures@ == aggregated_failures(all.take(i as int)),
        decreases outcomes@.len(),
    {
        let o = outcomes.remove(0);
        assert(o == all[i as int]);
        assert(all.take(i + 1).drop_last() =~= all.take(i as int));
        assert(all.take(i + 1).last() == o);
        match o {
            FetchOutcome::Success { id, content } => {
                map.insert(id, content);
            },
            FetchOutcome::Failure { id, reason } => {
                failures.push(FailureReport { id, reason });
            },
        }
        assert(outcomes@ =~= all.skip(i + 1));
        i += 1;
    }
    assert(all.take(i as int) =~= all);
    (map, failures)
}

/// The batch entry point after the concurrent phase: resolves every unit's
/// result into its outcome, in input order, and aggregates the outcomes into
/// the map of successes and the report of failures.
pub fn run_batch(ids: &Vec<String>, units: Vec<UnitResult>) -> (r: (ResultMap, Vec<
    FailureReport,
>))
    requires
        units@.len() == ids@.len(),
    ensures
        r.0@ == aggregated_map(resolved_outcomes(ids@, units@)),
        r.1@ == aggregated_failures(resolved_outcomes(ids@, units@)),
{
    let outcomes = gather_outcomes(ids, units);
    aggregate(outcomes)
}

/// Aggregating outcomes that hold no success at all yields an empty map and
/// reports exactly one failure per outcome.
pub proof fn lemma_aggregate_all_failures(s: Seq<FetchOutcome>)
    requires
        forall|i: int| 0 <= i < s.len() ==> !(s[i] is Success),
    ensures
        aggregated_map(s) == Map::<Seq<char>, Seq<char>>::empty(),
        aggregated_failures(s).len() == s.len(),
    decreases s.len(),
{
    if s.len() > 0 {
        assert(forall|i: int| 0 <= i < s.drop_last().len() ==> !(s.drop_last()[i] is Success));
        lemma_aggregate_all_failures(s.drop_last());
    }
}

/// The final map binds exactly the names that some success carries: no
/// failure ever contributes a binding, and no success loses its name.
pub proof fn lemma_aggregate_map_keys(s: Seq<FetchOutcome>, k: Seq<char>)
    ensures
        aggregated_map(s).contains_key(k) <==> exists|i: int|
            0 <= i < s.len() && s[i] is Success && s[i].key() == k,
    decreases s.len(),
{
    if s.len() > 0 {
        lemma_aggregate_map_keys(s.drop_last(), k);
        if aggregated_map(s).contains_key(k) && !(s.last() is Success && s.last().key() == k) {
            let i = choose|i: int|
                0 <= i < s.drop_last().len() && s.drop_last()[i] is Success
                    && s.drop_last()[i].key() == k;
            assert(s[i] is Success && s[i].key() == k);
        }
        if exists|i: int| 0 <= i < s.len() && s[i] is Success && s[i].key() == k {
            let i = choose|i: int| 0 <= i < s.len() && s[i] is Success && s[i].key() == k;
            if i < s.len() - 1 {
                assert(s.drop_last()[i] is Success && s.drop_last()[i].key() == k);
            }
        }
    }
}

/// A success that no later success overwrites decides what the final map
/// holds for its name: with duplicate names, the last success applied wins.
pub proof fn lemma_aggregate_last_success_wins(s: Seq<FetchOutcome>, i: int)
    requires
        0 <= i < s.len(),
        s[i] is Success,
        forall|j: int| i < j < s.len() && #[trigger] s[j] is Success ==> s[j].key() != s[i].key(),
    ensures
        aggregated_map(s).contains_key(s[i].key()),
        aggregated_map(s)[s[i].key()] == s[i].content_view(),
    decreases s.len(),
{
    if i < s.len() - 1 {
        assert(s.drop_last()[i] == s[i]);
        assert(forall|j: int|
            i < j < s.drop_last().len() && #[trigger] s.drop_last()[j] is Success
                ==> s.drop_last()[j].key() != s.drop_last()[i].key());
        lemma_aggregate_last_success_wins(s.drop_last(), i);
        if s.last() is Success {
            assert(s[s.len() - 1] is Success);
            assert(s.last().key() != s[i].key());
        }
    }
}

/// A batch in which no unit fetched anything — every unit either reported a
/// fetch error or did not run to completion — yields an empty map and one
/// reported failure per submitted identifier.
pub proof fn lemma_batch_all_failures(ids: Seq<String>, units: Seq<UnitResult>)
    requires
        units.len() == ids.len(),
        forall|j: int| 0 <= j < units.len() ==> !(#[trigger] units[j] matches Some(Ok(_))),
    ensures
        aggregated_map(resolved_outcomes(ids, units)) == Map::<Seq<char>, Seq<char>>::empty(),
        aggregated_failures(resolved_outcomes(ids, units)).len() == ids.len(),
{
    let s = resolved_outcomes(ids, units);
    assert(forall|i: int| 0 <= i < s.len() ==> !(s[i] is Success));
    lemma_aggregate_all_failures(s);
}

/// A failure is inert: removing it from the outcome sequence leaves the
/// final map unchanged, so one failing resource never masks another
/// resource's success.
pub proof fn lemma_aggregate_failure_isolated(s: Seq<FetchOutcome>, i: int)
    requires
        0 <= i < s.len(),
        !(s[i] is Success),
    ensures
        aggregated_map(s.remove(i)) == aggregated_map(s),
    decreases s.len(),
{
    if i == s.len() - 1 {
        assert(s.remove(i) =~= s.drop_last());
    } else {
        assert(s.remove(i).drop_last() =~= s.drop_last().remove(i));
        assert(s.remove(i).last() == s.last());
        assert(s.drop_last()[i] == s[i]);
        lemma_aggregate_failure_isolated(s.drop_last(), i);
    }
}

} // verus!
