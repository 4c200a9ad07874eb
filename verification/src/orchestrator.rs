//! The batch orchestrator's gather step: one unit of work is launched per
//! identifier, and once every unit has finished, the raw unit results are
//! resolved — in input order, one outcome per identifier — into the outcome
//! sequence. A unit that never produced a fetcher result is recorded as an
//! `ExecutionFailure`, distinct from any error the fetcher itself reports.
use vstd::prelude::*;
use crate::outcome::FailureReason;
use crate::outcome::FetchError;
use crate::outcome::FetchOutcome;

verus! {

/// What one unit of work handed back: `Some` with the fetcher's result if it
/// ran to completion, `None` if it was aborted, panicked, or its execution
/// context was destroyed.
pub type UnitResult = Option<Result<String, FetchError>>;

/// The outcome that resolving one unit's result must produce for its
/// identifier.
pub open spec fn resolve_spec(id: String, unit: UnitResult) -> FetchOutcome {
    match unit {
        Some(Ok(content)) => FetchOutcome::Success { id, content },
        Some(Err(error)) => FetchOutcome::Failure {
            id,
            reason: FailureReason::Fetch { error },
        },
        None => FetchOutcome::Failure { id, reason: FailureReason::ExecutionFailure },
    }
}

/// The whole outcome sequence for a batch: position by position, the
/// identifier at that position paired with what its unit handed back.
pub open spec fn resolved_outcomes(ids: Seq<String>, units: Seq<UnitResult>) -> Seq<
    FetchOutcome,
> {
    Seq::new(ids.len(), |j: int| resolve_spec(ids[j], units[j]))
}

/// Resolves the result of a single unit of work into the outcome for its
/// identifier.
pub fn resolve_unit(id: String, unit: UnitResult) -> (o: FetchOutcome)
    ensures
        o == resolve_spec(id, unit),
{
    match unit {
        Some(Ok(content)) => FetchOutcome::Success { id, content },
        Some(Err(error)) => FetchOutcome::Failure {
            id,
            reason: FailureReason::Fetch { error },
        },
        None => FetchOutcome::Failure { id, reason: FailureReason::ExecutionFailure },
    }
}

/// Resolves all unit results into the outcome sequence: one outcome per
/// input identifier, in input order — never in completion order — so that
/// `outcomes[i]` always answers for `ids[i]`, and no outcome is dropped.
pub fn gather_outcomes(ids: &Vec<String>, units: Vec<UnitResult>) -> (outcomes: Vec<
    FetchOutcome,
>)
    requires
        units@.len() == ids@.len(),
    ensures
        outcomes@.len() == ids@.len(),
        outcomes@ == resolved_outcomes(ids@, units@),
{
    let ghost all_units: Seq<UnitResult> = units@;
    let mut units = units;
    let mut outcomes: Vec<FetchOutcome> = Vec::new();
    let mut i: usize = 0;
    while i < ids.len()
        invariant
            i <= ids@.len(),
            all_units.len() == ids@.len(),
            units@ == all_units.skip(i as int),
            outcomes@.len() == i,
            forall|j: int| 0 <= j < i ==> outcomes@[j] == resolve_spec(ids@[j], all_units[j]),
        decreases ids@.len() - i,
    {
        let unit = units.remove(0);
        assert(unit == all_units[i as int]);
        let o = resolve_unit(ids[i].clone(), unit);
        outcomes.push(o);
        assert(units@ =~= all_units.skip(i + 1));
        i += 1;
    }
    assert(outcomes@ =~= resolved_outcomes(ids@, all_units));
    outcomes
}

} // verus!
