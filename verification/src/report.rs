//! Per-candidate result records and the batch tally.
//!
//! Every candidate ends in exactly one terminal state, yielding one record:
//! a confirmation carrying source and output path, or a failure carrying
//! the source and the stage that failed. Failures never end the batch; the
//! tally counts both sides and accounts for every candidate.

use vstd::prelude::*;
use crate::pipeline::CandidateState;
use crate::pipeline::is_success;
use crate::pipeline::is_terminal;
use crate::plan::Plan;

verus! {

/// The stage at which a candidate was lost.
#[derive(Clone, Copy, Debug, PartialEq, Eq, Structural)]
pub enum FailureKind {
    /// The conversion step failed.
    Convert,
    /// The resize step failed.
    Resize,
}

/// What one candidate's run reports.
pub enum RunRecord {
    /// The resized output was written.
    Success { source: String, output: String },
    /// The candidate was abandoned at `cause`; the batch went on.
    Failure { source: String, cause: FailureKind },
}

/// A terminal state that is no success is a failure.
pub open spec fn is_failure(s: CandidateState) -> bool {
    s is ConversionFailed || s is ResizeFailed
}

/// The record a finished candidate yields.
pub fn record_for(s: CandidateState, plan: &Plan) -> (r: RunRecord)
    requires
        is_terminal(s),
    ensures
        is_success(s) ==> (r matches RunRecord::Success { source, output } && source@
            == plan.source@ && output@ == plan.output@),
        s is ConversionFailed ==> (r matches RunRecord::Failure { source, cause } && source@
            == plan.source@ && cause == FailureKind::Convert),
        s is ResizeFailed ==> (r matches RunRecord::Failure { source, cause } && source@
            == plan.source@ && cause == FailureKind::Resize),
{
    match s {
        CandidateState::ResizeDone => RunRecord::Success {
            source: plan.source.clone(),
            output: plan.output.clone(),
        },
        CandidateState::ConversionFailed => RunRecord::Failure {
            source: plan.source.clone(),
            cause: FailureKind::Convert,
        },
        _ => RunRecord::Failure { source: plan.source.clone(), cause: FailureKind::Resize },
    }
}

/// How many candidates of a finished batch ended well.
pub open spec fn count_ok(states: Seq<CandidateState>) -> nat
    decreases states.len(),
{
    if states.len() == 0 {
        0
    } else {
        count_ok(states.drop_last()) + if is_success(states.last()) {
            1nat
        } else {
            0nat
        }
    }
}

/// How many candidates of a finished batch were lost.
pub open spec fn count_failed(states: Seq<CandidateState>) -> nat
    decreases states.len(),
{
    if states.len() == 0 {
        0
    } else {
        count_failed(states.drop_last()) + if is_failure(states.last()) {
            1nat
        } else {
            0nat
        }
    }
}

/// Every finished candidate is counted exactly once: over terminal states,
/// successes and failures partition the batch.
pub proof fn lemma_outcome_partition(states: Seq<CandidateState>)
    requires
        forall|i: int| 0 <= i < states.len() ==> is_terminal(#[trigger] states[i]),
    ensures
        count_ok(states) + count_failed(states) == states.len(),
    decreases states.len(),
{
    if states.len() > 0 {
        assert(forall|i: int|
            0 <= i < states.drop_last().len() ==> is_terminal(
                #[trigger] states.drop_last()[i],
            ));
        lemma_outcome_partition(states.drop_last());
    }
}

/// Counts a finished batch: how many succeeded and how many failed; the two
/// together account for every candidate.
pub fn tally(states: &Vec<CandidateState>) -> (r: (usize, usize))
    requires
        forall|i: int| 0 <= i < states@.len() ==> is_terminal(#[trigger] states@[i]),
    ensures
        r.0 == count_ok(states@),
        r.1 == count_failed(states@),
        r.0 + r.1 == states@.len(),
{
    let mut ok: usize = 0;
    let mut failed: usize = 0;
    let mut i: usize = 0;
    while i < states.len()
        invariant
            i <= states@.len(),
            forall|k: int| 0 <= k < states@.len() ==> is_terminal(#[trigger] states@[k]),
            ok == count_ok(states@.subrange(0, i as int)),
            failed == count_failed(states@.subrange(0, i as int)),
            ok + failed == i,
        decreases states@.len() - i,
    {
        proof {
            let head = states@.subrange(0, i as int);
            let step = states@.subrange(0, i + 1 as int);
            assert(step.drop_last() =~= head);
            assert(step.last() == states@[i as int]);
        }
        match states[i] {
            CandidateState::ResizeDone => {
                ok = ok + 1;
            },
            CandidateState::ConversionFailed => {
                failed = failed + 1;
            },
            CandidateState::ResizeFailed => {
                failed = failed + 1;
            },
            _ => {
                proof {
                    assert(is_terminal(states@[i as int]));
                }
            },
        }
        i = i + 1;
    }
    proof {
        assert(states@.subrange(0, states@.len() as int) =~= states@);
        lemma_outcome_partition(states@);
    }
    (ok, failed)
}

} // verus!
