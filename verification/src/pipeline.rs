//! The per-candidate control flow, as an explicit state machine.
//!
//! A candidate starts `Selected`. Conversion is skipped, succeeds or fails;
//! a failed conversion is terminal for the candidate (its resize is never
//! attempted). After a skipped or completed conversion the resize runs and
//! either ends the candidate well or fails it. The caller performs each
//! step's outside work (decode, encode, write) and feeds the outcome back
//! as an event; every decision is taken here.

use vstd::prelude::*;
use crate::plan::Plan;

verus! {

/// Where one candidate stands in its pipeline.
#[derive(Clone, Copy, Debug, PartialEq, Eq, Structural)]
pub enum CandidateState {
    /// Picked by the selector; nothing run yet.
    Selected,
    /// No conversion was needed.
    ConversionSkipped,
    /// The legacy source was converted and persisted.
    ConversionDone,
    /// Conversion failed; terminal, the resize is not attempted.
    ConversionFailed,
    /// The resized output was written; terminal.
    ResizeDone,
    /// The resize failed; terminal.
    ResizeFailed,
}

/// The outcome of one performed step, fed back into the machine.
#[derive(Clone, Copy, Debug, PartialEq, Eq, Structural)]
pub enum Event {
    /// No conversion was needed for this candidate.
    ConversionNotNeeded,
    /// The conversion step wrote its output.
    ConversionSucceeded,
    /// The conversion step failed.
    ConversionFailedNow,
    /// The resize step wrote its output.
    ResizeSucceeded,
    /// The resize step failed.
    ResizeFailedNow,
}

/// The next piece of outside work for a candidate, or the end of it.
pub enum Action {
    /// Decode `source` and persist it re-encoded canonically at `dest`,
    /// keeping the source's resolution.
    Convert { source: String, dest: String },
    /// No conversion applies to this candidate: perform nothing and report
    /// `ConversionNotNeeded`.
    SkipConversion,
    /// Decode `source`, resample it to exactly `width` by `height`, and
    /// persist it at `dest`.
    Resize { source: String, dest: String, width: u32, height: u32 },
    /// Nothing more for this candidate.
    Finish,
}

/// States that end a candidate's pipeline.
pub open spec fn is_terminal(s: CandidateState) -> bool {
    s is ConversionFailed || s is ResizeDone || s is ResizeFailed
}

/// A candidate ended well exactly when its resize was written.
pub open spec fn is_success(s: CandidateState) -> bool {
    s is ResizeDone
}

/// Which events a state admits: the ones its pending step can produce.
pub open spec fn admits(s: CandidateState, e: Event) -> bool {
    match s {
        CandidateState::Selected => e is ConversionNotNeeded || e is ConversionSucceeded
            || e is ConversionFailedNow,
        CandidateState::ConversionSkipped => e is ResizeSucceeded || e is ResizeFailedNow,
        CandidateState::ConversionDone => e is ResizeSucceeded || e is ResizeFailedNow,
        _ => false,
    }
}

/// The machine's transition function.
pub open spec fn step_spec(s: CandidateState, e: Event) -> CandidateState {
    match (s, e) {
        (CandidateState::Selected, Event::ConversionNotNeeded) => CandidateState::ConversionSkipped,
        (CandidateState::Selected, Event::ConversionSucceeded) => CandidateState::ConversionDone,
        (CandidateState::Selected, Event::ConversionFailedNow) => CandidateState::ConversionFailed,
        (_, Event::ResizeSucceeded) => CandidateState::ResizeDone,
        (_, Event::ResizeFailedNow) => CandidateState::ResizeFailed,
        (_, _) => s,
    }
}

/// Advances a candidate by one observed event.
pub fn step(s: CandidateState, e: Event) -> (r: CandidateState)
    requires
        admits(s, e),
    ensures
        r == step_spec(s, e),
{
    match (s, e) {
        (CandidateState::Selected, Event::ConversionNotNeeded) => CandidateState::ConversionSkipped,
        (CandidateState::Selected, Event::ConversionSucceeded) => CandidateState::ConversionDone,
        (CandidateState::Selected, Event::ConversionFailedNow) => CandidateState::ConversionFailed,
        (_, Event::ResizeSucceeded) => CandidateState::ResizeDone,
        (_, Event::ResizeFailedNow) => CandidateState::ResizeFailed,
        (other, _) => other,
    }
}

/// The outside work a candidate's state asks for next.
///
/// When a conversion was done, the resize reads the converted file — the
/// plan's single output path — never the legacy source; a failed conversion
/// asks for nothing more.
pub fn next_action(s: CandidateState, plan: &Plan) -> (r: Action)
    ensures
        s is Selected && plan.needs_convert ==> (r matches Action::Convert { source, dest }
            && source@ == plan.source@ && dest@ == plan.output@),
        s is Selected && !plan.needs_convert ==> r is SkipConversion,
        s is ConversionSkipped ==> (r matches Action::Resize { source, dest, width, height }
            && source@ == plan.source@ && dest@ == plan.output@ && width == plan.width
            && height == plan.height),
        s is ConversionDone ==> (r matches Action::Resize { source, dest, width, height }
            && source@ == plan.output@ && dest@ == plan.output@ && width == plan.width
            && height == plan.height),
        is_terminal(s) ==> r is Finish,
{
    match s {
        CandidateState::Selected => {
            if plan.needs_convert {
                Action::Convert { source: plan.source.clone(), dest: plan.output.clone() }
            } else {
                Action::SkipConversion
            }
        },
        CandidateState::ConversionSkipped => Action::Resize {
            source: plan.source.clone(),
            dest: plan.output.clone(),
            width: plan.width,
            height: plan.height,
        },
        CandidateState::ConversionDone => Action::Resize {
            source: plan.output.clone(),
            dest: plan.output.clone(),
            width: plan.width,
            height: plan.height,
        },
        CandidateState::ConversionFailed => Action::Finish,
        CandidateState::ResizeDone => Action::Finish,
        CandidateState::ResizeFailed => Action::Finish,
    }
}

/// A terminal state admits no further event; in particular a failed
/// conversion is terminal, so the resize of such a candidate is never
/// attempted.
pub proof fn lemma_terminal_admits_nothing(s: CandidateState, e: Event)
    requires
        is_terminal(s),
    ensures
        !admits(s, e),
        is_terminal(CandidateState::ConversionFailed),
{
}

} // verus!
