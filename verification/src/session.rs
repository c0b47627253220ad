//! The state machine of one dump invocation: the slice is built first, the
//! stage's auxiliary tables next, the optional dry run last, and a failure of
//! any component ends the invocation with that component's error.

use vstd::prelude::*;
use crate::errors::DumpError;

verus! {

/// Where one dump invocation stands.
#[derive(Debug, PartialEq, Eq)]
pub enum DumpState {
    /// Nothing has been done; no destination store exists yet.
    Idle,
    /// The destination store exists and its primary index table is populated.
    SliceBuilt,
    /// The auxiliary tables the target stage reads are populated too.
    AuxTablesCopied,
    /// The requested dry run of the stage completed successfully.
    DryRunExecuted,
    /// The invocation finished; the destination store is handed to the caller.
    Done,
    /// A component failed with this error; the invocation is over.
    Failed(DumpError),
}

/// The component outcomes that move a dump invocation forward.
#[derive(Debug, PartialEq, Eq)]
pub enum DumpEvent {
    /// The slice builder produced the destination store and its tip.
    SliceReady,
    /// The slice builder failed: an invalid range, a store that could not be
    /// created, a failed copy, or an empty slice.
    SliceFailed(DumpError),
    /// Every auxiliary table the stage reads was copied.
    AuxCopied,
    /// An auxiliary table copy failed.
    AuxCopyFailed,
    /// The dry run of the stage completed successfully.
    DryRunPassed,
    /// The dry run of the stage reported the stage's own error.
    DryRunFailed(DumpError),
    /// The invocation is wrapped up and reported.
    Finished,
}

/// The transition relation of a dump invocation. An event that does not
/// belong to the current state leaves the state as it is.
pub open spec fn spec_advance(s: DumpState, ev: DumpEvent) -> DumpState {
    match s {
        DumpState::Idle => match ev {
            DumpEvent::SliceReady => DumpState::SliceBuilt,
            DumpEvent::SliceFailed(e) => DumpState::Failed(e),
            _ => DumpState::Idle,
        },
        DumpState::SliceBuilt => match ev {
            DumpEvent::AuxCopied => DumpState::AuxTablesCopied,
            DumpEvent::AuxCopyFailed => DumpState::Failed(DumpError::CopyFailed),
            _ => DumpState::SliceBuilt,
        },
        DumpState::AuxTablesCopied => match ev {
            DumpEvent::DryRunPassed => DumpState::DryRunExecuted,
            DumpEvent::DryRunFailed(e) => DumpState::Failed(e),
            DumpEvent::Finished => DumpState::Done,
            _ => DumpState::AuxTablesCopied,
        },
        DumpState::DryRunExecuted => match ev {
            DumpEvent::Finished => DumpState::Done,
            _ => DumpState::DryRunExecuted,
        },
        DumpState::Done => DumpState::Done,
        DumpState::Failed(e) => DumpState::Failed(e),
    }
}

/// Advances one dump invocation by one component outcome.
pub fn advance(s: DumpState, ev: DumpEvent) -> (next: DumpState)
    ensures
        next == spec_advance(s, ev),
{
    match s {
        DumpState::Idle => match ev {
            DumpEvent::SliceReady => DumpState::SliceBuilt,
            DumpEvent::SliceFailed(e) => DumpState::Failed(e),
            _ => DumpState::Idle,
        },
        DumpState::SliceBuilt => match ev {
            DumpEvent::AuxCopied => DumpState::AuxTablesCopied,
            DumpEvent::AuxCopyFailed => DumpState::Failed(DumpError::CopyFailed),
            _ => DumpState::SliceBuilt,
        },
        DumpState::AuxTablesCopied => match ev {
            DumpEvent::DryRunPassed => DumpState::DryRunExecuted,
            DumpEvent::DryRunFailed(e) => DumpState::Failed(e),
            DumpEvent::Finished => DumpState::Done,
            _ => DumpState::AuxTablesCopied,
        },
        DumpState::DryRunExecuted => match ev {
            DumpEvent::Finished => DumpState::Done,
            _ => DumpState::DryRunExecuted,
        },
        DumpState::Done => DumpState::Done,
        DumpState::Failed(e) => DumpState::Failed(e),
    }
}

/// No transition leaves `Failed`: a failed dump stays failed, with the error
/// of the component that failed.
pub proof fn lemma_failed_absorbing(e: DumpError, ev: DumpEvent)
    ensures
        spec_advance(DumpState::Failed(e), ev) == DumpState::Failed(e),
{
}

/// `Done` is terminal: a finished dump invocation is never reopened.
pub proof fn lemma_done_terminal(ev: DumpEvent)
    ensures
        spec_advance(DumpState::Done, ev) == DumpState::Done,
{
}

/// A dump only completes in order: `Done` is entered only by wrapping up an
/// invocation whose auxiliary tables were copied — directly when no dry run
/// was requested, or after the dry run executed.
pub proof fn lemma_done_only_in_order(s: DumpState, ev: DumpEvent)
    requires
        spec_advance(s, ev) == DumpState::Done,
        s != DumpState::Done,
    ensures
        ev == DumpEvent::Finished,
        s == DumpState::AuxTablesCopied || s == DumpState::DryRunExecuted,
{
}

} // verus!
