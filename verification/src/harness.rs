//! The dry-run harness: the stage's forward execution itself is an external
//! collaborator, invoked by the surrounding program; this routine turns its
//! outcome into the dump's verdict.

use vstd::prelude::*;
use crate::dump::DryRunPlan;
use crate::errors::DumpError;

verus! {

/// Reports the outcome of the planned dry run: success exactly when the
/// stage's forward execution succeeded, and otherwise the stage's own error
/// verbatim, tagged with the stage identity and the executed range. Nothing
/// is retried or masked, and the destination store is left as it stands.
pub fn verify_outcome(plan: DryRunPlan, outcome: Result<(), String>) -> (r: Result<
    (),
    DumpError,
>)
    ensures
        r is Ok <==> outcome is Ok,
        outcome matches Err(detail) ==> r == Err::<(), DumpError>(
            (DumpError::StageExecutionFailed {
                stage: plan.stage,
                from: plan.from,
                to: plan.to,
                detail,
            }),
        ),
{
    match outcome {
        Ok(()) => Ok(()),
        Err(detail) => Err(
            DumpError::StageExecutionFailed {
                stage: plan.stage,
                from: plan.from,
                to: plan.to,
                detail,
            },
        ),
    }
}

} // verus!
