//! The error kinds a dump can report.

use vstd::prelude::*;
use crate::stage::StageId;

verus! {

/// Why a dump failed. Every failure is surfaced to the caller; none is
/// retried or swallowed.
#[derive(Debug, PartialEq, Eq)]
pub enum DumpError {
    /// The requested range has `from >= to`; nothing was done.
    InvalidRange,
    /// The destination store could not be initialized at the requested path.
    StoreCreationFailed,
    /// A table-range copy could not complete; the destination transaction for
    /// that table was rolled back.
    CopyFailed,
    /// The requested range yielded no primary index records, so there is
    /// nothing for a dry run to execute against.
    EmptySlice,
    /// The dry-run stage's own forward execution failed; its error is carried
    /// verbatim, tagged with the stage identity and the executed range.
    StageExecutionFailed { stage: StageId, from: u64, to: u64, detail: String },
}
} // verus!
