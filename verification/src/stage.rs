//! The closed set of pipeline stages a dump can target, and the request a
//! caller hands the dump router.

use vstd::prelude::*;
use crate::store::TableId;

verus! {

/// The identity of a stage: exactly one of four fixed values.
#[derive(Clone, Copy, Debug, PartialEq, Eq, Structural)]
pub enum StageId {
    Execution,
    StorageHashing,
    AccountHashing,
    Merkle,
}

/// The auxiliary tables that the forward execution of `stage` reads, beyond
/// the primary index table that every slice carries.
pub open spec fn stage_reads(stage: StageId, t: TableId) -> bool {
    match stage {
        StageId::Execution => t == TableId::Headers || t == TableId::Transactions || t
            == TableId::Senders,
        StageId::StorageHashing => t == TableId::StorageChangeSets,
        StageId::AccountHashing => t == TableId::AccountChangeSets,
        StageId::Merkle => t == TableId::HashedAccounts || t == TableId::HashedStorages,
    }
}

/// A stage dump request: destination path, block range and dry-run flag.
#[derive(Clone, Debug, PartialEq, Eq)]
pub struct StageCommand {
    /// The path at which the caller will persist the new store.
    pub output_db: String,
    /// From which block.
    pub from: u64,
    /// To which block.
    pub to: u64,
    /// Whether to dry-run the stage against the new store right after dumping.
    pub dry_run: bool,
}

/// A dump request routed to one of the supported stages.
#[derive(Clone, Debug, PartialEq, Eq)]
pub enum Stages {
    /// Execution stage.
    Execution(StageCommand),
    /// StorageHashing stage.
    StorageHashing(StageCommand),
    /// AccountHashing stage.
    AccountHashing(StageCommand),
    /// Merkle stage.
    Merkle(StageCommand),
}

impl Stages {
    /// The identity of the requested stage.
    pub open spec fn stage_id(&self) -> StageId {
        match self {
            Stages::Execution(_) => StageId::Execution,
            Stages::StorageHashing(_) => StageId::StorageHashing,
            Stages::AccountHashing(_) => StageId::AccountHashing,
            Stages::Merkle(_) => StageId::Merkle,
        }
    }

    /// The request carried by the variant.
    pub open spec fn command(&self) -> StageCommand {
        match self {
            Stages::Execution(cmd) => *cmd,
            Stages::StorageHashing(cmd) => *cmd,
            Stages::AccountHashing(cmd) => *cmd,
            Stages::Merkle(cmd) => *cmd,
        }
    }
}

} // verus!
