//! The stage dump router: routes a validated request to the routine for its
//! stage, which builds the slice, copies the auxiliary tables that stage's
//! forward execution reads, and — when asked — plans a dry run of the stage
//! against the new store.

use vstd::prelude::*;
use crate::errors::DumpError;
use crate::slice::{build_slice, slice_hi, slice_lo, slice_primary};
use crate::stage::{stage_reads, StageCommand, StageId, Stages};
use crate::store::{Store, TableId};
use crate::table::{has_key, in_window, window};

verus! {

/// A dry run still owed after a dump: run the forward execution of `stage`
/// against the new store over the blocks `[from, to]`.
#[derive(Clone, Copy, Debug, PartialEq, Eq, Structural)]
pub struct DryRunPlan {
    pub stage: StageId,
    pub from: u64,
    pub to: u64,
}

/// What a successful dump hands back: the populated destination store, the
/// resolved tip, the destination path to report, and the dry run still owed,
/// if one was requested.
#[derive(Debug)]
pub struct DumpOutput {
    pub store: Store,
    pub tip: u64,
    pub output_db: String,
    pub dry_run_plan: Option<DryRunPlan>,
}

/// What a dump for `stage` over `[from, to)` leaves in the destination store:
/// a well-formed store whose primary index table holds exactly the source
/// records with keys in `[from - 1, to + 1]`, whose auxiliary tables read by
/// `stage` hold exactly the same key window of their source tables, whose
/// remaining tables are empty, and whose tip is the highest block number
/// present in the primary index table.
pub open spec fn dump_ok(
    stage: StageId,
    source: Store,
    from: u64,
    to: u64,
    dest: Store,
    tip: u64,
) -> bool {
    &&& dest.wf()
    &&& dest.spec_table(TableId::BlockBodyIndices)@ == slice_primary(source, from, to)
    &&& forall|t: TableId|
        stage_reads(stage, t) ==> (#[trigger] dest.spec_table(t))@ == window(
            source.spec_table(t)@,
            slice_lo(from),
            slice_hi(to),
        )
    &&& forall|t: TableId|
        t != TableId::BlockBodyIndices && !stage_reads(stage, t) ==> (#[trigger] dest.spec_table(
            t,
        ))@.len() == 0
    &&& has_key(dest.spec_table(TableId::BlockBodyIndices)@, tip)
    &&& forall|i: int|
        0 <= i < slice_primary(source, from, to).len() ==> (#[trigger] slice_primary(
            source,
            from,
            to,
        )[i]).0 <= tip
}

/// The full contract of one dump routine: `InvalidRange` exactly on
/// `from >= to`, before anything is built; `EmptySlice` exactly when a valid
/// range yields no primary index record; otherwise a destination store as
/// `dump_ok` describes, the caller's destination path, and a dry-run plan
/// over `[from, tip]` exactly when one was requested.
pub open spec fn dump_result_ok(
    stage: StageId,
    source: Store,
    from: u64,
    to: u64,
    output_db: String,
    dry_run: bool,
    r: Result<DumpOutput, DumpError>,
) -> bool {
    &&& from >= to ==> r == Err::<DumpOutput, DumpError>(DumpError::InvalidRange)
    &&& r is Ok <==> (from < to && slice_primary(source, from, to).len() > 0)
    &&& (from < to && slice_primary(source, from, to).len() == 0) ==> r == Err::<
        DumpOutput,
        DumpError,
    >(DumpError::EmptySlice)
    &&& r matches Ok(out) ==> {
        &&& dump_ok(stage, source, from, to, out.store, out.tip)
        &&& out.output_db == output_db
        &&& out.dry_run_plan == (if dry_run {
            Some(DryRunPlan { stage, from, to: out.tip })
        } else {
            None::<DryRunPlan>
        })
    }
}

/// Builds the slice for `[from, to)` and copies the auxiliary tables that
/// `stage` reads, over the same padded key window. The source store is only
/// read.
fn dump_stage_routine(
    stage: StageId,
    source: &Store,
    from: u64,
    to: u64,
    output_db: String,
    dry_run: bool,
) -> (r: Result<DumpOutput, DumpError>)
    requires
        source.wf(),
        from < to ==> 1 <= from && to < u64::MAX,
    ensures
        dump_result_ok(stage, *source, from, to, output_db, dry_run, r),
{
    if from >= to {
        return Err(DumpError::InvalidRange);
    }
    let built = build_slice(source, from, to);
    let (mut dest, tip) = match built {
        Ok(p) => p,
        Err(e) => {
            return Err(e);
        },
    };
    match stage {
        StageId::Execution => {
            dest.import_table(source, TableId::Headers, from - 1, to + 1);
            dest.import_table(source, TableId::Transactions, from - 1, to + 1);
            dest.import_table(source, TableId::Senders, from - 1, to + 1);
        },
        StageId::StorageHashing => {
            dest.import_table(source, TableId::StorageChangeSets, from - 1, to + 1);
        },
        StageId::AccountHashing => {
            dest.import_table(source, TableId::AccountChangeSets, from - 1, to + 1);
        },
        StageId::Merkle => {
            dest.import_table(source, TableId::HashedAccounts, from - 1, to + 1);
            dest.import_table(source, TableId::HashedStorages, from - 1, to + 1);
        },
    }
    let dry_run_plan = if dry_run {
        Some(DryRunPlan { stage, from, to: tip })
    } else {
        None
    };
    Ok(DumpOutput { store: dest, tip, output_db, dry_run_plan })
}

/// Dumps the execution stage: the slice plus the headers, transactions and
/// senders it executes, and optionally a dry run.
pub fn dump_execution_stage(
    source: &Store,
    from: u64,
    to: u64,
    output_db: String,
    dry_run: bool,
) -> (r: Result<DumpOutput, DumpError>)
    requires
        source.wf(),
        from < to ==> 1 <= from && to < u64::MAX,
    ensures
        dump_result_ok(StageId::Execution, *source, from, to, output_db, dry_run, r),
{
    dump_stage_routine(StageId::Execution, source, from, to, output_db, dry_run)
}

/// Dumps the storage hashing stage: the slice plus the storage change sets it
/// hashes, and optionally a dry run.
pub fn dump_hashing_storage_stage(
    source: &Store,
    from: u64,
    to: u64,
    output_db: String,
    dry_run: bool,
) -> (r: Result<DumpOutput, DumpError>)
    requires
        source.wf(),
        from < to ==> 1 <= from && to < u64::MAX,
    ensures
        dump_result_ok(StageId::StorageHashing, *source, from, to, output_db, dry_run, r),
{
    dump_stage_routine(StageId::StorageHashing, source, from, to, output_db, dry_run)
}

/// Dumps the account hashing stage: the slice plus the account change sets it
/// hashes, and optionally a dry run.
pub fn dump_hashing_account_stage(
    source: &Store,
    from: u64,
    to: u64,
    output_db: String,
    dry_run: bool,
) -> (r: Result<DumpOutput, DumpError>)
    requires
        source.wf(),
        from < to ==> 1 <= from && to < u64::MAX,
    ensures
        dump_result_ok(StageId::AccountHashing, *source, from, to, output_db, dry_run, r),
{
    dump_stage_routine(StageId::AccountHashing, source, from, to, output_db, dry_run)
}

/// Dumps the merkle stage: the slice plus the hashed account and storage
/// state it builds the trie from, and optionally a dry run.
pub fn dump_merkle_stage(
    source: &Store,
    from: u64,
    to: u64,
    output_db: String,
    dry_run: bool,
) -> (r: Result<DumpOutput, DumpError>)
    requires
        source.wf(),
        from < to ==> 1 <= from && to < u64::MAX,
    ensures
        dump_result_ok(StageId::Merkle, *source, from, to, output_db, dry_run, r),
{
    dump_stage_routine(StageId::Merkle, source, from, to, output_db, dry_run)
}

/// Routes a dump request to the routine for its stage. Exactly one of the
/// four fixed stage identities is accepted, with no default.
pub fn dump(request: Stages, source: &Store) -> (r: Result<DumpOutput, DumpError>)
    requires
        source.wf(),
        request.command().from < request.command().to ==> 1 <= request.command().from
            && request.command().to < u64::MAX,
    ensures
        dump_result_ok(
            request.stage_id(),
            *source,
            request.command().from,
            request.command().to,
            request.command().output_db,
            request.command().dry_run,
            r,
        ),
{
    match request {
        Stages::Execution(StageCommand { output_db, from, to, dry_run }) => dump_execution_stage(
            source,
            from,
            to,
            output_db,
            dry_run,
        ),
        Stages::StorageHashing(
            StageCommand { output_db, from, to, dry_run },
        ) => dump_hashing_storage_stage(source, from, to, output_db, dry_run),
        Stages::AccountHashing(
            StageCommand { output_db, from, to, dry_run },
        ) => dump_hashing_account_stage(source, from, to, output_db, dry_run),
        Stages::Merkle(StageCommand { output_db, from, to, dry_run }) => dump_merkle_stage(
            source,
            from,
            to,
            output_db,
            dry_run,
        ),
    }
}

/// The slice is exact: after any successful dump, the destination primary
/// index table holds a record if and only if the source holds that record —
/// same key, same value bytes — and its key lies in `[from - 1, to + 1]`.
pub proof fn lemma_dump_primary_exact(
    stage: StageId,
    source: Store,
    from: u64,
    to: u64,
    dest: Store,
    tip: u64,
    e: (u64, Seq<u8>),
)
    requires
        dump_ok(stage, source, from, to, dest, tip),
    ensures
        dest.spec_table(TableId::BlockBodyIndices)@.contains(e) <==> source.spec_table(
            TableId::BlockBodyIndices,
        )@.contains(e) && in_window(slice_lo(from), slice_hi(to), e.0),
{
    crate::table::lemma_window_contains(
        source.spec_table(TableId::BlockBodyIndices)@,
        slice_lo(from),
        slice_hi(to),
        e,
    );
}

/// The tip is a key present in the destination primary index table, and it is
/// the maximum such key.
pub proof fn lemma_tip_present_and_max(
    stage: StageId,
    source: Store,
    from: u64,
    to: u64,
    dest: Store,
    tip: u64,
)
    requires
        dump_ok(stage, source, from, to, dest, tip),
    ensures
        has_key(dest.spec_table(TableId::BlockBodyIndices)@, tip),
        forall|k: u64| has_key(dest.spec_table(TableId::BlockBodyIndices)@, k) ==> k <= tip,
{
    let dp = dest.spec_table(TableId::BlockBodyIndices)@;
    assert forall|k: u64| has_key(dp, k) implies k <= tip by {
        let i = choose|i: int| 0 <= i < dp.len() && dp[i].0 == k;
        assert(slice_primary(source, from, to)[i].0 <= tip);
    }
}

/// Copy determinism: two dumps of the same stage, source and range leave
/// destination stores with identical table contents and resolve the same
/// tip, whatever destination paths the two dumps were given.
pub proof fn lemma_dump_deterministic(
    stage: StageId,
    source: Store,
    from: u64,
    to: u64,
    dest1: Store,
    tip1: u64,
    dest2: Store,
    tip2: u64,
)
    requires
        dump_ok(stage, source, from, to, dest1, tip1),
        dump_ok(stage, source, from, to, dest2, tip2),
    ensures
        forall|t: TableId| (#[trigger] dest1.spec_table(t))@ == dest2.spec_table(t)@,
        tip1 == tip2,
{
    assert forall|t: TableId| (#[trigger] dest1.spec_table(t))@ == dest2.spec_table(t)@ by {
        if t != TableId::BlockBodyIndices && !stage_reads(stage, t) {
            assert(dest1.spec_table(t)@ =~= dest2.spec_table(t)@);
        }
    }
    let dp1 = dest1.spec_table(TableId::BlockBodyIndices)@;
    let dp2 = dest2.spec_table(TableId::BlockBodyIndices)@;
    let i1 = choose|i: int| 0 <= i < dp1.len() && dp1[i].0 == tip1;
    let i2 = choose|i: int| 0 <= i < dp2.len() && dp2[i].0 == tip2;
    assert(slice_primary(source, from, to)[i1].0 <= tip2);
    assert(slice_primary(source, from, to)[i2].0 <= tip1);
}

} // verus!
