use stage_dump::errors::DumpError;
use stage_dump::session::{advance, DumpEvent, DumpState};
use stage_dump::stage::StageId;
use stage_dump::store::{Store, TableId};
use stage_dump::table::{import_range, Table};

fn bytes_for(key: u64) -> Vec<u8> {
    vec![(key & 0xFF) as u8, ((key >> 8) & 0xFF) as u8]
}

fn table_with_keys(keys: &[u64]) -> Table {
    let mut t = Table::new();
    for &k in keys {
        t.push_record(k, bytes_for(k));
    }
    t
}

#[test]
fn table_new_is_empty() {
    let t = Table::new();
    assert_eq!(t.len(), 0);
    assert!(t.records.is_empty());
}

#[test]
fn table_push_keeps_order() {
    let t = table_with_keys(&[2, 5, 9]);
    assert_eq!(t.len(), 3);
    assert_eq!(t.key_at(0), 2);
    assert_eq!(t.key_at(1), 5);
    assert_eq!(t.key_at(2), 9);
}

#[test]
fn import_range_copies_exact_records() {
    let t = table_with_keys(&[5, 7, 9, 12]);
    let copied = import_range(&t, 6, 9);
    let keys: Vec<u64> = copied.records.iter().map(|r| r.key).collect();
    assert_eq!(keys, vec![7, 9]);
    for r in &copied.records {
        assert_eq!(r.value, bytes_for(r.key));
    }
}

#[test]
fn import_range_full_window_copies_all() {
    let t = table_with_keys(&[5, 7, 9]);
    let copied = import_range(&t, 0, u64::MAX);
    assert_eq!(copied.records, t.records);
}

#[test]
fn import_range_empty_window_copies_nothing() {
    let t = table_with_keys(&[5, 7, 9]);
    let copied = import_range(&t, 8, 3);
    assert!(copied.records.is_empty());
}

#[test]
fn new_store_has_all_tables_empty() {
    let s = Store::new_empty();
    for id in [
        TableId::BlockBodyIndices,
        TableId::Headers,
        TableId::Transactions,
        TableId::Senders,
        TableId::AccountChangeSets,
        TableId::StorageChangeSets,
        TableId::HashedAccounts,
        TableId::HashedStorages,
    ] {
        assert!(s.table(id).records.is_empty());
    }
}

#[test]
fn import_table_leaves_other_tables_alone() {
    let mut source = Store::new_empty();
    source.headers = table_with_keys(&[1, 2, 3, 4]);
    source.transactions = table_with_keys(&[1, 2, 3, 4]);
    let mut dest = Store::new_empty();
    dest.import_table(&source, TableId::Headers, 2, 3);
    let keys: Vec<u64> = dest.headers.records.iter().map(|r| r.key).collect();
    assert_eq!(keys, vec![2, 3]);
    assert!(dest.transactions.records.is_empty());
    assert!(dest.block_body_indices.records.is_empty());
}

#[test]
fn session_completes_in_order_with_dry_run() {
    let s = DumpState::Idle;
    let s = advance(s, DumpEvent::SliceReady);
    assert_eq!(s, DumpState::SliceBuilt);
    let s = advance(s, DumpEvent::AuxCopied);
    assert_eq!(s, DumpState::AuxTablesCopied);
    let s = advance(s, DumpEvent::DryRunPassed);
    assert_eq!(s, DumpState::DryRunExecuted);
    let s = advance(s, DumpEvent::Finished);
    assert_eq!(s, DumpState::Done);
}

#[test]
fn session_completes_without_dry_run() {
    let s = advance(DumpState::AuxTablesCopied, DumpEvent::Finished);
    assert_eq!(s, DumpState::Done);
}

#[test]
fn session_store_creation_failure_ends_invocation() {
    let s = advance(
        DumpState::Idle,
        DumpEvent::SliceFailed(DumpError::StoreCreationFailed),
    );
    assert_eq!(s, DumpState::Failed(DumpError::StoreCreationFailed));
}

#[test]
fn session_invalid_range_fails_before_any_store_exists() {
    let s = advance(DumpState::Idle, DumpEvent::SliceFailed(DumpError::InvalidRange));
    assert_eq!(s, DumpState::Failed(DumpError::InvalidRange));
}

#[test]
fn session_aux_copy_failure_is_copy_failed() {
    let s = advance(DumpState::SliceBuilt, DumpEvent::AuxCopyFailed);
    assert_eq!(s, DumpState::Failed(DumpError::CopyFailed));
}

#[test]
fn session_dry_run_failure_carries_stage_error() {
    let e = DumpError::StageExecutionFailed {
        stage: StageId::StorageHashing,
        from: 4,
        to: 11,
        detail: String::from("stage fell over"),
    };
    let s = advance(DumpState::AuxTablesCopied, DumpEvent::DryRunFailed(e));
    match s {
        DumpState::Failed(DumpError::StageExecutionFailed { stage, from, to, detail }) => {
            assert_eq!(stage, StageId::StorageHashing);
            assert_eq!(from, 4);
            assert_eq!(to, 11);
            assert_eq!(detail, "stage fell over");
        }
        other => panic!("unexpected state {:?}", other),
    }
}

#[test]
fn session_failed_is_absorbing() {
    let s = advance(
        DumpState::Failed(DumpError::EmptySlice),
        DumpEvent::AuxCopied,
    );
    assert_eq!(s, DumpState::Failed(DumpError::EmptySlice));
}

#[test]
fn session_done_is_terminal() {
    let s = advance(DumpState::Done, DumpEvent::SliceReady);
    assert_eq!(s, DumpState::Done);
}

#[test]
fn session_ignores_out_of_protocol_events() {
    let s = advance(DumpState::Idle, DumpEvent::AuxCopied);
    assert_eq!(s, DumpState::Idle);
    let s = advance(DumpState::SliceBuilt, DumpEvent::DryRunPassed);
    assert_eq!(s, DumpState::SliceBuilt);
}
