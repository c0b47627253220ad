//! A store: the fixed set of named, ordered tables that the dump reads and
//! writes. The persistence engine behind a real store is an external
//! collaborator; this type holds the table contents themselves.

use vstd::prelude::*;
use crate::table::{import_range, window, Table};

verus! {

/// The closed set of tables a dump may copy: the primary index table and the
/// auxiliary tables the four stages read.
#[derive(Clone, Copy, Debug, PartialEq, Eq, Structural)]
pub enum TableId {
    /// The primary index table, keyed by block number; bounds every slice.
    BlockBodyIndices,
    /// Block headers, read by the execution stage.
    Headers,
    /// Transaction bodies, read by the execution stage.
    Transactions,
    /// Recovered transaction senders, read by the execution stage.
    Senders,
    /// Per-block account change sets, read by the account hashing stage.
    AccountChangeSets,
    /// Per-block storage change sets, read by the storage hashing stage.
    StorageChangeSets,
    /// Hashed account state, read by the merkle stage.
    HashedAccounts,
    /// Hashed storage state, read by the merkle stage.
    HashedStorages,
}

/// A store: one ordered table per member of the closed table set.
#[derive(Clone, Debug, PartialEq, Eq)]
pub struct Store {
    pub block_body_indices: Table,
    pub headers: Table,
    pub transactions: Table,
    pub senders: Table,
    pub account_change_sets: Table,
    pub storage_change_sets: Table,
    pub hashed_accounts: Table,
    pub hashed_storages: Table,
}

impl Store {
    /// The table that `id` names.
    pub open spec fn spec_table(&self, id: TableId) -> Table {
        match id {
            TableId::BlockBodyIndices => self.block_body_indices,
            TableId::Headers => self.headers,
            TableId::Transactions => self.transactions,
            TableId::Senders => self.senders,
            TableId::AccountChangeSets => self.account_change_sets,
            TableId::StorageChangeSets => self.storage_change_sets,
            TableId::HashedAccounts => self.hashed_accounts,
            TableId::HashedStorages => self.hashed_storages,
        }
    }

    /// Every table of the store is ordered.
    pub open spec fn wf(&self) -> bool {
        forall|id: TableId| (#[trigger] self.spec_table(id)).wf()
    }

    /// A brand-new store: every table empty.
    pub fn new_empty() -> (s: Store)
        ensures
            forall|id: TableId| (#[trigger] s.spec_table(id))@ == Seq::<(u64, Seq<u8>)>::empty(),
            s.wf(),
    {
        Store {
            block_body_indices: Table::new(),
            headers: Table::new(),
            transactions: Table::new(),
            senders: Table::new(),
            account_change_sets: Table::new(),
            storage_change_sets: Table::new(),
            hashed_accounts: Table::new(),
            hashed_storages: Table::new(),
        }
    }

    /// A borrow of the table that `id` names.
    pub fn table(&self, id: TableId) -> (t: &Table)
        ensures
            *t == self.spec_table(id),
    {
        match id {
            TableId::BlockBodyIndices => &self.block_body_indices,
            TableId::Headers => &self.headers,
            TableId::Transactions => &self.transactions,
            TableId::Senders => &self.senders,
            TableId::AccountChangeSets => &self.account_change_sets,
            TableId::StorageChangeSets => &self.storage_change_sets,
            TableId::HashedAccounts => &self.hashed_accounts,
            TableId::HashedStorages => &self.hashed_storages,
        }
    }

    /// Replaces the table `id` of this store with the records of the same
    /// table of `source` whose keys lie in the inclusive range `[lo, hi]`;
    /// every other table is left untouched. The source store is only read.
    pub fn import_table(&mut self, source: &Store, id: TableId, lo: u64, hi: u64)
        requires
            source.wf(),
            old(self).wf(),
        ensures
            final(self).spec_table(id)@ == window(source.spec_table(id)@, lo as int, hi as int),
            forall|t: TableId| t != id ==> #[trigger] final(self).spec_table(t) == old(
                self,
            ).spec_table(t),
            final(self).wf(),
    {
        assert(source.spec_table(id).wf());
        let copied = import_range(source.table(id), lo, hi);
        match id {
            TableId::BlockBodyIndices => self.block_body_indices = copied,
            TableId::Headers => self.headers = copied,
            TableId::Transactions => self.transactions = copied,
            TableId::Senders => self.senders = copied,
            TableId::AccountChangeSets => self.account_change_sets = copied,
            TableId::StorageChangeSets => self.storage_change_sets = copied,
            TableId::HashedAccounts => self.hashed_accounts = copied,
            TableId::HashedStorages => self.hashed_storages = copied,
        }
        proof {
            assert forall|t: TableId| (#[trigger] self.spec_table(t)).wf() by {
                if t != id {
                    assert(self.spec_table(t) == old(self).spec_table(t));
                }
            }
        }
    }
}

} // verus!
