//! The slice builder: creates a new, empty store, populates its primary index
//! table for the requested block range with one block of context on each
//! side, and resolves the tip — the highest block number present in the
//! slice.

use vstd::prelude::*;
use crate::errors::DumpError;
use crate::store::{Store, TableId};
use crate::table::{has_key, window};

verus! {

/// The lowest key a slice for `[from, to)` copies: one block of context
/// below `from`.
pub open spec fn slice_lo(from: u64) -> int {
    from - 1
}

/// The highest key a slice for `[from, to)` copies: one block of context
/// above `to`.
pub open spec fn slice_hi(to: u64) -> int {
    to + 1
}

/// The primary index records a slice for `[from, to)` of `source` holds.
pub open spec fn slice_primary(source: Store, from: u64, to: u64) -> Seq<(u64, Seq<u8>)> {
    window(source.spec_table(TableId::BlockBodyIndices)@, slice_lo(from), slice_hi(to))
}

/// What a successfully built slice looks like: a well-formed store whose
/// primary index table holds exactly the source records with keys in
/// `[from - 1, to + 1]`, whose other tables are still empty, and whose tip is
/// the highest block number present in the primary index table.
pub open spec fn slice_built(source: Store, from: u64, to: u64, dest: Store, tip: u64) -> bool {
    &&& dest.wf()
    &&& dest.spec_table(TableId::BlockBodyIndices)@ == slice_primary(source, from, to)
    &&& forall|t: TableId|
        t != TableId::BlockBodyIndices ==> (#[trigger] dest.spec_table(t))@ == Seq::<(
            u64,
            Seq<u8>,
        )>::empty()
    &&& has_key(dest.spec_table(TableId::BlockBodyIndices)@, tip)
    &&& forall|i: int|
        0 <= i < slice_primary(source, from, to).len() ==> (#[trigger] slice_primary(
            source,
            from,
            to,
        )[i]).0 <= tip
}

/// Builds the slice for `[from, to)`: a brand-new store whose primary index
/// table is populated from `source` over `[from - 1, to + 1]`, together with
/// the tip. The source store is only read. Fails with `EmptySlice` — and
/// only then — when the range yields no primary index record.
pub fn build_slice(source: &Store, from: u64, to: u64) -> (r: Result<(Store, u64), DumpError>)
    requires
        source.wf(),
        from < to,
        1 <= from,
        to < u64::MAX,
    ensures
        match r {
            Ok((dest, tip)) => slice_built(*source, from, to, dest, tip) && slice_primary(
                *source,
                from,
                to,
            ).len() > 0,
            Err(e) => e == DumpError::EmptySlice && slice_primary(*source, from, to).len() == 0,
        },
{
    let mut dest = Store::new_empty();
    dest.import_table(source, TableId::BlockBodyIndices, from - 1, to + 1);
    let ghost sp = slice_primary(*source, from, to);
    let primary = dest.table(TableId::BlockBodyIndices);
    let n = primary.len();
    if n == 0 {
        return Err(DumpError::EmptySlice);
    }
    let tip = primary.key_at(n - 1);
    proof {
        crate::table::lemma_window_sorted(
            source.spec_table(TableId::BlockBodyIndices)@,
            slice_lo(from),
            slice_hi(to),
        );
        assert(sp[sp.len() - 1].0 == tip);
        assert(has_key(dest.spec_table(TableId::BlockBodyIndices)@, tip));
        assert forall|i: int| 0 <= i < sp.len() implies (#[trigger] sp[i]).0 <= tip by {
            if i < sp.len() - 1 {
                assert(sp[i].0 < sp[sp.len() - 1].0);
            }
        }
    }
    Ok((dest, tip))
}

} // verus!
