//! Ordered tables of key-value records, and the range importer that copies a
//! bounded key window from one table into a fresh one.

use vstd::prelude::*;

verus! {

/// One record of a table: a block-number key and the record's exact value bytes.
#[derive(Clone, Debug, PartialEq, Eq)]
pub struct Record {
    pub key: u64,
    pub value: Vec<u8>,
}

impl View for Record {
    type V = (u64, Seq<u8>);

    open spec fn view(&self) -> (u64, Seq<u8>) {
        (self.key, self.value@)
    }
}

/// The key `key` lies in the inclusive window `[lo, hi]`.
pub open spec fn in_window(lo: int, hi: int, key: u64) -> bool {
    lo <= key && key <= hi
}

/// The subsequence of `s` whose keys lie in the inclusive window `[lo, hi]`,
/// in their original order and with their exact value bytes.
pub open spec fn window(s: Seq<(u64, Seq<u8>)>, lo: int, hi: int) -> Seq<(u64, Seq<u8>)>
    decreases s.len(),
{
    if s.len() == 0 {
        Seq::empty()
    } else {
        let init = window(s.drop_last(), lo, hi);
        if in_window(lo, hi, s.last().0) {
            init.push(s.last())
        } else {
            init
        }
    }
}

/// Keys strictly increase along `s`: ordered by key, one record per key.
pub open spec fn strictly_sorted(s: Seq<(u64, Seq<u8>)>) -> bool {
    forall|i: int, j: int| 0 <= i < j < s.len() ==> (#[trigger] s[i]).0 < (#[trigger] s[j]).0
}

/// Some record of `s` carries the key `k`.
pub open spec fn has_key(s: Seq<(u64, Seq<u8>)>, k: u64) -> bool {
    exists|i: int| 0 <= i < s.len() && (#[trigger] s[i]).0 == k
}

/// The record views of `rs`.
pub open spec fn views_of(rs: Seq<Record>) -> Seq<(u64, Seq<u8>)> {
    rs.map_values(|r: Record| r@)
}

/// An ordered table: records sorted by strictly increasing key.
#[derive(Clone, Debug, PartialEq, Eq)]
pub struct Table {
    pub records: Vec<Record>,
}

impl View for Table {
    type V = Seq<(u64, Seq<u8>)>;

    open spec fn view(&self) -> Seq<(u64, Seq<u8>)> {
        views_of(self.records@)
    }
}

impl Table {
    /// The table's records stand in strictly increasing key order.
    pub open spec fn wf(&self) -> bool {
        strictly_sorted(self@)
    }

    pub fn new() -> (t: Table)
        ensures
            t@ == Seq::<(u64, Seq<u8>)>::empty(),
            t.wf(),
    {
        let t = Table { records: Vec::new() };
        proof {
            assert(t@ =~= Seq::<(u64, Seq<u8>)>::empty());
        }
        t
    }

    /// Appends a record whose key exceeds every key already present.
    pub fn push_record(&mut self, key: u64, value: Vec<u8>)
        requires
            old(self)@.len() == 0 || old(self)@.last().0 < key,
        ensures
            final(self)@ == old(self)@.push((key, value@)),
            old(self).wf() ==> final(self).wf(),
    {
        let ghost pre = self.records@;
        self.records.push(Record { key, value });
        proof {
            lemma_views_push(pre, self.records@.last());
            assert(self.records@.drop_last() =~= pre);
            assert(self@ =~= views_of(pre).push((key, self.records@.last().value@)));
        }
    }

    /// The number of records the table holds.
    pub fn len(&self) -> (n: usize)
        ensures
            n == self@.len(),
    {
        self.records.len()
    }

    /// The key of the record at position `i`.
    pub fn key_at(&self, i: usize) -> (k: u64)
        requires
            i < self@.len(),
        ensures
            k == self@[i as int].0,
    {
        self.records[i].key
    }
}

/// Record views commute with appending a record.
pub proof fn lemma_views_push(rs: Seq<Record>, r: Record)
    ensures
        views_of(rs.push(r)) =~= views_of(rs).push(r@),
{
}

/// An owned copy of a record's value bytes.
fn copy_value(v: &Vec<u8>) -> (r: Vec<u8>)
    ensures
        r@ == v@,
{
    let mut r: Vec<u8> = Vec::new();
    let mut i: usize = 0;
    while i < v.len()
        invariant
            i <= v.len(),
            r@ == v@.take(i as int),
        decreases v.len() - i,
    {
        r.push(v[i]);
        i += 1;
        proof {
            assert(v@.take(i as int) =~= v@.take(i - 1).push(v@[i - 1]));
        }
    }
    proof {
        assert(v@.take(v@.len() as int) =~= v@);
    }
    r
}

/// One step of the window taken record by record from the front.
proof fn lemma_window_take_succ(s: Seq<(u64, Seq<u8>)>, lo: int, hi: int, i: int)
    requires
        0 <= i < s.len(),
    ensures
        window(s.take(i + 1), lo, hi) == (if in_window(lo, hi, s[i].0) {
            window(s.take(i), lo, hi).push(s[i])
        } else {
            window(s.take(i), lo, hi)
        }),
{
    let t = s.take(i + 1);
    assert(t.drop_last() =~= s.take(i));
    assert(t.last() == s[i]);
}

/// A window holds exactly the records of `s` whose keys lie in `[lo, hi]`:
/// every such record, with its exact value bytes, and no others.
pub proof fn lemma_window_contains(s: Seq<(u64, Seq<u8>)>, lo: int, hi: int, e: (u64, Seq<u8>))
    ensures
        window(s, lo, hi).contains(e) <==> s.contains(e) && in_window(lo, hi, e.0),
    decreases s.len(),
{
    if s.len() == 0 {
    } else {
        let d = s.drop_last();
        lemma_window_contains(d, lo, hi, e);
        assert(s.contains(e) <==> d.contains(e) || e == s.last()) by {
            if s.contains(e) {
                let i = choose|i: int| 0 <= i < s.len() && s[i] == e;
                if i < s.len() - 1 {
                    assert(d[i] == e);
                }
            }
            if d.contains(e) {
                let i = choose|i: int| 0 <= i < d.len() && d[i] == e;
                assert(s[i] == e);
            }
            if e == s.last() {
                assert(s[s.len() - 1] == e);
            }
        };
        let wd = window(d, lo, hi);
        if in_window(lo, hi, s.last().0) {
            let w = wd.push(s.last());
            assert(w.contains(e) <==> wd.contains(e) || e == s.last()) by {
                if w.contains(e) {
                    let i = choose|i: int| 0 <= i < w.len() && w[i] == e;
                    if i < w.len() - 1 {
                        assert(wd[i] == e);
                    }
                }
                if wd.contains(e) {
                    let i = choose|i: int| 0 <= i < wd.len() && wd[i] == e;
                    assert(w[i] == e);
                }
                if e == s.last() {
                    assert(w[w.len() - 1] == e);
                }
            };
        }
    }
}

/// A window of a strictly sorted sequence is strictly sorted.
pub proof fn lemma_window_sorted(s: Seq<(u64, Seq<u8>)>, lo: int, hi: int)
    requires
        strictly_sorted(s),
    ensures
        strictly_sorted(window(s, lo, hi)),
    decreases s.len(),
{
    if s.len() == 0 {
    } else {
        let d = s.drop_last();
        assert(strictly_sorted(d)) by {
            assert forall|i: int, j: int| 0 <= i < j < d.len() implies (#[trigger] d[i]).0 < (
            #[trigger] d[j]).0 by {
                assert(d[i] == s[i] && d[j] == s[j]);
            }
        };
        lemma_window_sorted(d, lo, hi);
        let wd = window(d, lo, hi);
        if in_window(lo, hi, s.last().0) {
            let w = wd.push(s.last());
            assert forall|i: int| 0 <= i < wd.len() implies (#[trigger] wd[i]).0 < s.last().0 by {
                assert(wd.contains(wd[i]));
                lemma_window_contains(d, lo, hi, wd[i]);
                let j = choose|j: int| 0 <= j < d.len() && d[j] == wd[i];
                assert(s[j] == d[j]);
                assert(s[j].0 < s[s.len() - 1].0);
            }
            assert forall|i: int, j: int| 0 <= i < j < w.len() implies (#[trigger] w[i]).0 < (
            #[trigger] w[j]).0 by {
                if j < w.len() - 1 {
                    assert(w[i] == wd[i] && w[j] == wd[j]);
                } else {
                    assert(w[i] == wd[i] && w[j] == s.last());
                }
            }
        }
    }
}

/// Copies every record of `source` whose key lies in the inclusive range
/// `[lo, hi]` into a fresh table, preserving key order and exact value bytes.
pub fn import_range(source: &Table, lo: u64, hi: u64) -> (dest: Table)
    requires
        source.wf(),
    ensures
        dest@ == window(source@, lo as int, hi as int),
        dest.wf(),
{
    let mut out: Vec<Record> = Vec::new();
    let mut i: usize = 0;
    proof {
        assert(source@.take(0) =~= Seq::<(u64, Seq<u8>)>::empty());
        assert(views_of(out@) =~= Seq::<(u64, Seq<u8>)>::empty());
    }
    let n = source.records.len();
    while i < n
        invariant
            i <= n,
            n == source.records.len(),
            views_of(out@) == window(source@.take(i as int), lo as int, hi as int),
        decreases n - i,
    {
        let r = &source.records[i];
        proof {
            assert(source@[i as int] == source.records@[i as int]@);
        }
        if lo <= r.key && r.key <= hi {
            let ghost pre = out@;
            let copied = Record { key: r.key, value: copy_value(&r.value) };
            proof {
                assert(copied@ == source@[i as int]);
            }
            out.push(copied);
            proof {
                lemma_views_push(pre, out@.last());
                assert(out@.drop_last() =~= pre);
                assert(views_of(out@) =~= views_of(pre).push(source@[i as int]));
            }
        }
        i += 1;
        proof {
            lemma_window_take_succ(source@, lo as int, hi as int, i - 1);
        }
    }
    proof {
        assert(source@.take(source@.len() as int) =~= source@);
    }
    let dest = Table { records: out };
    proof {
        lemma_window_sorted(source@, lo as int, hi as int);
    }
    dest
}

} // verus!
