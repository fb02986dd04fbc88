//! Comparing two opcode tables key by key: each table is ordered by key
//! (entries with the same key keep their table order), and the two orders
//! are walked side by side.

use vstd::prelude::*;
use crate::dec::sh4_opcodelistentry;
use crate::dreamcast::chars_eq_str;
use crate::text::str_chars;

verus! {

/// How two opcode tables differ at one key.
#[derive(Clone, Copy, PartialEq, Eq, Structural, Debug)]
pub enum OpcodeDiff {
    /// Both tables have an entry with this key, and the two differ in mask,
    /// template or pattern name: the position in the new table and in the
    /// old.
    Differs(usize, usize),
    /// Only the new table has an entry with this key, at this position.
    NewOnly(usize),
    /// Only the old table has an entry with this key, at this position.
    OldOnly(usize),
}

/// The positions among the first `upto` entries of `l` whose key is `k`, in
/// table order.
pub open spec fn positions_with_key(l: Seq<sh4_opcodelistentry>, k: int, upto: int) -> Seq<usize>
    decreases upto,
{
    if upto <= 0 {
        Seq::empty()
    } else {
        positions_with_key(l, k, upto - 1) + if l[upto - 1].key == k { seq![(upto - 1) as usize] } else { Seq::empty() }
    }
}

/// The positions of `l` whose keys are below `k`, ordered by key, positions
/// with the same key in table order: `l` sorted stably by key.
pub open spec fn key_order(l: Seq<sh4_opcodelistentry>, k: int) -> Seq<usize>
    decreases k,
{
    if k <= 0 {
        Seq::empty()
    } else {
        key_order(l, k - 1) + positions_with_key(l, k - 1, l.len() as int)
    }
}

/// Whether two entries with the same key differ.
pub open spec fn entries_differ(x: sh4_opcodelistentry, y: sh4_opcodelistentry) -> bool {
    x.mask != y.mask || x.diss@ != y.diss@ || x.handler_name@ != y.handler_name@
}

/// What remains to be walked of the two positions `i` in `a`, `j` in `b`.
pub open spec fn merge_measure(a: Seq<usize>, b: Seq<usize>, i: int, j: int) -> int {
    (if i < a.len() { a.len() - i } else { 0 }) + (if j < b.len() { b.len() - j } else { 0 })
}

/// The differences found walking `a` (positions of `new` in key order) from
/// `i` and `b` (positions of `old` in key order) from `j`: at equal keys the
/// pair is reported when the entries differ and both walks move on; at
/// unequal keys the smaller is reported as present in its table only and
/// its walk moves on; once one walk is done, the rest of the other is
/// reported as present only there.
pub open spec fn merge_diff(
    new: Seq<sh4_opcodelistentry>,
    old: Seq<sh4_opcodelistentry>,
    a: Seq<usize>,
    b: Seq<usize>,
    i: int,
    j: int,
) -> Seq<OpcodeDiff>
    decreases merge_measure(a, b, i, j),
{
    if 0 <= i < a.len() && 0 <= j < b.len() {
        let x = new[a[i] as int];
        let y = old[b[j] as int];
        if x.key == y.key {
            (if entries_differ(x, y) { seq![OpcodeDiff::Differs(a[i], b[j])] } else { Seq::empty() })
                + merge_diff(new, old, a, b, i + 1, j + 1)
        } else if x.key < y.key {
            seq![OpcodeDiff::NewOnly(a[i])] + merge_diff(new, old, a, b, i + 1, j)
        } else {
            seq![OpcodeDiff::OldOnly(b[j])] + merge_diff(new, old, a, b, i, j + 1)
        }
    } else if 0 <= i < a.len() {
        seq![OpcodeDiff::NewOnly(a[i])] + merge_diff(new, old, a, b, i + 1, j)
    } else if 0 <= j < b.len() {
        seq![OpcodeDiff::OldOnly(b[j])] + merge_diff(new, old, a, b, i, j + 1)
    } else {
        Seq::empty()
    }
}

proof fn lemma_positions_bound(l: Seq<sh4_opcodelistentry>, k: int, upto: int)
    requires
        0 <= upto <= l.len(),
    ensures
        positions_with_key(l, k, upto).len() <= upto,
        forall|t: int| 0 <= t < positions_with_key(l, k, upto).len() ==>
            (#[trigger] positions_with_key(l, k, upto)[t]) < upto,
    decreases upto,
{
    if upto > 0 {
        lemma_positions_bound(l, k, upto - 1);
    }
}

/// The positions of `l` sorted stably by key.
fn sorted_by_key(l: &Vec<sh4_opcodelistentry>) -> (v: Vec<usize>)
    ensures
        v@ == key_order(l@, 0x10000),
        forall|t: int| 0 <= t < v.len() ==> (#[trigger] v@[t]) < l.len(),
{
    let mut v: Vec<usize> = Vec::new();
    let mut k: u32 = 0;
    while k < 0x10000
        invariant
            k <= 0x10000,
            v@ == key_order(l@, k as int),
            forall|t: int| 0 <= t < v.len() ==> (#[trigger] v@[t]) < l.len(),
        decreases 0x10000 - k,
    {
        let mut i: usize = 0;
        while i < l.len()
            invariant
                k < 0x10000,
                i <= l.len(),
                v@ == key_order(l@, k as int) + positions_with_key(l@, k as int, i as int),
                forall|t: int| 0 <= t < v.len() ==> (#[trigger] v@[t]) < l.len(),
            decreases l.len() - i,
        {
            let ghost before = v@;
            if l[i].key as u32 == k {
                v.push(i);
            }
            proof {
                let k_int = k as int;
                assert(positions_with_key(l@, k_int, i + 1) == positions_with_key(l@, k_int, i as int)
                    + if l@[i as int].key == k_int { seq![i] } else { Seq::<usize>::empty() });
                assert(v@ =~= key_order(l@, k_int) + positions_with_key(l@, k_int, i + 1));
            }
            i = i + 1;
        }
        proof {
            assert(key_order(l@, k + 1) == key_order(l@, k as int) + positions_with_key(l@, k as int, l.len() as int));
        }
        k = k + 1;
    }
    v
}

proof fn lemma_merge_self(l: Seq<sh4_opcodelistentry>, a: Seq<usize>, i: int)
    requires
        0 <= i <= a.len(),
        forall|t: int| 0 <= t < a.len() ==> (#[trigger] a[t]) < l.len(),
    ensures
        merge_diff(l, l, a, a, i, i) == Seq::<OpcodeDiff>::empty(),
    decreases a.len() - i,
{
    if i < a.len() {
        lemma_merge_self(l, a, i + 1);
        assert(!entries_differ(l[a[i] as int], l[a[i] as int]));
        assert(merge_diff(l, l, a, a, i, i) =~= merge_diff(l, l, a, a, i + 1, i + 1));
    }
}

proof fn lemma_key_order_bound(l: Seq<sh4_opcodelistentry>, k: int)
    ensures
        forall|t: int| 0 <= t < key_order(l, k).len() ==> (#[trigger] key_order(l, k)[t]) < l.len(),
    decreases k,
{
    if k > 0 {
        lemma_key_order_bound(l, k - 1);
        lemma_positions_bound(l, k - 1, l.len() as int);
        let a = key_order(l, k - 1);
        let b = positions_with_key(l, k - 1, l.len() as int);
        assert forall|t: int| 0 <= t < (a + b).len() implies #[trigger] (a + b)[t] < l.len() by {
            if t < a.len() {
                assert((a + b)[t] == a[t]);
            } else {
                assert((a + b)[t] == b[t - a.len()]);
            }
        }
    }
}

/// Comparing a table with itself reports no difference.
pub proof fn lemma_diff_self(l: Seq<sh4_opcodelistentry>)
    ensures
        merge_diff(l, l, key_order(l, 0x10000), key_order(l, 0x10000), 0, 0) == Seq::<OpcodeDiff>::empty(),
{
    lemma_key_order_bound(l, 0x10000);
    lemma_merge_self(l, key_order(l, 0x10000), 0);
}

/// Whether two strings hold the same characters.
fn str_eq(a: &str, b: &str) -> (r: bool)
    ensures
        r == (a@ == b@),
{
    chars_eq_str(&str_chars(a), b)
}

/// The differences between two opcode tables, in key order (see
/// `merge_diff`).
pub fn diff_opcodes(new: &Vec<sh4_opcodelistentry>, old: &Vec<sh4_opcodelistentry>) -> (d: Vec<OpcodeDiff>)
    ensures
        d@ == merge_diff(new@, old@, key_order(new@, 0x10000), key_order(old@, 0x10000), 0, 0),
{
    let a = sorted_by_key(new);
    let b = sorted_by_key(old);
    let ghost total = merge_diff(new@, old@, a@, b@, 0, 0);
    let mut out: Vec<OpcodeDiff> = Vec::new();
    let mut i: usize = 0;
    let mut j: usize = 0;
    while i < a.len() || j < b.len()
        invariant
            i <= a.len(),
            j <= b.len(),
            forall|t: int| 0 <= t < a.len() ==> (#[trigger] a@[t]) < new.len(),
            forall|t: int| 0 <= t < b.len() ==> (#[trigger] b@[t]) < old.len(),
            out@ + merge_diff(new@, old@, a@, b@, i as int, j as int) == total,
        decreases merge_measure(a@, b@, i as int, j as int),
    {
        let ghost rest = merge_diff(new@, old@, a@, b@, i as int, j as int);
        let ghost out0 = out@;
        let ghost i0 = i as int;
        let ghost j0 = j as int;
        if i < a.len() && j < b.len() {
            let x = new[a[i]];
            let y = old[b[j]];
            if x.key == y.key {
                if x.mask != y.mask || !str_eq(x.diss, y.diss) || !str_eq(x.handler_name, y.handler_name) {
                    out.push(OpcodeDiff::Differs(a[i], b[j]));
                }
                i = i + 1;
                j = j + 1;
            } else if x.key < y.key {
                out.push(OpcodeDiff::NewOnly(a[i]));
                i = i + 1;
            } else {
                out.push(OpcodeDiff::OldOnly(b[j]));
                j = j + 1;
            }
        } else if i < a.len() {
            out.push(OpcodeDiff::NewOnly(a[i]));
            i = i + 1;
        } else {
            out.push(OpcodeDiff::OldOnly(b[j]));
            j = j + 1;
        }
        proof {
            let added = out@.skip(out0.len() as int);
            assert(out@ =~= out0 + added);
            assert(rest == added + merge_diff(new@, old@, a@, b@, i as int, j as int));
            assert((out0 + added) + merge_diff(new@, old@, a@, b@, i as int, j as int)
                =~= out0 + (added + merge_diff(new@, old@, a@, b@, i as int, j as int)));
        }
    }
    assert(merge_diff(new@, old@, a@, b@, i as int, j as int) == Seq::<OpcodeDiff>::empty());
    assert(out@ =~= total);
    out
}

} // verus!
