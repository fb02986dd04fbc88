//! The SH-4 address map: 256 regions of 16 MiB, each backed by a RAM buffer
//! or by a device handler, and little-endian access to RAM buffers.

use vstd::prelude::*;
use vstd::arithmetic::div_mod::{lemma_div_denominator, lemma_mod_breakdown};

verus! {

/// The number of device handler slots.
pub const MAX_MEMHANDLERS: usize = 256;

/// 256^n
pub open spec fn pow256(n: nat) -> nat
    decreases n,
{
    if n == 0 { 1 } else { 256 * pow256((n - 1) as nat) }
}

/// The little-endian value of the `n` bytes of `b` that start at `i`.
pub open spec fn le_value(b: Seq<u8>, i: int, n: nat) -> nat
    decreases n,
{
    if n == 0 { 0 } else { b[i] as nat + 256 * le_value(b, i + 1, (n - 1) as nat) }
}

/// The `n` little-endian bytes of `v`, that is of `v` modulo 256^n.
pub open spec fn le_bytes(v: nat, n: nat) -> Seq<u8>
    decreases n,
{
    if n == 0 { Seq::empty() } else { seq![(v % 256) as u8] + le_bytes(v / 256, (n - 1) as nat) }
}

/// `b` with the `n` bytes at `i` replaced by the little-endian bytes of `v`.
pub open spec fn store_bytes(b: Seq<u8>, i: int, n: nat, v: nat) -> Seq<u8> {
    b.subrange(0, i) + le_bytes(v, n) + b.subrange(i + n, b.len() as int)
}

pub proof fn lemma_pow256_pos(n: nat)
    ensures
        pow256(n) > 0,
    decreases n,
{
    if n > 0 {
        lemma_pow256_pos((n - 1) as nat);
    }
}

proof fn lemma_pow256_8()
    ensures
        pow256(8) == 0x1_0000_0000_0000_0000,
{
    reveal_with_fuel(pow256, 9);
}

proof fn lemma_pow256_mono(a: nat, b: nat)
    requires
        a <= b,
    ensures
        pow256(a) <= pow256(b),
    decreases b,
{
    if a < b {
        lemma_pow256_mono(a, (b - 1) as nat);
        lemma_pow256_pos((b - 1) as nat);
    }
}

proof fn lemma_le_value_bound(b: Seq<u8>, i: int, n: nat)
    ensures
        le_value(b, i, n) < pow256(n),
    decreases n,
{
    if n > 0 {
        lemma_le_value_bound(b, i + 1, (n - 1) as nat);
    }
}

proof fn lemma_le_bytes_len(v: nat, n: nat)
    ensures
        le_bytes(v, n).len() == n,
    decreases n,
{
    if n > 0 {
        lemma_le_bytes_len(v / 256, (n - 1) as nat);
    }
}

proof fn lemma_le_bytes_index(v: nat, n: nat, j: int)
    requires
        0 <= j < n,
    ensures
        le_bytes(v, n)[j] == ((v / pow256(j as nat)) % 256) as u8,
    decreases n,
{
    lemma_le_bytes_len(v / 256, (n - 1) as nat);
    let rest = le_bytes(v / 256, (n - 1) as nat);
    assert(le_bytes(v, n) == seq![(v % 256) as u8] + rest);
    if j > 0 {
        lemma_le_bytes_index(v / 256, (n - 1) as nat, j - 1);
        lemma_pow256_pos((j - 1) as nat);
        lemma_div_denominator(v as int, 256, pow256((j - 1) as nat) as int);
        assert(pow256(j as nat) == 256 * pow256((j - 1) as nat));
        assert(le_bytes(v, n)[j] == rest[j - 1]);
        assert((v / 256) / pow256((j - 1) as nat) == v / pow256(j as nat));
    } else {
        assert(pow256(0) == 1);
        assert(v / pow256(0) == v);
        assert(le_bytes(v, n)[0] == (v % 256) as u8);
    }
}

/// The value read back from the bytes written for `v` is `v` modulo 256^n.
pub proof fn lemma_le_roundtrip(v: nat, n: nat)
    ensures
        le_value(le_bytes(v, n), 0, n) == v % pow256(n),
    decreases n,
{
    if n > 0 {
        lemma_le_roundtrip(v / 256, (n - 1) as nat);
        lemma_pow256_pos((n - 1) as nat);
        lemma_le_bytes_len(v / 256, (n - 1) as nat);
        let rest = le_bytes(v / 256, (n - 1) as nat);
        let all = le_bytes(v, n);
        assert(all == seq![(v % 256) as u8] + rest);
        assert forall|k: int| 1 <= k < 1 + (n - 1) implies #[trigger] all[k] == rest[k - 1 + 0] by {}
        lemma_le_value_frame(all, 1, rest, 0, (n - 1) as nat);
        lemma_mod_breakdown(v as int, 256, pow256((n - 1) as nat) as int);
    }
}

/// The value of a byte range depends only on those bytes.
pub proof fn lemma_le_value_frame(b: Seq<u8>, i: int, c: Seq<u8>, j: int, n: nat)
    requires
        forall|k: int| i <= k < i + n ==> #[trigger] b[k] == c[k - i + j],
    ensures
        le_value(b, i, n) == le_value(c, j, n),
    decreases n,
{
    if n > 0 {
        assert(b[i] == c[j]);
        assert forall|k: int| i + 1 <= k < i + 1 + (n - 1) implies #[trigger] b[k] == c[k - (i + 1) + (j + 1)] by {
            assert(b[k] == c[k - i + j]);
        }
        lemma_le_value_frame(b, i + 1, c, j + 1, (n - 1) as nat);
    }
}

/// Reads `size` little-endian bytes at `idx`.
pub fn load_le(buf: &Vec<u8>, idx: usize, size: usize) -> (v: u64)
    requires
        size <= 8,
        idx + size <= buf.len(),
    ensures
        v as nat == le_value(buf@, idx as int, size as nat),
{
    let mut v: u64 = 0;
    let mut k: usize = size;
    while k > 0
        invariant
            k <= size <= 8,
            idx + size <= buf.len(),
            v as nat == le_value(buf@, idx + k, (size - k) as nat),
        decreases k,
    {
        proof {
            lemma_le_value_bound(buf@, idx + k, (size - k) as nat);
            lemma_pow256_mono((size - k + 1) as nat, 8);
            lemma_pow256_8();
        }
        k = k - 1;
        let b = buf[idx + k];
        assert(v * 256 + b < 0x1_0000_0000_0000_0000) by {
            assert(pow256((size - k) as nat) == 256 * pow256((size - k - 1) as nat));
        }
        v = v * 256 + b as u64;
    }
    v
}

/// Writes the `size` little-endian bytes of `v` at `idx`.
pub fn store_le(buf: &mut Vec<u8>, idx: usize, size: usize, v: u64)
    requires
        size <= 8,
        idx + size <= old(buf).len(),
    ensures
        final(buf)@ == store_bytes(old(buf)@, idx as int, size as nat, v as nat),
{
    let ghost target = store_bytes(old(buf)@, idx as int, size as nat, v as nat);
    proof {
        lemma_le_bytes_len(v as nat, size as nat);
    }
    let mut w: u64 = v;
    let mut k: usize = 0;
    assert(pow256(0) == 1);
    while k < size
        invariant
            k <= size <= 8,
            idx + size <= buf.len(),
            buf.len() == old(buf).len(),
            target.len() == buf.len(),
            target == store_bytes(old(buf)@, idx as int, size as nat, v as nat),
            le_bytes(v as nat, size as nat).len() == size,
            w as nat == v as nat / pow256(k as nat),
            forall|j: int| 0 <= j < idx || idx + size <= j < buf.len() ==> buf@[j] == old(buf)@[j],
            forall|j: int| idx <= j < idx + k ==> buf@[j] == target[j],
            forall|j: int| idx + k <= j < idx + size ==> buf@[j] == old(buf)@[j],
        decreases size - k,
    {
        proof {
            lemma_le_bytes_index(v as nat, size as nat, k as int);
            lemma_pow256_pos(k as nat);
            lemma_div_denominator(v as int, pow256(k as nat) as int, 256);
            assert(target[idx + k] == le_bytes(v as nat, size as nat)[k as int]);
        }
        buf.set(idx + k, (w % 256) as u8);
        w = w / 256;
        k = k + 1;
        proof {
            assert(pow256(k as nat) == pow256((k - 1) as nat) * 256);
        }
    }
    assert(buf@ =~= target);
}

/// Writing `n` bytes and reading them back gives the value written modulo
/// 256^n; a byte range that does not overlap the written one reads as before.
pub proof fn lemma_store_then_load(b: Seq<u8>, i: int, n: nat, v: nat, j: int, m: nat)
    requires
        0 <= i,
        i + n <= b.len(),
        0 <= j,
        j + m <= b.len(),
    ensures
        store_bytes(b, i, n, v).len() == b.len(),
        le_value(store_bytes(b, i, n, v), i, n) == v % pow256(n),
        (j + m <= i || i + n <= j) ==> le_value(store_bytes(b, i, n, v), j, m) == le_value(b, j, m),
{
    lemma_le_bytes_len(v, n);
    let c = store_bytes(b, i, n, v);
    let bytes = le_bytes(v, n);
    assert(c.len() == b.len());
    assert forall|k: int| i <= k < i + n implies #[trigger] c[k] == bytes[k - i + 0] by {}
    lemma_le_value_frame(c, i, bytes, 0, n);
    lemma_le_roundtrip(v, n);
    if j + m <= i || i + n <= j {
        assert forall|k: int| j <= k < j + m implies #[trigger] c[k] == b[k - j + j] by {}
        lemma_le_value_frame(c, j, b, j, m);
    }
}

/// Reads a little-endian 32-bit word at `idx`.
pub fn load_u32(buf: &Vec<u8>, idx: usize) -> (v: u32)
    requires
        idx + 4 <= buf.len(),
    ensures
        v as nat == le_value(buf@, idx as int, 4),
{
    let w = load_le(buf, idx, 4);
    proof {
        lemma_le_value_bound(buf@, idx as int, 4);
        reveal_with_fuel(pow256, 5);
    }
    w as u32
}

/// Reads a little-endian 16-bit half-word at `idx`.
pub fn load_u16(buf: &Vec<u8>, idx: usize) -> (v: u16)
    requires
        idx + 2 <= buf.len(),
    ensures
        v as nat == le_value(buf@, idx as int, 2),
{
    let w = load_le(buf, idx, 2);
    proof {
        lemma_le_value_bound(buf@, idx as int, 2);
        reveal_with_fuel(pow256, 3);
    }
    w as u16
}

} // verus!
