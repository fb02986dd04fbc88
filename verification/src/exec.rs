//! What the execution of one instruction can end in, and the pieces of
//! context that several instructions share: the MAC halves, the 64-bit
//! register pairs of the FPU banks, and the store-queue prefetch.

use vstd::prelude::*;
use crate::alu::{wrap32, signed32, signed16};
use crate::cpu::{Sh4Ctx, MemTarget, spec_read_mem, spec_write_ok, mem_written, sext_read};
use crate::mem::{le_bytes, store_le, store_bytes};
use crate::regs::{FpscrEffects, MacRegParts, bit_of};

verus! {

/// How the execution of one instruction ended.
#[derive(Clone, Copy, PartialEq, Eq, Structural, Debug)]
pub enum ExecOutcome {
    /// The instruction completed.
    Done,
    /// A memory access met an unmapped region or ran past a buffer; the
    /// context is as it was before the instruction.
    Fault,
    /// A floating-point instruction: it is left to the host FPU, and the
    /// context is as it was before the instruction.
    Float,
    /// FPSCR was loaded; the host FPU must follow these changes.
    Fpscr(FpscrEffects),
    /// `TRAPA #imm`, with its immediate; the context is unchanged.
    Trap(u32),
    /// The BIOS emulation trap; the context is unchanged.
    BiosTrap,
    /// An opcode that encodes no instruction; the context is unchanged.
    Unknown,
}

/// `c` is `o` with register `i` set to `v`.
pub open spec fn only_r(o: Sh4Ctx, c: Sh4Ctx, i: int, v: u32) -> bool {
    c == (Sh4Ctx { r: c.r, ..o }) && c.r@ == o.r@.update(i, v)
}

/// `c` is `o` with the T flag set to `t`.
pub open spec fn only_t(o: Sh4Ctx, c: Sh4Ctx, t: u32) -> bool {
    c == (Sh4Ctx { sr_t: t, ..o })
}

/// `c` is `o` with register `i` set to `v` and the T flag set to `t`.
pub open spec fn only_r_t(o: Sh4Ctx, c: Sh4Ctx, i: int, v: u32, t: u32) -> bool {
    c == (Sh4Ctx { r: c.r, sr_t: t, ..o }) && c.r@ == o.r@.update(i, v)
}

/// A store of `size` bytes of `data` at `addr`: done when the write is
/// taken, a fault (with nothing changed) when it is not.
pub open spec fn store_post(o: Sh4Ctx, c: Sh4Ctx, out: ExecOutcome, addr: u32, size: u8, data: u64) -> bool {
    &&& out == (if spec_write_ok(o, addr, size) { ExecOutcome::Done } else { ExecOutcome::Fault })
    &&& mem_written(o, c, addr, size, data)
}

/// A store with pre-decrement: the write at `addr` and then register `i`
/// set to `new_rn`; a refused write is a fault that changes nothing.
pub open spec fn store_dec_post(o: Sh4Ctx, c: Sh4Ctx, out: ExecOutcome, i: int, addr: u32, size: u8, data: u64, new_rn: u32) -> bool {
    if !spec_write_ok(o, addr, size) {
        out == ExecOutcome::Fault && c == o
    } else {
        &&& out == ExecOutcome::Done
        &&& c.r@ == o.r@.update(i, new_rn)
        &&& mem_written(o, Sh4Ctx { r: o.r, ..c }, addr, size, data)
    }
}

/// MACL, the low half of MAC.
pub open spec fn mac_l(m: u64) -> u32 {
    (m % 0x1_0000_0000) as u32
}

/// MACH, the high half of MAC.
pub open spec fn mac_h(m: u64) -> u32 {
    (m / 0x1_0000_0000) as u32
}

/// MAC with MACL replaced by `l`.
pub open spec fn with_mac_l(m: u64, l: u32) -> u64 {
    (mac_h(m) * 0x1_0000_0000 + l) as u64
}

/// MAC with MACH replaced by `h`.
pub open spec fn with_mac_h(m: u64, h: u32) -> u64 {
    (h * 0x1_0000_0000 + mac_l(m)) as u64
}

/// The two halves of MAC.
pub fn mac_parts(m: u64) -> (p: MacRegParts)
    ensures
        p.l == mac_l(m),
        p.h == mac_h(m),
{
    MacRegParts { l: (m % 0x1_0000_0000) as u32, h: (m / 0x1_0000_0000) as u32 }
}

/// MAC with MACL replaced.
pub fn with_mac_l_exec(m: u64, l: u32) -> (r: u64)
    ensures
        r == with_mac_l(m, l),
{
    (m / 0x1_0000_0000) * 0x1_0000_0000 + l as u64
}

/// MAC with MACH replaced.
pub fn with_mac_h_exec(m: u64, h: u32) -> (r: u64)
    ensures
        r == with_mac_h(m, h),
{
    (h as u64) * 0x1_0000_0000 + m % 0x1_0000_0000
}

/// The 32-bit two's-complement bits of a signed immediate.
pub fn imm_bits(i: i32) -> (r: u32)
    ensures
        r == wrap32(i as int),
{
    if i >= 0 {
        i as u32
    } else {
        (0x1_0000_0000i64 + i as i64) as u32
    }
}

/// A sign-extended half-word read lies in the signed 16-bit range.
pub proof fn lemma_sext_read16(v: u64)
    ensures
        -0x8000 <= signed32(sext_read(v, 2)) < 0x8000,
{
    let x = (v % 0x1_0000) as u32;
    assert(signed16(x) < 0x8000 && signed16(x) >= -0x8000);
}

/// The 64-bit register pair `k` of the FPU banks: an even `k` names
/// FR[k], FR[k+1] and an odd one XF[k-1], XF[k]; the lower-numbered
/// register holds the low word.
pub open spec fn pair_of(o: Sh4Ctx, k: int) -> u64 {
    if k % 2 == 0 {
        (o.fr[k] + o.fr[k + 1] * 0x1_0000_0000) as u64
    } else {
        (o.xf[k - 1] + o.xf[k] * 0x1_0000_0000) as u64
    }
}

/// `c` is `o` with register pair `k` set to `v`.
pub open spec fn pair_set(o: Sh4Ctx, c: Sh4Ctx, k: int, v: u64) -> bool {
    let lo = (v % 0x1_0000_0000) as u32;
    let hi = (v / 0x1_0000_0000) as u32;
    if k % 2 == 0 {
        c == (Sh4Ctx { fr: c.fr, ..o }) && c.fr@ == o.fr@.update(k, lo).update(k + 1, hi)
    } else {
        c == (Sh4Ctx { xf: c.xf, ..o }) && c.xf@ == o.xf@.update(k - 1, lo).update(k, hi)
    }
}

/// Reads register pair `k`.
pub fn get_pair(ctx: &Sh4Ctx, k: usize) -> (v: u64)
    requires
        k < 16,
    ensures
        v == pair_of(*ctx, k as int),
{
    if k % 2 == 0 {
        ctx.fr[k] as u64 + ctx.fr[k + 1] as u64 * 0x1_0000_0000
    } else {
        ctx.xf[k - 1] as u64 + ctx.xf[k] as u64 * 0x1_0000_0000
    }
}

/// Writes register pair `k`.
pub fn set_pair(ctx: &mut Sh4Ctx, k: usize, v: u64)
    requires
        k < 16,
    ensures
        pair_set(*old(ctx), *final(ctx), k as int, v),
{
    let lo = (v % 0x1_0000_0000) as u32;
    let hi = (v / 0x1_0000_0000) as u32;
    if k % 2 == 0 {
        ctx.fr[k] = lo;
        ctx.fr[k + 1] = hi;
    } else {
        ctx.xf[k - 1] = lo;
        ctx.xf[k] = hi;
    }
}

/// The register banks after SR went from `old_sr` to `new_sr`, with `r`
/// and `b` the general and banked registers before: exchanged when RB
/// changed, kept otherwise.
pub open spec fn banks_after(old_sr: u32, new_sr: u32, r: Seq<u32>, b: Seq<u32>, c: Sh4Ctx) -> bool {
    if bit_of(old_sr, 29) != bit_of(new_sr, 29) {
        &&& forall|i: int| 0 <= i < 8 ==> c.r[i] == b[i] && c.r_bank[i] == r[i]
        &&& forall|i: int| 8 <= i < 16 ==> c.r[i] == r[i]
    } else {
        c.r@ == r && c.r_bank@ == b
    }
}

/// The FPU banks after FPSCR went from `old_f` to `new_f`: the first
/// sixteen words of FR and XF exchanged when FR changed, kept otherwise.
pub open spec fn fpu_banks_after(old_f: u32, new_f: u32, o: Sh4Ctx, c: Sh4Ctx) -> bool {
    if bit_of(old_f, 21) != bit_of(new_f, 21) {
        &&& forall|i: int| 0 <= i < 16 ==> c.fr[i] == o.xf[i] && c.xf[i] == o.fr[i]
        &&& forall|i: int| 16 <= i < 32 ==> c.fr[i] == o.fr[i] && c.xf[i] == o.xf[i]
    } else {
        c.fr == o.fr && c.xf == o.xf
    }
}

/// What a load of FPSCR from `old_f` to `new_f` asks of the host FPU.
pub open spec fn fpscr_effects(old_f: u32, new_f: u32) -> FpscrEffects {
    FpscrEffects {
        rounding_mode: if (old_f ^ new_f) & 3 != 0 { Some(new_f & 3) } else { None },
        denormals_zero: if bit_of(old_f, 18) != bit_of(new_f, 18) { Some(bit_of(new_f, 18)) } else { None },
    }
}

/// Whether an address lies in the store-queue area 0xE000_0000..0xE3FF_FFFF.
pub open spec fn sq_area(a: u32) -> bool {
    a / 0x400_0000 == 0x38
}

/// The store queue an address selects (bit 5).
pub open spec fn sq_index(a: u32) -> int {
    ((a / 32) % 2) as int
}

/// Where a store-queue flush of `a` goes: the QACR area of the selected
/// queue, with the address bits 5..25 of `a`.
pub open spec fn sq_dest(o: Sh4Ctx, a: u32) -> u32 {
    let base = if sq_index(a) == 0 { o.p4.qacr0_base } else { o.p4.qacr1_base };
    base | (a & 0x03FF_FFE0)
}

/// The little-endian bytes of a sequence of words.
pub open spec fn words_le(w: Seq<u32>) -> Seq<u8>
    decreases w.len(),
{
    if w.len() == 0 {
        Seq::empty()
    } else {
        words_le(w.drop_last()) + le_bytes(w.last() as nat, 4)
    }
}

/// `PREF @Rn`: outside the store-queue area a cache hint with no effect;
/// inside it, the 32 bytes of the selected queue are written to RAM at
/// the queue's destination. A destination without RAM behind it, or
/// beyond its buffer, is a fault that changes nothing.
pub open spec fn pref_post(o: Sh4Ctx, c: Sh4Ctx, a: u32, out: ExecOutcome) -> bool {
    if !sq_area(a) {
        out == ExecOutcome::Done && c == o
    } else {
        let d = sq_dest(o, a);
        let off = o.offset(d);
        let q = sq_index(a);
        match o.memmap[Sh4Ctx::region(d)] {
            MemTarget::Buffer { start, limit } => if start + off + 32 <= limit {
                &&& out == ExecOutcome::Done
                &&& c == (Sh4Ctx { ram: c.ram, ..o })
                &&& c.ram@ == o.ram@.subrange(0, start + off)
                    + words_le(o.sq_both@.subrange(8 * q, 8 * q + 8))
                    + o.ram@.subrange(start + off + 32, o.ram.len() as int)
            } else {
                out == ExecOutcome::Fault && c == o
            },
            MemTarget::Handler(_) => out == ExecOutcome::Fault && c == o,
        }
    }
}

proof fn lemma_words_le_len(w: Seq<u32>)
    ensures
        words_le(w).len() == 4 * w.len(),
    decreases w.len(),
{
    if w.len() > 0 {
        lemma_words_le_len(w.drop_last());
        lemma_le_bytes_len4(w.last() as nat);
    }
}

proof fn lemma_le_bytes_len4(v: nat)
    ensures
        le_bytes(v, 4).len() == 4,
{
    reveal_with_fuel(le_bytes, 5);
}

/// Copies the eight words `w` into RAM at `idx`, little-endian.
fn copy_words(ram: &mut Vec<u8>, idx: usize, w: &[u32; 16], first: usize)
    requires
        first == 0 || first == 8,
        idx + 32 <= old(ram).len(),
    ensures
        final(ram)@.len() == old(ram)@.len(),
        final(ram)@ == old(ram)@.subrange(0, idx as int) + words_le(w@.subrange(first as int, first + 8))
            + old(ram)@.subrange(idx + 32, old(ram).len() as int),
{
    let ghost o = old(ram)@;
    let mut k: usize = 0;
    proof {
        assert(w@.subrange(first as int, first as int) =~= Seq::<u32>::empty());
        assert(o =~= o.subrange(0, idx as int) + words_le(w@.subrange(first as int, first as int))
            + o.subrange(idx as int, o.len() as int));
    }
    while k < 8
        invariant
            k <= 8,
            first == 0 || first == 8,
            idx + 32 <= o.len(),
            ram@.len() == o.len(),
            idx + 32 <= ram.len(),
            ram@ == o.subrange(0, idx as int) + words_le(w@.subrange(first as int, first + k))
                + o.subrange(idx + 4 * k, o.len() as int),
        decreases 8 - k,
    {
        let ghost before = ram@;
        let ghost ws = w@.subrange(first as int, first + k);
        let ghost ws1 = w@.subrange(first as int, first + k + 1);
        proof {
            lemma_words_le_len(ws);
            lemma_words_le_len(ws1);
            assert(ws1.drop_last() =~= ws);
            assert(ws1.last() == w@[first + k]);
        }
        store_le(ram, idx + 4 * k, 4, w[first + k] as u64);
        proof {
            lemma_le_bytes_len4(w@[first + k] as nat);
            assert(words_le(ws1) == words_le(ws) + le_bytes(w@[first + k] as nat, 4));
            assert(ram@ =~= o.subrange(0, idx as int) + words_le(ws1)
                + o.subrange(idx + 4 * (k + 1), o.len() as int));
        }
        k = k + 1;
    }
}

/// `PREF @Rn`.
pub fn sh4_pref(ctx: &mut Sh4Ctx, a: u32) -> (out: ExecOutcome)
    requires
        old(ctx).wf(),
    ensures
        final(ctx).wf(),
        pref_post(*old(ctx), *final(ctx), a, out),
{
    if a / 0x400_0000 != 0x38 {
        return ExecOutcome::Done;
    }
    let q: usize = ((a / 32) % 2) as usize;
    let base = if q == 0 { ctx.p4.qacr0_base } else { ctx.p4.qacr1_base };
    let d = base | (a & 0x03FF_FFE0);
    let region = (d / 0x100_0000) as usize;
    let off = d & ctx.memmask[region];
    proof {
        crate::bits::lemma_mask_u32(d);
    }
    match ctx.memmap[region] {
        MemTarget::Buffer { start, limit } => {
            if limit < 32 || start > limit - 32 || off as usize > limit - 32 - start {
                return ExecOutcome::Fault;
            }
            let idx = start + off as usize;
            copy_words(&mut ctx.ram, idx, &ctx.sq_both, 8 * q);
            assert(forall|i: int| 0 <= i < 256 ==> #[trigger] ctx.memmap[i] == old(ctx).memmap[i]);
            ExecOutcome::Done
        },
        MemTarget::Handler(_) => ExecOutcome::Fault,
    }
}

/// Writing one half of MAC leaves the other: MACL reads back what was
/// written to it and MACH is kept, and the other way round.
pub proof fn lemma_mac_halves(m: u64, v: u32)
    ensures
        mac_l(with_mac_l(m, v)) == v,
        mac_h(with_mac_l(m, v)) == mac_h(m),
        mac_h(with_mac_h(m, v)) == v,
        mac_l(with_mac_h(m, v)) == mac_l(m),
{
    let h = mac_h(m);
    let l = mac_l(m);
    assert(h * 0x1_0000_0000 + v < 0x1_0000_0000_0000_0000) by (nonlinear_arith)
        requires h < 0x1_0000_0000, v < 0x1_0000_0000;
    assert(v * 0x1_0000_0000 + l < 0x1_0000_0000_0000_0000) by (nonlinear_arith)
        requires l < 0x1_0000_0000, v < 0x1_0000_0000;
    assert((h * 0x1_0000_0000 + v) % 0x1_0000_0000 == v && (h * 0x1_0000_0000 + v) / 0x1_0000_0000 == h) by (nonlinear_arith)
        requires v < 0x1_0000_0000, h >= 0;
    assert((v * 0x1_0000_0000 + l) % 0x1_0000_0000 == l && (v * 0x1_0000_0000 + l) / 0x1_0000_0000 == v) by (nonlinear_arith)
        requires l < 0x1_0000_0000, v >= 0;
}

/// A register pair reads back the value written to it.
pub proof fn lemma_pair_read_back(o: Sh4Ctx, c: Sh4Ctx, k: int, v: u64)
    requires
        0 <= k < 16,
        pair_set(o, c, k, v),
    ensures
        pair_of(c, k) == v,
{
    let lo = v % 0x1_0000_0000;
    let hi = v / 0x1_0000_0000;
    assert(lo + hi * 0x1_0000_0000 == v) by (nonlinear_arith)
        requires lo == v % 0x1_0000_0000, hi == v / 0x1_0000_0000;
    if k % 2 == 0 {
        assert(c.fr[k] == lo && c.fr[k + 1] == hi);
    } else {
        assert(c.xf[k - 1] == lo && c.xf[k] == hi);
    }
}

} // verus!
