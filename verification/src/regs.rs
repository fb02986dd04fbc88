//! Bit-field views of the SH-4 status register (SR) and the floating-point
//! status/control register (FPSCR), and the instructions that update them as
//! a whole.

use vstd::prelude::*;
use crate::alu::{sh4_frchg, sh4_rbank_switch, flag, wrap32};

verus! {

/// Whether bit `i` of `x` is set.
pub open spec fn bit_of(x: u32, i: u32) -> bool {
    (x >> i) & 1 == 1
}

/// `x` with bit `i` set to `v`.
pub open spec fn with_bit(x: u32, i: u32, v: bool) -> u32 {
    if v { x | (1u32 << i) } else { x & !(1u32 << i) }
}

/// Setting a bit changes that bit to the given value and no other bit.
pub proof fn lemma_with_bit(x: u32, i: u32, v: bool)
    requires
        i < 32,
    ensures
        bit_of(with_bit(x, i, v), i) == v,
        forall|j: u32| j < 32 && j != i ==> bit_of(with_bit(x, i, v), j) == bit_of(x, j),
{
    if v {
        assert((((x | (1u32 << i)) >> i) & 1) == 1) by (bit_vector)
            requires i < 32;
        assert forall|j: u32| j < 32 && j != i implies (((x | (1u32 << i)) >> j) & 1) == ((x >> j) & 1) by {
            assert((((x | (1u32 << i)) >> j) & 1) == ((x >> j) & 1)) by (bit_vector)
                requires i < 32, j < 32, j != i;
        }
    } else {
        assert((((x & !(1u32 << i)) >> i) & 1) == 0) by (bit_vector)
            requires i < 32;
        assert forall|j: u32| j < 32 && j != i implies (((x & !(1u32 << i)) >> j) & 1) == ((x >> j) & 1) by {
            assert((((x & !(1u32 << i)) >> j) & 1) == ((x >> j) & 1)) by (bit_vector)
                requires i < 32, j < 32, j != i;
        }
    }
}

fn get_bit(x: u32, i: u32) -> (r: bool)
    requires
        i < 32,
    ensures
        r == bit_of(x, i),
{
    (x >> i) & 1 == 1
}

fn put_bit(x: u32, i: u32, v: bool) -> (r: u32)
    requires
        i < 32,
    ensures
        r == with_bit(x, i, v),
{
    if v { x | (1u32 << i) } else { x & !(1u32 << i) }
}

/// The status register. Bit 0 (T) is kept apart in the CPU context while the
/// CPU runs; the other fields live here.
#[derive(Clone, Copy)]
pub struct SrStatus(pub u32);

impl SrStatus {
    /// The whole register.
    pub fn full(&self) -> (r: u32)
        ensures
            r == self.0,
    {
        self.0
    }

    /// Replaces the whole register.
    pub fn set_full(&mut self, v: u32)
        ensures
            final(self).0 == v,
    {
        self.0 = v;
    }

    /// T, bit 0.
    pub fn t(&self) -> (r: bool)
        ensures
            r == bit_of(self.0, 0),
    {
        get_bit(self.0, 0)
    }

    /// Sets T.
    pub fn set_t(&mut self, v: bool)
        ensures
            final(self).0 == with_bit(old(self).0, 0, v),
    {
        self.0 = put_bit(self.0, 0, v);
    }

    /// S, bit 1: saturation for multiply-accumulate.
    pub fn s(&self) -> (r: bool)
        ensures
            r == bit_of(self.0, 1),
    {
        get_bit(self.0, 1)
    }

    /// Sets S.
    pub fn set_s(&mut self, v: bool)
        ensures
            final(self).0 == with_bit(old(self).0, 1, v),
    {
        self.0 = put_bit(self.0, 1, v);
    }

    /// IMASK, bits 7..4: the interrupt mask level.
    pub fn imask(&self) -> (r: u32)
        ensures
            r == (self.0 >> 4) & 0xF,
            r < 16,
    {
        let x = self.0;
        let r = (x >> 4) & 0xF;
        assert(r < 16) by (bit_vector)
            requires r == (x >> 4) & 0xF;
        r
    }

    /// Sets IMASK to the low four bits of `v`.
    pub fn set_imask(&mut self, v: u32)
        ensures
            final(self).0 == (old(self).0 & !0xF0u32) | ((v & 0xF) << 4),
    {
        self.0 = (self.0 & !0xF0u32) | ((v & 0xF) << 4);
    }

    /// Q, bit 8: division quotient bit.
    pub fn q(&self) -> (r: bool)
        ensures
            r == bit_of(self.0, 8),
    {
        get_bit(self.0, 8)
    }

    /// Sets Q.
    pub fn set_q(&mut self, v: bool)
        ensures
            final(self).0 == with_bit(old(self).0, 8, v),
    {
        self.0 = put_bit(self.0, 8, v);
    }

    /// M, bit 9: division divisor sign.
    pub fn m(&self) -> (r: bool)
        ensures
            r == bit_of(self.0, 9),
    {
        get_bit(self.0, 9)
    }

    /// Sets M.
    pub fn set_m(&mut self, v: bool)
        ensures
            final(self).0 == with_bit(old(self).0, 9, v),
    {
        self.0 = put_bit(self.0, 9, v);
    }

    /// FD, bit 15: FPU disable.
    pub fn fd(&self) -> (r: bool)
        ensures
            r == bit_of(self.0, 15),
    {
        get_bit(self.0, 15)
    }

    /// Sets FD.
    pub fn set_fd(&mut self, v: bool)
        ensures
            final(self).0 == with_bit(old(self).0, 15, v),
    {
        self.0 = put_bit(self.0, 15, v);
    }

    /// BL, bit 28: interrupts blocked.
    pub fn bl(&self) -> (r: bool)
        ensures
            r == bit_of(self.0, 28),
    {
        get_bit(self.0, 28)
    }

    /// Sets BL.
    pub fn set_bl(&mut self, v: bool)
        ensures
            final(self).0 == with_bit(old(self).0, 28, v),
    {
        self.0 = put_bit(self.0, 28, v);
    }

    /// RB, bit 29: the selected general register bank.
    pub fn rb(&self) -> (r: bool)
        ensures
            r == bit_of(self.0, 29),
    {
        get_bit(self.0, 29)
    }

    /// Sets RB.
    pub fn set_rb(&mut self, v: bool)
        ensures
            final(self).0 == with_bit(old(self).0, 29, v),
    {
        self.0 = put_bit(self.0, 29, v);
    }

    /// MD, bit 30: privileged mode.
    pub fn md(&self) -> (r: bool)
        ensures
            r == bit_of(self.0, 30),
    {
        get_bit(self.0, 30)
    }

    /// Sets MD.
    pub fn set_md(&mut self, v: bool)
        ensures
            final(self).0 == with_bit(old(self).0, 30, v),
    {
        self.0 = put_bit(self.0, 30, v);
    }
}

/// The floating-point status/control register.
#[derive(Clone, Copy)]
pub struct FpscrReg(pub u32);

impl FpscrReg {
    /// The whole register.
    pub fn full(&self) -> (r: u32)
        ensures
            r == self.0,
    {
        self.0
    }

    /// Replaces the whole register.
    pub fn set_full(&mut self, v: u32)
        ensures
            final(self).0 == v,
    {
        self.0 = v;
    }

    /// RM, bits 1..0: the rounding mode.
    pub fn rm(&self) -> (r: u32)
        ensures
            r == self.0 & 3,
    {
        self.0 & 3
    }

    /// DN, bit 18: denormals are treated as zero.
    pub fn dn(&self) -> (r: bool)
        ensures
            r == bit_of(self.0, 18),
    {
        get_bit(self.0, 18)
    }

    /// PR, bit 19: double-precision arithmetic.
    pub fn pr(&self) -> (r: bool)
        ensures
            r == bit_of(self.0, 19),
    {
        get_bit(self.0, 19)
    }

    /// Sets PR.
    pub fn set_pr(&mut self, v: bool)
        ensures
            final(self).0 == with_bit(old(self).0, 19, v),
    {
        self.0 = put_bit(self.0, 19, v);
    }

    /// SZ, bit 20: 64-bit register transfers.
    pub fn sz(&self) -> (r: bool)
        ensures
            r == bit_of(self.0, 20),
    {
        get_bit(self.0, 20)
    }

    /// Sets SZ.
    pub fn set_sz(&mut self, v: bool)
        ensures
            final(self).0 == with_bit(old(self).0, 20, v),
    {
        self.0 = put_bit(self.0, 20, v);
    }

    /// FR, bit 21: the selected floating-point bank.
    pub fn fr(&self) -> (r: bool)
        ensures
            r == bit_of(self.0, 21),
    {
        get_bit(self.0, 21)
    }

    /// Sets FR.
    pub fn set_fr(&mut self, v: bool)
        ensures
            final(self).0 == with_bit(old(self).0, 21, v),
    {
        self.0 = put_bit(self.0, 21, v);
    }
}

/// The two halves of the MAC register.
#[derive(Clone, Copy)]
pub struct MacRegParts {
    pub l: u32,
    pub h: u32,
}

/// `DIV0U`: clears M, Q and T before an unsigned division.
pub fn sh4_div0u(sr: &mut SrStatus, sr_t: &mut u32)
    ensures
        final(sr).0 == with_bit(with_bit(old(sr).0, 9, false), 8, false),
        *final(sr_t) == 0,
{
    sr.set_m(false);
    sr.set_q(false);
    *sr_t = 0;
}

/// `DIV0S Rm,Rn`: Q and M receive the signs of the dividend and divisor, T
/// whether they differ.
pub fn sh4_div0s(sr: &mut SrStatus, sr_t: &mut u32, src_n: u32, src_m: u32)
    ensures
        final(sr).0 == with_bit(with_bit(old(sr).0, 8, src_n >= 0x8000_0000), 9, src_m >= 0x8000_0000),
        *final(sr_t) == flag((src_n >= 0x8000_0000) != (src_m >= 0x8000_0000)),
{
    let q = (src_n >> 31) != 0;
    let m = (src_m >> 31) != 0;
    assert(q == (src_n >= 0x8000_0000) && m == (src_m >= 0x8000_0000)) by (bit_vector)
        requires q == ((src_n >> 31) != 0), m == ((src_m >> 31) != 0);
    sr.set_q(q);
    sr.set_m(m);
    *sr_t = if m != q { 1 } else { 0 };
}

/// One step of `DIV1 Rm,Rn`: the dividend is shifted left taking in T, then
/// the divisor is subtracted when Q equals M and added otherwise. The new Q is
/// the bit shifted out, combined with M and with the borrow or carry of that
/// step; T is set when the new Q equals M.
pub open spec fn div1_shifted(n: u32, t: u32) -> int {
    wrap32(2 * n + t) as int
}

/// The divisor used by a `DIV1` step (when Rm is Rn it is the shifted value).
pub open spec fn div1_divisor(n: u32, t: u32, m: u32, m_is_n: bool) -> int {
    if m_is_n { div1_shifted(n, t) } else { m as int }
}

/// The borrow (subtract case) or carry (add case) of a `DIV1` step.
pub open spec fn div1_out_bit(n: u32, t: u32, m: u32, m_is_n: bool, old_q: bool, sr_m: bool) -> bool {
    let rn0 = div1_shifted(n, t);
    let d = div1_divisor(n, t, m, m_is_n);
    if old_q == sr_m { rn0 - d < 0 } else { rn0 + d >= 0x1_0000_0000 }
}

/// The new dividend register after a `DIV1` step.
pub open spec fn div1_result(n: u32, t: u32, m: u32, m_is_n: bool, old_q: bool, sr_m: bool) -> u32 {
    let rn0 = div1_shifted(n, t);
    let d = div1_divisor(n, t, m, m_is_n);
    if old_q == sr_m { wrap32(rn0 - d) } else { wrap32(rn0 + d) }
}

/// The new Q after a `DIV1` step.
pub open spec fn div1_q(n: u32, t: u32, m: u32, m_is_n: bool, old_q: bool, sr_m: bool) -> bool {
    ((n >= 0x8000_0000) != sr_m) != div1_out_bit(n, t, m, m_is_n, old_q, sr_m)
}

/// `DIV1 Rm,Rn`. `m_is_n` tells whether Rm and Rn are the same register.
pub fn sh4_div1(sr: &mut SrStatus, sr_t: &mut u32, dst: &mut u32, src_n: u32, src_m: u32, m_is_n: bool)
    requires
        *old(sr_t) <= 1,
    ensures
        *final(dst) == div1_result(src_n, *old(sr_t), src_m, m_is_n, bit_of(old(sr).0, 8), bit_of(old(sr).0, 9)),
        final(sr).0 == with_bit(old(sr).0, 8, div1_q(src_n, *old(sr_t), src_m, m_is_n, bit_of(old(sr).0, 8), bit_of(old(sr).0, 9))),
        *final(sr_t) == flag(div1_q(src_n, *old(sr_t), src_m, m_is_n, bit_of(old(sr).0, 8), bit_of(old(sr).0, 9)) == bit_of(old(sr).0, 9)),
{
    let old_q: u32 = if sr.q() { 1 } else { 0 };
    let sr_m: u32 = if sr.m() { 1 } else { 0 };
    let old_t = *sr_t;
    let rn_val = src_n;

    let mut q = (rn_val >> 31) & 1;
    let mut rn = (rn_val << 1) | old_t;
    assert(q == flag(rn_val >= 0x8000_0000)) by (bit_vector)
        requires q == (rn_val >> 31) & 1;
    assert(rn == wrap32(2 * rn_val + old_t)) by {
        assert((rn_val << 1) | old_t == ((2 * rn_val + old_t) % 0x1_0000_0000) as u32) by (bit_vector)
            requires old_t <= 1;
    }
    let tmp0 = rn;

    let tmp2 = if m_is_n { rn } else { src_m };

    let tmp1: u32;

    if old_q == 0 {
        if sr_m == 0 {
            rn = rn.wrapping_sub(tmp2);
            tmp1 = if rn > tmp0 { 1 } else { 0 };
            q = if q == 0 { tmp1 } else { if tmp1 == 0 { 1 } else { 0 } };
        } else {
            rn = rn.wrapping_add(tmp2);
            tmp1 = if rn < tmp0 { 1 } else { 0 };
            q = if q == 0 { if tmp1 == 0 { 1 } else { 0 } } else { tmp1 };
        }
    } else {
        if sr_m == 0 {
            rn = rn.wrapping_add(tmp2);
            tmp1 = if rn < tmp0 { 1 } else { 0 };
            q = if q == 0 { tmp1 } else { if tmp1 == 0 { 1 } else { 0 } };
        } else {
            rn = rn.wrapping_sub(tmp2);
            tmp1 = if rn > tmp0 { 1 } else { 0 };
            q = if q == 0 { if tmp1 == 0 { 1 } else { 0 } } else { tmp1 };
        }
    }

    let new_t: u32 = if q == sr_m { 1 } else { 0 };

    *dst = rn;
    sr.set_q(q != 0);
    *sr_t = new_t;
}

/// The bits of SR that `LDC`/`RTE` can write.
pub open spec fn sr_write_mask() -> u32 {
    0x7000_83F2
}

/// The status register after a full SR load from `src`: the writable bits,
/// with RB forced to zero outside privileged mode.
pub open spec fn spec_sr_rest(src: u32) -> u32 {
    let v = src & sr_write_mask();
    if bit_of(v, 30) { v } else { v & !(1u32 << 29) }
}

/// Loads SR (without T) from `src`, exchanging the register banks when the
/// selected bank changes.
pub fn sh4_store_sr_rest(dst: &mut u32, src: u32, r: &mut [u32; 16], r_bank: &mut [u32; 8])
    ensures
        *final(dst) == spec_sr_rest(src),
        bit_of(*old(dst), 29) != bit_of(spec_sr_rest(src), 29) ==> {
            &&& forall|i: int| 0 <= i < 8 ==> final(r)[i] == old(r_bank)[i] && final(r_bank)[i] == old(r)[i]
            &&& forall|i: int| 8 <= i < 16 ==> final(r)[i] == old(r)[i]
        },
        bit_of(*old(dst), 29) == bit_of(spec_sr_rest(src), 29) ==> *final(r) == *old(r) && *final(r_bank) == *old(r_bank),
{
    let mut new_val = src & 0x7000_83F2;
    let old_val = *dst;

    let old_rb = (old_val >> 29) & 1;
    let new_rb = (new_val >> 29) & 1;
    let new_md = (new_val >> 30) & 1;
    assert(old_rb == flag(bit_of(old_val, 29)) && new_rb == flag(bit_of(new_val, 29)) && new_md == flag(bit_of(new_val, 30))) by (bit_vector)
        requires old_rb == (old_val >> 29) & 1, new_rb == (new_val >> 29) & 1, new_md == (new_val >> 30) & 1;

    if new_md != 0 {
        if old_rb != new_rb {
            sh4_rbank_switch(r, r_bank);
        }
    } else {
        let v0 = new_val;
        if new_rb != 0 {
            new_val = new_val & !(1u32 << 29);
        }
        assert(new_val == v0 & !(1u32 << 29)) by {
            assert(((v0 >> 29) & 1) == 0 ==> v0 & !(1u32 << 29) == v0) by (bit_vector);
        }
        assert(!bit_of(new_val, 29)) by {
            assert(((v0 & !(1u32 << 29)) >> 29) & 1 == 0) by (bit_vector);
        }
        if old_rb != 0 {
            sh4_rbank_switch(r, r_bank);
        }
    }

    *dst = new_val;
}

/// What a change of FPSCR asks of the host floating-point unit.
#[derive(Clone, Copy, PartialEq, Eq, Structural, Debug)]
pub struct FpscrEffects {
    /// The new rounding mode, when RM changed.
    pub rounding_mode: Option<u32>,
    /// The new denormals-as-zero setting, when DN changed.
    pub denormals_zero: Option<bool>,
}

/// Loads FPSCR from `src`. When FR changes the register banks are exchanged;
/// changes of RM and DN are returned for the host FPU to follow.
pub fn sh4_store_fpscr(dst: &mut u32, src: u32, fr: &mut [u32; 32], xf: &mut [u32; 32]) -> (eff: FpscrEffects)
    ensures
        *final(dst) == src,
        eff.rounding_mode == (if (*old(dst) ^ src) & 3 != 0 { Some(src & 3) } else { None::<u32> }),
        eff.denormals_zero == (if bit_of(*old(dst), 18) != bit_of(src, 18) { Some(bit_of(src, 18)) } else { None::<bool> }),
        bit_of(*old(dst), 21) != bit_of(src, 21) ==>
            forall|i: int| 0 <= i < 16 ==> final(fr)[i] == old(xf)[i] && final(xf)[i] == old(fr)[i],
        bit_of(*old(dst), 21) != bit_of(src, 21) ==>
            forall|i: int| 16 <= i < 32 ==> final(fr)[i] == old(fr)[i] && final(xf)[i] == old(xf)[i],
        bit_of(*old(dst), 21) == bit_of(src, 21) ==> *final(fr) == *old(fr) && *final(xf) == *old(xf),
{
    let new_val = src;
    let old_val = *dst;
    let changed = old_val ^ new_val;

    let rounding_mode = if changed & 0x3 != 0 { Some(new_val & 0x3) } else { None };

    let dn_changed = changed & (1u32 << 18) != 0;
    assert(dn_changed == (bit_of(old_val, 18) != bit_of(new_val, 18))) by (bit_vector)
        requires dn_changed == ((old_val ^ new_val) & (1u32 << 18) != 0);
    let denormals_zero = if dn_changed { Some(get_bit(new_val, 18)) } else { None };

    let fr_changed = changed & (1u32 << 21) != 0;
    assert(fr_changed == (bit_of(old_val, 21) != bit_of(new_val, 21))) by (bit_vector)
        requires fr_changed == ((old_val ^ new_val) & (1u32 << 21) != 0);
    if fr_changed {
        sh4_frchg(fr, xf);
    }

    *dst = new_val;
    FpscrEffects { rounding_mode, denormals_zero }
}

} // verus!
