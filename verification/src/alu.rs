//! Integer instruction semantics of the SH-4. Each operation reads its source
//! operands by value and writes its results through `&mut`, so a destination
//! may be the same register as a source.

use vstd::prelude::*;
use vstd::arithmetic::div_mod::{
    lemma_add_mod_noop, lemma_fundamental_div_mod, lemma_fundamental_div_mod_converse,
    lemma_mul_mod_noop_general,
};

verus! {

/// 2^32
pub open spec fn pow32() -> int {
    0x1_0000_0000
}

/// 2^64
pub open spec fn pow64() -> int {
    0x1_0000_0000_0000_0000
}

/// The 32-bit result of an integer computation, reduced modulo 2^32.
pub open spec fn wrap32(x: int) -> u32 {
    (x % pow32()) as u32
}

/// The 64-bit result of an integer computation, reduced modulo 2^64.
pub open spec fn wrap64(x: int) -> u64 {
    (x % pow64()) as u64
}

/// The two's-complement value of a 32-bit register.
pub open spec fn signed32(x: u32) -> int {
    if x < 0x8000_0000 { x as int } else { x as int - pow32() }
}

/// The two's-complement value of the low 16 bits of a register.
pub open spec fn signed16(x: u32) -> int {
    let h = x % 0x1_0000;
    if h < 0x8000 { h as int } else { h as int - 0x1_0000 }
}

/// The two's-complement value of the low 8 bits of a register.
pub open spec fn signed8(x: u32) -> int {
    let b = x % 0x100;
    if b < 0x80 { b as int } else { b as int - 0x100 }
}

/// The value of the T flag for a condition.
pub open spec fn flag(b: bool) -> u32 {
    if b { 1 } else { 0 }
}

proof fn lemma_signed32_mod(x: u32)
    ensures
        signed32(x) % pow32() == x as int,
{
}

proof fn lemma_wrap_signed_mul(a: u32, b: u32)
    ensures
        wrap32(signed32(a) * signed32(b)) == wrap32(a * b),
{
    lemma_signed32_mod(a);
    lemma_signed32_mod(b);
    lemma_mul_mod_noop_general(signed32(a), signed32(b), pow32());
    lemma_mul_mod_noop_general(a as int, b as int, pow32());
}

/// The two's-complement value of a register, as a machine integer.
fn to_signed(x: u32) -> (r: i64)
    ensures
        r == signed32(x),
{
    if x < 0x8000_0000 {
        x as i64
    } else {
        x as i64 - 0x1_0000_0000
    }
}

/// A signed 64-bit value in two's complement.
fn to_bits64(p: i64) -> (r: u64)
    ensures
        r == wrap64(p as int),
{
    if p >= 0 {
        p as u64
    } else {
        let q = (-(p + 1)) as u64;
        0xFFFF_FFFF_FFFF_FFFFu64 - q
    }
}

/// Sign-extends the low 16 bits of a register.
pub fn sext16(x: u32) -> (r: u32)
    ensures
        signed32(r) == signed16(x),
        r == wrap32(signed16(x)),
{
    let h = x & 0xFFFF;
    assert(h == x % 0x1_0000) by (bit_vector)
        requires h == x & 0xFFFF;
    if h < 0x8000 {
        h
    } else {
        h + 0xFFFF_0000
    }
}

/// Sign-extends the low 8 bits of a register.
pub fn sext8(x: u32) -> (r: u32)
    ensures
        signed32(r) == signed8(x),
        r == wrap32(signed8(x)),
{
    let b = x & 0xFF;
    assert(b == x % 0x100) by (bit_vector)
        requires b == x & 0xFF;
    if b < 0x80 {
        b
    } else {
        b + 0xFFFF_FF00
    }
}

/// `MUL.L Rm,Rn`: the low 32 bits of the signed product.
pub fn sh4_muls32(dst: &mut u32, src_n: u32, src_m: u32)
    ensures
        *final(dst) == wrap32(signed32(src_n) * signed32(src_m)),
{
    proof {
        lemma_wrap_signed_mul(src_n, src_m);
    }
    *dst = src_n.wrapping_mul(src_m);
}

/// Register move.
pub fn sh4_store32(dst: &mut u32, src: u32)
    ensures
        *final(dst) == src,
{
    *dst = src;
}

/// 64-bit register move.
pub fn sh4_store64(dst: &mut u64, src: u64)
    ensures
        *final(dst) == src,
{
    *dst = src;
}

/// Immediate move.
pub fn sh4_store32i(dst: &mut u32, imm: u32)
    ensures
        *final(dst) == imm,
{
    *dst = imm;
}

/// `AND Rm,Rn`.
pub fn sh4_and(dst: &mut u32, src_n: u32, src_m: u32)
    ensures
        *final(dst) == src_n & src_m,
{
    *dst = src_n & src_m;
}

/// `XOR Rm,Rn`.
pub fn sh4_xor(dst: &mut u32, src_n: u32, src_m: u32)
    ensures
        *final(dst) == src_n ^ src_m,
{
    *dst = src_n ^ src_m;
}

/// `OR Rm,Rn`.
pub fn sh4_or(dst: &mut u32, src_n: u32, src_m: u32)
    ensures
        *final(dst) == src_n | src_m,
{
    *dst = src_n | src_m;
}

/// `SUB Rm,Rn`: the difference modulo 2^32.
pub fn sh4_sub(dst: &mut u32, src_n: u32, src_m: u32)
    ensures
        *final(dst) == wrap32(src_n - src_m),
{
    *dst = src_n.wrapping_sub(src_m);
}

/// `ADD Rm,Rn`: the sum modulo 2^32.
pub fn sh4_add(dst: &mut u32, src_n: u32, src_m: u32)
    ensures
        *final(dst) == wrap32(src_n + src_m),
{
    *dst = src_n.wrapping_add(src_m);
}

/// `ADD #imm,Rn`: the immediate is already sign-extended to 32 bits.
pub fn sh4_addi(dst: &mut u32, src_n: u32, imm: u32)
    ensures
        *final(dst) == wrap32(src_n + imm),
{
    *dst = src_n.wrapping_add(imm);
}

/// AND with an immediate mask.
pub fn sh4_andi(dst: &mut u32, src: u32, imm: u32)
    ensures
        *final(dst) == src & imm,
{
    *dst = src & imm;
}

/// `NEG Rm,Rn`: the two's-complement negation.
pub fn sh4_neg(dst: &mut u32, src_n: u32)
    ensures
        *final(dst) == wrap32(0 - src_n),
{
    *dst = 0u32.wrapping_sub(src_n);
}

/// `EXTU.B Rm,Rn`: zero-extends the low byte.
pub fn sh4_extub(dst: &mut u32, src: u32)
    ensures
        *final(dst) == src % 0x100,
{
    let r = src & 0xFF;
    assert(r == src % 0x100) by (bit_vector)
        requires r == src & 0xFF;
    *dst = r;
}

/// `EXTU.W Rm,Rn`: zero-extends the low word.
pub fn sh4_extuw(dst: &mut u32, src: u32)
    ensures
        *final(dst) == src % 0x1_0000,
{
    let r = src & 0xFFFF;
    assert(r == src % 0x1_0000) by (bit_vector)
        requires r == src & 0xFFFF;
    *dst = r;
}

/// `EXTS.B Rm,Rn`: sign-extends the low byte.
pub fn sh4_extsb(dst: &mut u32, src: u32)
    ensures
        *final(dst) == wrap32(signed8(src)),
{
    *dst = sext8(src);
}

/// `EXTS.W Rm,Rn`: sign-extends the low word.
pub fn sh4_extsw(dst: &mut u32, src: u32)
    ensures
        *final(dst) == wrap32(signed16(src)),
{
    *dst = sext16(src);
}

/// `DT Rn`: decrements and sets T when the result is zero.
pub fn sh4_dt(sr_t: &mut u32, dst: &mut u32)
    ensures
        *final(dst) == wrap32(*old(dst) - 1),
        *final(sr_t) == flag(*old(dst) == 1),
{
    *dst = (*dst).wrapping_sub(1);
    *sr_t = if *dst == 0 { 1 } else { 0 };
}

/// `SHLR Rn`: logical shift right by one; T receives the bit shifted out.
pub fn sh4_shlr(sr_t: &mut u32, dst: &mut u32, src_n: u32)
    ensures
        *final(sr_t) == src_n % 2,
        *final(dst) == src_n / 2,
{
    let t = src_n & 1;
    let d = src_n >> 1;
    assert(t == src_n % 2 && d == src_n / 2) by (bit_vector)
        requires t == src_n & 1, d == src_n >> 1;
    *sr_t = t;
    *dst = d;
}

/// `SHLLn Rn`: logical shift left by a fixed amount.
pub fn sh4_shllf(dst: &mut u32, src_n: u32, amt: u32)
    requires
        amt < 32,
    ensures
        *final(dst) == src_n << amt,
{
    *dst = src_n << amt;
}

/// `SHLRn Rn`: logical shift right by a fixed amount.
pub fn sh4_shlrf(dst: &mut u32, src_n: u32, amt: u32)
    requires
        amt < 32,
    ensures
        *final(dst) == src_n >> amt,
{
    *dst = src_n >> amt;
}

/// `FNEG`: flips the sign bit of a single-precision value.
pub fn sh4_fneg(dst: &mut u32, src: u32)
    ensures
        *final(dst) == src ^ 0x8000_0000,
{
    *dst = src ^ 0x8000_0000;
}

/// `FABS`: clears the sign bit of a single-precision value.
pub fn sh4_fabs(dst: &mut u32, src: u32)
    ensures
        *final(dst) == src & 0x7FFF_FFFF,
{
    *dst = src & 0x7FFF_FFFF;
}

/// The result of `SHAD Rm,Rn`: a left shift by the low five bits of Rm when
/// Rm is non-negative, otherwise an arithmetic right shift by 32 minus them.
pub open spec fn spec_shad(n: u32, m: u32) -> u32 {
    if m & 0x8000_0000 == 0 {
        n << (m & 0x1F)
    } else if m & 0x1F == 0 {
        if n < 0x8000_0000 { 0 } else { 0xFFFF_FFFF }
    } else {
        wrap32(signed32(n) / pow2_32(32 - (m & 0x1F)))
    }
}

/// The result of `SHLD Rm,Rn`: as `SHAD`, with logical right shifts.
pub open spec fn spec_shld(n: u32, m: u32) -> u32 {
    if m & 0x8000_0000 == 0 {
        n << (m & 0x1F)
    } else if m & 0x1F == 0 {
        0
    } else {
        n >> (32 - (m & 0x1F)) as u32
    }
}

/// 2^k for a shift count below 32.
pub open spec fn pow2_32(k: int) -> int
    decreases k,
{
    if k <= 0 { 1 } else { 2 * pow2_32(k - 1) }
}

proof fn lemma_not_low5(m: u32)
    requires
        m & 0x1F != 0,
    ensures
        ((!m) & 0x1F) + 1 == 32 - (m & 0x1F),
        1 <= 32 - (m & 0x1F) <= 31,
{
    assert(((!m) & 0x1F) + 1 == 32 - (m & 0x1F) && (m & 0x1F) <= 31) by (bit_vector)
        requires m & 0x1F != 0;
}

/// Arithmetic shift right of a register by `k` places, 1 <= k <= 31.
fn sar32(n: u32, k: u32) -> (r: u32)
    requires
        1 <= k <= 31,
    ensures
        r == wrap32(signed32(n) / pow2_32(k as int)),
    decreases k,
{
    let half = if n < 0x8000_0000 { n >> 1 } else { (n >> 1) | 0x8000_0000 };
    assert(signed32(half) == signed32(n) / 2) by {
        if n < 0x8000_0000 {
            assert(n >> 1 == n / 2) by (bit_vector);
        } else {
            assert((n >> 1) | 0x8000_0000 == n / 2 + 0x8000_0000) by (bit_vector)
                requires n >= 0x8000_0000;
        }
    }
    if k == 1 {
        assert(pow2_32(1) == 2) by {
            assert(pow2_32(0) == 1);
        }
        half
    } else {
        let r = sar32(half, k - 1);
        proof {
            assert(pow2_32(k as int) == 2 * pow2_32(k - 1));
            lemma_pow2_pos(k - 1);
            lemma_floor_div_twice(signed32(n), 2, pow2_32(k - 1));
        }
        r
    }
}

proof fn lemma_floor_div_twice(x: int, c: int, d: int)
    requires
        0 < c,
        0 < d,
    ensures
        (x / c) / d == x / (c * d),
{
    lemma_fundamental_div_mod(x, c);
    lemma_fundamental_div_mod(x / c, d);
    let q2 = (x / c) / d;
    let r2 = (x / c) % d;
    let r1 = x % c;
    assert(x == q2 * (c * d) + (c * r2 + r1)) by (nonlinear_arith)
        requires
            x == c * (x / c) + r1,
            x / c == d * q2 + r2;
    assert(0 <= c * r2 + r1 < c * d) by (nonlinear_arith)
        requires
            0 <= r1 < c,
            0 <= r2 < d;
    lemma_fundamental_div_mod_converse(x, c * d, q2, c * r2 + r1);
}

proof fn lemma_pow2_pos(k: int)
    ensures
        pow2_32(k) > 0,
    decreases k,
{
    if k > 0 {
        lemma_pow2_pos(k - 1);
    }
}

/// `SHAD Rm,Rn`: dynamic arithmetic shift.
pub fn sh4_shad(dst: &mut u32, src_n: u32, src_m: u32)
    ensures
        *final(dst) == spec_shad(src_n, src_m),
{
    let sgn = src_m & 0x8000_0000;
    if sgn == 0 {
        assert(src_m & 0x1F < 32) by (bit_vector);
        *dst = src_n << (src_m & 0x1F);
    } else if (src_m & 0x1F) == 0 {
        *dst = if src_n < 0x8000_0000 { 0 } else { 0xFFFF_FFFF };
    } else {
        proof {
            lemma_not_low5(src_m);
        }
        *dst = sar32(src_n, ((!src_m) & 0x1F) + 1);
    }
}

/// `SHLD Rm,Rn`: dynamic logical shift.
pub fn sh4_shld(dst: &mut u32, src_n: u32, src_m: u32)
    ensures
        *final(dst) == spec_shld(src_n, src_m),
{
    let sgn = src_m & 0x8000_0000;
    if sgn == 0 {
        assert(src_m & 0x1F < 32) by (bit_vector);
        *dst = src_n << (src_m & 0x1F);
    } else if (src_m & 0x1F) == 0 {
        *dst = 0;
    } else {
        proof {
            lemma_not_low5(src_m);
        }
        *dst = src_n >> (((!src_m) & 0x1F) + 1);
    }
}

/// `NOT Rm,Rn`.
pub fn sh4_not(dst: &mut u32, src: u32)
    ensures
        *final(dst) == !src,
{
    *dst = !src;
}

/// The result of `SWAP.B Rm,Rn`: the two low bytes exchanged.
pub open spec fn spec_swapb(x: u32) -> u32 {
    (x & 0xFFFF_0000) | ((x & 0xFF) << 8) | ((x >> 8) & 0xFF)
}

/// The result of `SWAP.W Rm,Rn`: the two halves exchanged.
pub open spec fn spec_swapw(x: u32) -> u32 {
    (x << 16) | (x >> 16)
}

/// `SWAP.B` and `SWAP.W` undo themselves, `NOT` undoes itself, `ROTR`
/// undoes `ROTL` (and `ROTL` undoes `ROTR`), and toggling an FPSCR bit
/// twice (`FSCHG`, `FRCHG`) restores it.
pub proof fn lemma_alu_inverses(x: u32)
    by (bit_vector)
    ensures
        spec_swapb(spec_swapb(x)) == x,
        spec_swapw(spec_swapw(x)) == x,
        !(!x) == x,
        ((((x << 1u32) | (x >> 31u32)) >> 1u32) | ((((x << 1u32) | (x >> 31u32)) & 1) << 31u32)) == x,
        ((((x >> 1u32) | ((x & 1) << 31u32)) << 1u32) | (((x >> 1u32) | ((x & 1) << 31u32)) >> 31u32)) == x,
        (x ^ 0x10_0000) ^ 0x10_0000 == x,
        (x ^ 0x20_0000) ^ 0x20_0000 == x,
{
}

/// `SWAP.B Rm,Rn`.
pub fn sh4_swapb(dst: &mut u32, src: u32)
    ensures
        *final(dst) == spec_swapb(src),
{
    let rg = src;
    *dst = (rg & 0xFFFF_0000) | ((rg & 0xFF) << 8) | ((rg >> 8) & 0xFF);
}

/// `SWAP.W Rm,Rn`.
pub fn sh4_swapw(dst: &mut u32, src: u32)
    ensures
        *final(dst) == spec_swapw(src),
{
    *dst = (src << 16) | (src >> 16);
}

/// `XTRCT Rm,Rn`: the middle 32 bits of the 64-bit pair Rm:Rn.
pub fn sh4_xtrct(dst: &mut u32, src_n: u32, src_m: u32)
    ensures
        *final(dst) == ((src_n >> 16) & 0xFFFF) | ((src_m << 16) & 0xFFFF_0000),
{
    *dst = ((src_n >> 16) & 0xFFFF) | ((src_m << 16) & 0xFFFF_0000);
}

/// `CMP/EQ Rm,Rn`.
pub fn sh4_cmp_eq(sr_t: &mut u32, src_n: u32, src_m: u32)
    ensures
        *final(sr_t) == flag(src_n == src_m),
{
    *sr_t = if src_n == src_m { 1 } else { 0 };
}

/// `CMP/HS Rm,Rn`: unsigned Rn >= Rm.
pub fn sh4_cmp_hs(sr_t: &mut u32, src_n: u32, src_m: u32)
    ensures
        *final(sr_t) == flag(src_n >= src_m),
{
    *sr_t = if src_n >= src_m { 1 } else { 0 };
}

/// Signed comparison of two registers: `a >= b`.
fn signed_ge(a: u32, b: u32) -> (r: bool)
    ensures
        r == (signed32(a) >= signed32(b)),
{
    to_signed(a) >= to_signed(b)
}

/// `CMP/GE Rm,Rn`: signed Rn >= Rm.
pub fn sh4_cmp_ge(sr_t: &mut u32, src_n: u32, src_m: u32)
    ensures
        *final(sr_t) == flag(signed32(src_n) >= signed32(src_m)),
{
    *sr_t = if signed_ge(src_n, src_m) { 1 } else { 0 };
}

/// `CMP/HI Rm,Rn`: unsigned Rn > Rm.
pub fn sh4_cmp_hi(sr_t: &mut u32, src_n: u32, src_m: u32)
    ensures
        *final(sr_t) == flag(src_n > src_m),
{
    *sr_t = if src_n > src_m { 1 } else { 0 };
}

/// `CMP/GT Rm,Rn`: signed Rn > Rm.
pub fn sh4_cmp_gt(sr_t: &mut u32, src_n: u32, src_m: u32)
    ensures
        *final(sr_t) == flag(signed32(src_n) > signed32(src_m)),
{
    *sr_t = if to_signed(src_n) > to_signed(src_m) { 1 } else { 0 };
}

/// `CMP/PZ Rn`: signed Rn >= 0.
pub fn sh4_cmp_pz(sr_t: &mut u32, src: u32)
    ensures
        *final(sr_t) == flag(signed32(src) >= 0),
{
    *sr_t = if src < 0x8000_0000 { 1 } else { 0 };
}

/// `CMP/PL Rn`: signed Rn > 0.
pub fn sh4_cmp_pl(sr_t: &mut u32, src: u32)
    ensures
        *final(sr_t) == flag(signed32(src) > 0),
{
    *sr_t = if src != 0 && src < 0x8000_0000 { 1 } else { 0 };
}

/// `TST Rm,Rn`: T is set when the AND of the operands is zero.
pub fn sh4_tst(sr_t: &mut u32, src_n: u32, src_m: u32)
    ensures
        *final(sr_t) == flag(src_n & src_m == 0),
{
    *sr_t = if (src_n & src_m) == 0 { 1 } else { 0 };
}

/// `SHLL Rn`: shift left by one; T receives the bit shifted out.
pub fn sh4_shll(sr_t: &mut u32, dst: &mut u32, src_n: u32)
    ensures
        *final(sr_t) == src_n >> 31,
        *final(dst) == src_n << 1,
{
    *sr_t = src_n >> 31;
    *dst = src_n << 1;
}

/// `SHAL Rn`: arithmetic shift left by one, the same bits as `SHLL`.
pub fn sh4_shal(sr_t: &mut u32, dst: &mut u32, src_n: u32)
    ensures
        *final(sr_t) == src_n >> 31,
        *final(dst) == src_n << 1,
{
    *sr_t = src_n >> 31;
    *dst = src_n << 1;
}

/// `SHAR Rn`: arithmetic shift right by one; T receives the bit shifted out.
pub fn sh4_shar(sr_t: &mut u32, dst: &mut u32, src_n: u32)
    ensures
        *final(sr_t) == src_n % 2,
        *final(dst) == wrap32(signed32(src_n) / 2),
{
    let t = src_n & 1;
    assert(t == src_n % 2) by (bit_vector)
        requires t == src_n & 1;
    *sr_t = t;
    *dst = sar32(src_n, 1);
    assert(pow2_32(1) == 2) by {
        assert(pow2_32(0) == 1);
    }
}

/// `CMP/EQ #imm,R0`.
pub fn sh4_cmp_eq_imm(sr_t: &mut u32, src: u32, imm: u32)
    ensures
        *final(sr_t) == flag(src == imm),
{
    *sr_t = if src == imm { 1 } else { 0 };
}

/// `TST #imm,R0`.
pub fn sh4_tst_imm(sr_t: &mut u32, src: u32, imm: u32)
    ensures
        *final(sr_t) == flag(src & imm == 0),
{
    *sr_t = if (src & imm) == 0 { 1 } else { 0 };
}

/// `AND #imm,R0`.
pub fn sh4_and_imm(dst: &mut u32, src: u32, imm: u32)
    ensures
        *final(dst) == src & imm,
{
    *dst = src & imm;
}

/// `XOR #imm,R0`.
pub fn sh4_xor_imm(dst: &mut u32, src: u32, imm: u32)
    ensures
        *final(dst) == src ^ imm,
{
    *dst = src ^ imm;
}

/// `OR #imm,R0`.
pub fn sh4_or_imm(dst: &mut u32, src: u32, imm: u32)
    ensures
        *final(dst) == src | imm,
{
    *dst = src | imm;
}

/// `ROTCL Rn`: rotate left through T.
pub fn sh4_rotcl(sr_t: &mut u32, dst: &mut u32, src_n: u32)
    ensures
        *final(sr_t) == src_n >> 31,
        *final(dst) == (src_n << 1) | *old(sr_t),
{
    let t = *sr_t;
    *sr_t = src_n >> 31;
    *dst = (src_n << 1) | t;
}

/// `ROTL Rn`: rotate left; T receives the bit rotated around.
pub fn sh4_rotl(sr_t: &mut u32, dst: &mut u32, src_n: u32)
    ensures
        *final(sr_t) == src_n >> 31,
        *final(dst) == (src_n << 1) | (src_n >> 31),
{
    let t = src_n >> 31;
    *sr_t = t;
    *dst = (src_n << 1) | t;
}

/// `ROTCR Rn`: rotate right through T.
pub fn sh4_rotcr(sr_t: &mut u32, dst: &mut u32, src_n: u32)
    ensures
        *final(sr_t) == src_n & 1,
        *final(dst) == (src_n >> 1) | (*old(sr_t) << 31),
{
    let t = src_n & 1;
    *dst = (src_n >> 1) | ((*sr_t) << 31);
    *sr_t = t;
}

/// `ROTR Rn`: rotate right; T receives the bit rotated around.
pub fn sh4_rotr(sr_t: &mut u32, dst: &mut u32, src_n: u32)
    ensures
        *final(sr_t) == src_n & 1,
        *final(dst) == (src_n >> 1) | ((src_n & 1) << 31),
{
    let t = src_n & 1;
    *sr_t = t;
    *dst = (src_n >> 1) | (t << 31);
}

/// `MOVT Rn`.
pub fn sh4_movt(dst: &mut u32, sr_t: u32)
    ensures
        *final(dst) == sr_t,
{
    *dst = sr_t;
}

/// `CLRT`.
pub fn sh4_clrt(sr_t: &mut u32)
    ensures
        *final(sr_t) == 0,
{
    *sr_t = 0;
}

/// `SETT`.
pub fn sh4_sett(sr_t: &mut u32)
    ensures
        *final(sr_t) == 1,
{
    *sr_t = 1;
}

/// `NEGC Rm,Rn`: 0 - Rm - T; T receives the borrow.
pub fn sh4_negc(sr_t: &mut u32, dst: &mut u32, src: u32)
    ensures
        *final(dst) == wrap32(0 - src - *old(sr_t)),
        *final(sr_t) == flag(0 - src - *old(sr_t) < 0),
{
    let t = *sr_t;
    let tmp = 0u32.wrapping_sub(src);
    let res = tmp.wrapping_sub(t);
    *dst = res;
    *sr_t = if tmp > 0 { 1 } else { 0 };
    if tmp < res {
        *sr_t = 1;
    }
}

/// `ADDC Rm,Rn`: sum with carry in; T receives the carry out.
pub fn sh4_addc(sr_t: &mut u32, dst: &mut u32, src_n: u32, src_m: u32)
    ensures
        *final(dst) == wrap32(src_n + src_m + *old(sr_t)),
        *final(sr_t) == flag(src_n + src_m + *old(sr_t) >= pow32()),
{
    let tmp1 = src_n.wrapping_add(src_m);
    let tmp0 = src_n;
    let res = tmp1.wrapping_add(*sr_t);
    *dst = res;
    *sr_t = if tmp0 > tmp1 { 1 } else { 0 };
    if tmp1 > res {
        *sr_t = 1;
    }
}

/// `SUBC Rm,Rn`: difference with borrow in; T receives the borrow out.
pub fn sh4_subc(sr_t: &mut u32, dst: &mut u32, src_n: u32, src_m: u32)
    ensures
        *final(dst) == wrap32(src_n - src_m - *old(sr_t)),
        *final(sr_t) == flag(src_n - src_m - *old(sr_t) < 0),
{
    let tmp1 = src_n.wrapping_sub(src_m);
    let tmp0 = src_n;
    let res = tmp1.wrapping_sub(*sr_t);
    *dst = res;
    *sr_t = if tmp0 < tmp1 { 1 } else { 0 };
    if tmp1 < res {
        *sr_t = 1;
    }
}

/// Whether a signed sum or difference leaves the 32-bit range.
pub open spec fn overflows32(x: int) -> bool {
    x >= 0x8000_0000 || x < -0x8000_0000
}

/// `ADDV Rm,Rn`: sum; T is set on signed overflow.
pub fn sh4_addv(sr_t: &mut u32, dst: &mut u32, src_n: u32, src_m: u32)
    ensures
        *final(dst) == wrap32(src_n + src_m),
        *final(sr_t) == flag(overflows32(signed32(src_n) + signed32(src_m))),
{
    let br = to_signed(src_n) + to_signed(src_m);
    *sr_t = if br >= 0x8000_0000 || br < -0x8000_0000i64 { 1 } else { 0 };
    *dst = src_n.wrapping_add(src_m);
}

/// `SUBV Rm,Rn`: difference; T is set on signed underflow or overflow.
pub fn sh4_subv(sr_t: &mut u32, dst: &mut u32, src_n: u32, src_m: u32)
    ensures
        *final(dst) == wrap32(src_n - src_m),
        *final(sr_t) == flag(overflows32(signed32(src_n) - signed32(src_m))),
{
    let br = to_signed(src_n) - to_signed(src_m);
    *sr_t = if br >= 0x8000_0000 || br < -0x8000_0000i64 { 1 } else { 0 };
    *dst = src_n.wrapping_sub(src_m);
}

/// `MULU.W Rm,Rn`: unsigned product of the low words.
pub fn sh4_muluw(dst: &mut u32, src_n: u32, src_m: u32)
    ensures
        *final(dst) == (src_n % 0x1_0000) * (src_m % 0x1_0000),
{
    let a = src_n & 0xFFFF;
    let b = src_m & 0xFFFF;
    assert(a == src_n % 0x1_0000 && b == src_m % 0x1_0000) by (bit_vector)
        requires a == src_n & 0xFFFF, b == src_m & 0xFFFF;
    assert(a * b <= 0xFFFF * 0xFFFF) by (nonlinear_arith)
        requires a <= 0xFFFF, b <= 0xFFFF;
    *dst = a * b;
}

/// `MULS.W Rm,Rn`: signed product of the low words.
pub fn sh4_mulsw(dst: &mut u32, src_n: u32, src_m: u32)
    ensures
        *final(dst) == wrap32(signed16(src_n) * signed16(src_m)),
{
    let a = sext16(src_n);
    let b = sext16(src_m);
    proof {
        lemma_wrap_signed_mul(a, b);
    }
    *dst = a.wrapping_mul(b);
}

/// Whether two registers agree in at least one byte position.
pub open spec fn some_byte_equal(n: u32, m: u32) -> bool {
    ||| (n ^ m) & 0xFF00_0000 == 0
    ||| (n ^ m) & 0x00FF_0000 == 0
    ||| (n ^ m) & 0x0000_FF00 == 0
    ||| (n ^ m) & 0x0000_00FF == 0
}

/// `CMP/STR Rm,Rn`: T is set when any byte of Rn equals the byte of Rm at the
/// same position.
pub fn sh4_cmp_str(sr_t: &mut u32, src_n: u32, src_m: u32)
    ensures
        *final(sr_t) == flag(some_byte_equal(src_n, src_m)),
{
    let temp = src_n ^ src_m;
    let hh = (temp & 0xFF00_0000) == 0;
    let hl = (temp & 0x00FF_0000) == 0;
    let lh = (temp & 0x0000_FF00) == 0;
    let ll = (temp & 0x0000_00FF) == 0;
    *sr_t = if hh || hl || lh || ll { 1 } else { 0 };
}

/// `DMULU.L Rm,Rn`: the full unsigned 64-bit product.
pub fn sh4_dmulu(dst: &mut u64, src_n: u32, src_m: u32)
    ensures
        *final(dst) == src_n * src_m,
{
    assert(src_n * src_m <= 0xFFFF_FFFF * 0xFFFF_FFFF) by (nonlinear_arith)
        requires src_n <= 0xFFFF_FFFF, src_m <= 0xFFFF_FFFF;
    *dst = (src_n as u64) * (src_m as u64);
}

/// The signed 64-bit product of two registers.
fn signed_product(a: u32, b: u32) -> (r: i64)
    ensures
        r == signed32(a) * signed32(b),
{
    let x = to_signed(a);
    let y = to_signed(b);
    assert(-0x4000_0000_0000_0000 <= x * y <= 0x4000_0000_0000_0000) by (nonlinear_arith)
        requires -0x8000_0000 <= x <= 0x8000_0000, -0x8000_0000 <= y <= 0x8000_0000;
    x * y
}

/// `DMULS.L Rm,Rn`: the full signed 64-bit product.
pub fn sh4_dmuls(dst: &mut u64, src_n: u32, src_m: u32)
    ensures
        *final(dst) == wrap64(signed32(src_n) * signed32(src_m)),
{
    *dst = to_bits64(signed_product(src_n, src_m));
}

/// `MAC.W` accumulation: adds the product of two sign-extended words.
pub fn sh4_mac_w_mul(mac_full: &mut u64, temp0: u32, temp1: u32)
    requires
        -0x8000_0000 <= signed32(temp0) * signed32(temp1) < 0x8000_0000,
    ensures
        *final(mac_full) == wrap64(*old(mac_full) + signed32(temp0) * signed32(temp1)),
{
    let p = signed_product(temp0, temp1);
    let add = to_bits64(p);
    let old_mac = *mac_full;
    proof {
        lemma_add_mod_noop(old_mac as int, p as int, pow64());
    }
    *mac_full = old_mac.wrapping_add(add);
}

/// `MAC.L` accumulation: adds the signed 64-bit product of two longwords.
pub fn sh4_mac_l_mul(mac_full: &mut u64, temp0: u32, temp1: u32)
    ensures
        *final(mac_full) == wrap64(*old(mac_full) + signed32(temp0) * signed32(temp1)),
{
    let p = signed_product(temp0, temp1);
    let add = to_bits64(p);
    let old_mac = *mac_full;
    proof {
        lemma_add_mod_noop(old_mac as int, p as int, pow64());
    }
    *mac_full = old_mac.wrapping_add(add);
}

/// Resolves a recorded conditional branch: the target when the tested flag
/// equals the condition, otherwise the fall-through address.
pub fn sh4_dec_branch_cond(dst: &mut u32, jdyn: u32, condition: u32, next: u32, target: u32)
    ensures
        *final(dst) == (if jdyn == condition { target } else { next }),
{
    if jdyn == condition {
        *dst = target;
    } else {
        *dst = next;
    }
}

/// Exchanges R0..R7 with the banked registers R0_BANK..R7_BANK.
pub fn sh4_rbank_switch(r: &mut [u32; 16], r_bank: &mut [u32; 8])
    ensures
        forall|i: int| 0 <= i < 8 ==> final(r)[i] == old(r_bank)[i] && final(r_bank)[i] == old(r)[i],
        forall|i: int| 8 <= i < 16 ==> final(r)[i] == old(r)[i],
{
    let mut i: usize = 0;
    while i < 8
        invariant
            0 <= i <= 8,
            forall|j: int| 0 <= j < i ==> r[j] == old(r_bank)[j] && r_bank[j] == old(r)[j],
            forall|j: int| i <= j < 8 ==> r[j] == old(r)[j] && r_bank[j] == old(r_bank)[j],
            forall|j: int| 8 <= j < 16 ==> r[j] == old(r)[j],
        decreases 8 - i,
    {
        let temp = r[i];
        r[i] = r_bank[i];
        r_bank[i] = temp;
        i = i + 1;
    }
}

/// `FRCHG`: exchanges the first sixteen words of the FR and XF banks.
pub fn sh4_frchg(fr: &mut [u32; 32], xf: &mut [u32; 32])
    ensures
        forall|i: int| 0 <= i < 16 ==> final(fr)[i] == old(xf)[i] && final(xf)[i] == old(fr)[i],
        forall|i: int| 16 <= i < 32 ==> final(fr)[i] == old(fr)[i] && final(xf)[i] == old(xf)[i],
{
    let mut i: usize = 0;
    while i < 16
        invariant
            0 <= i <= 16,
            forall|j: int| 0 <= j < i ==> fr[j] == old(xf)[j] && xf[j] == old(fr)[j],
            forall|j: int| i <= j < 32 ==> fr[j] == old(fr)[j] && xf[j] == old(xf)[j],
        decreases 16 - i,
    {
        let temp = fr[i];
        fr[i] = xf[i];
        xf[i] = temp;
        i = i + 1;
    }
}

/// `FSCHG` in the interpreter: the size bit itself is toggled by the caller,
/// so the operation leaves every register as it is.
pub fn sh4_fschg() {
}

} // verus!
