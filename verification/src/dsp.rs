//! The AICA DSP: its 16-bit floating sample format, its register file and
//! one step of its 128-step microprogram.

use vstd::prelude::*;
use crate::bits::lemma_mask_u32;
use crate::mem::{le_value, store_bytes, pow256, load_u32, load_u16, store_le, lemma_store_then_load};

verus! {

/// The exponent that PACK chooses for the 24-bit pattern `v`: the number of
/// bits below the sign bit that repeat it, at most 12.
pub open spec fn pack_exponent(v: u32) -> u32 {
    let t = (v ^ (v << 1u32)) & 0xFF_FFFFu32;
    if t & 0x80_0000 != 0 { 0 }
    else if t & 0x40_0000 != 0 { 1 }
    else if t & 0x20_0000 != 0 { 2 }
    else if t & 0x10_0000 != 0 { 3 }
    else if t & 0x08_0000 != 0 { 4 }
    else if t & 0x04_0000 != 0 { 5 }
    else if t & 0x02_0000 != 0 { 6 }
    else if t & 0x01_0000 != 0 { 7 }
    else if t & 0x00_8000 != 0 { 8 }
    else if t & 0x00_4000 != 0 { 9 }
    else if t & 0x00_2000 != 0 { 10 }
    else if t & 0x00_1000 != 0 { 11 }
    else { 12 }
}

/// PACK of the 24-bit value whose bits are `v`: sign in bit 15, exponent in
/// bits 11..14, and the 11 bits that follow the run of sign bits.
pub open spec fn pack_bits(v: u32) -> u16 {
    let sign = (v >> 23u32) & 1;
    let e = pack_exponent(v);
    let m = if e < 12 { ((v << e) & 0x3F_FFFF) >> 11u32 } else { v & 0xFFFF };
    ((m | (sign << 15u32) | (e << 11u32)) & 0xFFFF) as u16
}

/// The 24-bit pattern `u` sign-extended to 32 bits.
pub open spec fn sext24_bits(u: u32) -> u32 {
    if u & 0x80_0000 != 0 { (u & 0xFF_FFFF) | 0xFF00_0000 } else { u & 0xFF_FFFF }
}

/// Arithmetic right shift of the 32-bit pattern `x` by `e` places.
pub open spec fn asr_bits(x: u32, e: u32) -> u32 {
    if x & 0x8000_0000 != 0 { (x >> e) | !(0xFFFF_FFFFu32 >> e) } else { x >> e }
}

/// UNPACK of the 16-bit float `m`, as the bits of a 32-bit signed value.
/// Below exponent 12 the bit under the sign is the implicit leading bit (the
/// opposite of the sign); at exponent 12 and above the mantissa is taken
/// as it stands and that bit repeats the sign.
pub open spec fn unpack_bits(m: u16) -> u32 {
    let w = m as u32;
    let sign = (w >> 15u32) & 1;
    let e0 = (w >> 11u32) & 0xF;
    let mant = w & 0x7FF;
    let e = if e0 > 11 { 11 } else { e0 };
    let implicit = if e0 > 11 { sign << 22u32 } else { (sign ^ 1) << 22u32 };
    let u = (mant << 11u32) | implicit | (sign << 23u32);
    asr_bits(sext24_bits(u), e)
}

/// The 32-bit pattern of a signed value.
pub open spec fn bits_of(x: i32) -> u32 {
    if x >= 0 { x as u32 } else { (x + 0x1_0000_0000) as u32 }
}

/// The signed value of a 32-bit pattern.
pub open spec fn signed_of(u: u32) -> i32 {
    if u < 0x8000_0000 { u as i32 } else { (u - 0x1_0000_0000) as i32 }
}

fn to_bits(x: i32) -> (r: u32)
    ensures
        r == bits_of(x),
{
    if x >= 0 { x as u32 } else { (x as i64 + 0x1_0000_0000) as u32 }
}

fn from_bits(u: u32) -> (r: i32)
    ensures
        r == signed_of(u),
{
    if u < 0x8000_0000 { u as i32 } else { (u as i64 - 0x1_0000_0000) as i32 }
}

/// PACK: a 24-bit signed sample to the 16-bit floating format.
pub fn pack(val: i32) -> (r: u16)
    ensures
        r == pack_bits(bits_of(val)),
{
    let v = to_bits(val);
    let sign = (v >> 23) & 0x1;
    let temp = (v ^ (v << 1)) & 0xFF_FFFF;
    let mut exponent: u32 = 0;
    while exponent < 12
        invariant_except_break
            exponent <= 12,
            temp == (v ^ (v << 1u32)) & 0xFF_FFFFu32,
            pack_exponent(v) >= exponent,
        ensures
            exponent == pack_exponent(v),
        decreases 12 - exponent,
    {
        if (temp << exponent) & 0x80_0000 != 0 {
            assert(exponent == pack_exponent(v)) by (bit_vector)
                requires
                    temp == (v ^ (v << 1u32)) & 0xFF_FFFFu32,
                    (temp << exponent) & 0x80_0000 != 0,
                    pack_exponent(v) >= exponent,
                    exponent < 12;
            break;
        }
        assert(pack_exponent(v) >= exponent + 1) by (bit_vector)
            requires
                temp == (v ^ (v << 1u32)) & 0xFF_FFFFu32,
                (temp << exponent) & 0x80_0000 == 0,
                pack_exponent(v) >= exponent,
                exponent < 12;
        exponent = exponent + 1;
    }
    let m = if exponent < 12 { ((v << exponent) & 0x3F_FFFF) >> 11 } else { v & 0xFFFF };
    ((m | (sign << 15) | (exponent << 11)) & 0xFFFF) as u16
}

/// UNPACK: a 16-bit floating sample to a 24-bit signed value.
pub fn unpack(val: u16) -> (r: i32)
    ensures
        r == signed_of(unpack_bits(val)),
{
    let w = val as u32;
    let sign = (w >> 15) & 1;
    let e0 = (w >> 11) & 0xF;
    let mant = w & 0x7FF;
    let e = if e0 > 11 { 11 } else { e0 };
    let implicit = if e0 > 11 { sign << 22 } else { (sign ^ 1) << 22 };
    let u = (mant << 11) | implicit | (sign << 23);
    let s = if u & 0x80_0000 != 0 { (u & 0xFF_FFFF) | 0xFF00_0000 } else { u & 0xFF_FFFF };
    let r = if s & 0x8000_0000 != 0 { (s >> e) | !(0xFFFF_FFFFu32 >> e) } else { s >> e };
    from_bits(r)
}

/// Packing a sample that was unpacked gives the packed sample back, for
/// every sample whose exponent field is a real exponent (at most 11).
pub proof fn lemma_pack_unpack(m: u16)
    by (bit_vector)
    requires
        (m >> 11u16) & 0xF <= 11,
    ensures
        pack_bits(unpack_bits(m)) == m,
{
}

/// Unpacking a packed sample gives the 24-bit value back exactly for every
/// value in [-2048, 2048); for every other value it gives the value with
/// the bits that PACK dropped cleared, never more than it and at most 2048
/// less.
pub proof fn lemma_unpack_pack(v: u32)
    by (bit_vector)
    ensures
        ({
            let s = sext24_bits(v);
            let r = unpack_bits(pack_bits(v));
            &&& (s & 0x8000_0000 == 0) ==> (r & 0x8000_0000 == 0 && r <= s && s - r <= 2048)
            &&& (s & 0x8000_0000 != 0) ==> (r & 0x8000_0000 != 0 && r <= s && s - r <= 2048)
            &&& ((s >> 11u32) == 0 || (s >> 11u32) == 0x1F_FFFF) ==> r == s
        }),
{
}

/// UNPACK after PACK is the identity on the samples in [-2048, 2048).
pub proof fn lemma_unpack_pack_small(v: i32)
    requires
        -2048 <= v < 2048,
    ensures
        signed_of(unpack_bits(pack_bits(bits_of(v)))) == v,
{
    let b = bits_of(v);
    lemma_unpack_pack(b);
    if v >= 0 {
        assert(sext24_bits(b) == b && (b >> 11u32) == 0) by (bit_vector)
            requires b < 2048u32;
    } else {
        assert(sext24_bits(b) == b && (b >> 11u32) == 0x1F_FFFF) by (bit_vector)
            requires b >= 0xFFFF_F800u32;
    }
}

/// Size of the AICA register area.
pub const AICA_REG_SIZE: usize = 0x8000;
/// Size of the AICA sound RAM.
pub const AICA_RAM_SIZE: usize = 0x20_0000;
/// Mask of a sound RAM byte address.
pub const ARAM_MASK: u32 = 0x1F_FFFF;
/// Offset of the common data block in the register area.
pub const COMMON_DATA: usize = 0x2800;
/// Offset of the DSP data block in the register area.
pub const DSP_DATA: usize = 0x3000;
/// Offsets of the DSP data arrays.
pub const DSP_COEF: usize = 0x3000;
pub const DSP_MADRS: usize = 0x3200;
pub const DSP_MPRO: usize = 0x3400;
pub const DSP_TEMP: usize = 0x4000;
pub const DSP_MEMS: usize = 0x4400;
pub const DSP_MIXS: usize = 0x4500;
pub const DSP_EFREG: usize = 0x4580;
pub const DSP_EXTS: usize = 0x45C0;

/// The little-endian word at `off` of the register area.
pub open spec fn reg_word(r: Seq<u8>, off: int) -> u32 {
    le_value(r, off, 4) as u32
}

/// The two-halves register (low byte, high part shifted by `sh`) at `off`.
pub open spec fn dual_bits(r: Seq<u8>, off: int, sh: u32) -> u32 {
    reg_word(r, off) | (reg_word(r, off + 4) << sh)
}

/// Register file with the two halves at `off` set from the 32-bit pattern `v`.
pub open spec fn store_dual(r: Seq<u8>, off: int, v: u32) -> Seq<u8> {
    store_bytes(store_bytes(r, off, 4, (v & 0xFF) as nat), off + 4, 4, ((v >> 8u32) & 0xFFFF) as nat)
}

/// The ring buffer pointer (in bytes) of a common data word.
pub open spec fn spec_rbp(w: u32) -> u32 {
    ((w & 0xFFF) * 2048) as u32
}

/// The ring buffer length (in words) of a common data word.
pub open spec fn spec_rbl(w: u32) -> u32 {
    let f = (w >> 13u32) & 0x3;
    if f == 0 { 0x2000 } else if f == 1 { 0x4000 } else if f == 2 { 0x8000 } else { 0x1_0000 }
}

/// The ring buffer fields of the common data block.
pub struct CommonData {
    pub mvol_ver_dac18b_mem8mb_mono: u32,
    pub rbp_rbl_testb0: u32,
    pub mibuf_flags: u32,
    pub mobuf_mslc_afset: u32,
    pub eg_sgc_lp: u32,
    pub ca: u32,
}

impl CommonData {
    /// The ring buffer pointer, in bytes.
    pub fn rbp(&self) -> (r: u32)
        ensures
            r == spec_rbp(self.rbp_rbl_testb0),
    {
        proof { lemma_mask_u32(self.rbp_rbl_testb0); }
        (self.rbp_rbl_testb0 & 0xFFF) * 2048
    }

    /// The ring buffer length, in words.
    pub fn rbl(&self) -> (r: u32)
        ensures
            r == spec_rbl(self.rbp_rbl_testb0),
    {
        let f = (self.rbp_rbl_testb0 >> 13) & 0x3;
        if f == 0 {
            8 * 1024
        } else if f == 1 {
            16 * 1024
        } else if f == 2 {
            32 * 1024
        } else {
            64 * 1024
        }
    }
}

/// The fields of one DSP microprogram instruction.
pub struct Inst {
    pub tra: u32,
    pub twt: u32,
    pub twa: u32,
    pub xsel: u32,
    pub ysel: u32,
    pub ira: u32,
    pub iwt: u32,
    pub iwa: u32,
    pub ewt: u32,
    pub ewa: u32,
    pub adrl: u32,
    pub frcl: u32,
    pub shift: u32,
    pub yrl: u32,
    pub negb: u32,
    pub zero: u32,
    pub bsel: u32,
    pub nofl: u32,
    pub table: u32,
    pub mwt: u32,
    pub mrd: u32,
    pub masa: u32,
    pub adreb: u32,
    pub nxadr: u32,
}

/// The fields of the four instruction words `w0`..`w3`.
pub open spec fn spec_decode(w0: u32, w1: u32, w2: u32, w3: u32) -> Inst {
    Inst {
        tra: (w0 >> 9u32) & 0x7F,
        twt: (w0 >> 8u32) & 0x01,
        twa: (w0 >> 1u32) & 0x7F,
        xsel: (w1 >> 15u32) & 0x01,
        ysel: (w1 >> 13u32) & 0x03,
        ira: (w1 >> 7u32) & 0x3F,
        iwt: (w1 >> 6u32) & 0x01,
        iwa: (w1 >> 1u32) & 0x1F,
        table: (w2 >> 15u32) & 0x01,
        mwt: (w2 >> 14u32) & 0x01,
        mrd: (w2 >> 13u32) & 0x01,
        ewt: (w2 >> 12u32) & 0x01,
        ewa: (w2 >> 8u32) & 0x0F,
        adrl: (w2 >> 7u32) & 0x01,
        frcl: (w2 >> 6u32) & 0x01,
        shift: (w2 >> 4u32) & 0x03,
        yrl: (w2 >> 3u32) & 0x01,
        negb: (w2 >> 2u32) & 0x01,
        zero: (w2 >> 1u32) & 0x01,
        bsel: w2 & 0x01,
        nofl: (w3 >> 15u32) & 0x01,
        masa: (w3 >> 9u32) & 0x3F,
        adreb: (w3 >> 8u32) & 0x01,
        nxadr: (w3 >> 7u32) & 0x01,
    }
}

/// Decodes the four words of a microprogram instruction.
pub fn decode_inst(w0: u32, w1: u32, w2: u32, w3: u32) -> (i: Inst)
    ensures
        i == spec_decode(w0, w1, w2, w3),
{
    Inst {
        tra: (w0 >> 9) & 0x7F,
        twt: (w0 >> 8) & 0x01,
        twa: (w0 >> 1) & 0x7F,
        xsel: (w1 >> 15) & 0x01,
        ysel: (w1 >> 13) & 0x03,
        ira: (w1 >> 7) & 0x3F,
        iwt: (w1 >> 6) & 0x01,
        iwa: (w1 >> 1) & 0x1F,
        table: (w2 >> 15) & 0x01,
        mwt: (w2 >> 14) & 0x01,
        mrd: (w2 >> 13) & 0x01,
        ewt: (w2 >> 12) & 0x01,
        ewa: (w2 >> 8) & 0x0F,
        adrl: (w2 >> 7) & 0x01,
        frcl: (w2 >> 6) & 0x01,
        shift: (w2 >> 4) & 0x03,
        yrl: (w2 >> 3) & 0x01,
        negb: (w2 >> 2) & 0x01,
        zero: (w2 >> 1) & 0x01,
        bsel: w2 & 0x01,
        nofl: (w3 >> 15) & 0x01,
        masa: (w3 >> 9) & 0x3F,
        adreb: (w3 >> 8) & 0x01,
        nxadr: (w3 >> 7) & 0x01,
    }
}

/// The two's-complement value of the low bits of `x` in a field of `full`
/// values (a power of two).
pub open spec fn sext_mod(x: int, full: int) -> int {
    let m = x % full;
    if m >= full / 2 { m - full } else { m }
}

/// The 24-bit signed value of `x`.
pub open spec fn sext24(x: int) -> int {
    sext_mod(x, 0x100_0000)
}

/// The 26-bit signed value of `x`.
pub open spec fn sext26(x: int) -> int {
    sext_mod(x, 0x400_0000)
}

/// The 13-bit signed value of `x`.
pub open spec fn sext13(x: int) -> int {
    sext_mod(x, 0x2000)
}

/// `x` limited to the 20-bit signed range.
pub open spec fn clamp20(x: int) -> int {
    if x > 0x7_FFFF { 0x7_FFFF } else if x < -0x8_0000 { -0x8_0000 } else { x }
}

fn floor_div(x: i64, d: i64) -> (r: i64)
    requires
        d > 0,
    ensures
        r == x / d,
{
    assert(i64::MIN <= x / d <= i64::MAX) by (nonlinear_arith)
        requires
            d > 0,
            i64::MIN <= x <= i64::MAX;
    match x.checked_div_euclid(d) {
        Some(q) => q,
        None => 0,
    }
}

fn mod_floor(x: i64, d: i64) -> (r: i64)
    requires
        d > 0,
    ensures
        r == x % d,
{
    match x.checked_rem_euclid(d) {
        Some(q) => q,
        None => 0,
    }
}

fn sext_exec(x: i64, full: i64) -> (r: i64)
    requires
        full == 0x2000 || full == 0x100_0000 || full == 0x400_0000,
    ensures
        r == sext_mod(x as int, full as int),
        -(full / 2) <= r < full / 2,
{
    let m = mod_floor(x, full);
    if m >= full / 2 { m - full } else { m }
}

/// The state of the DSP pipeline between steps.
pub struct DspState {
    pub mdec_ct: u32,
    pub acc: i32,
    pub shifted: i32,
    pub x: i32,
    pub y: i32,
    pub b: i32,
    pub inputs: i32,
    pub memval: [i32; 4],
    pub frc_reg: i32,
    pub y_reg: i32,
    pub adrs_reg: u32,
}

/// The AICA register area and sound RAM, with the DSP that works on them.
pub struct Aica {
    pub regs: Vec<u8>,
    pub ram: Vec<u8>,
    pub dsp: DspState,
}

impl Aica {
    /// The areas have their sizes, the ring counter is in [1, 65536] and the
    /// accumulator holds a 26-bit value.
    pub open spec fn wf(&self) -> bool {
        &&& self.regs.len() == AICA_REG_SIZE
        &&& self.ram.len() == AICA_RAM_SIZE
        &&& 1 <= self.dsp.mdec_ct <= 0x1_0000
        &&& -0x200_0000 <= self.dsp.acc < 0x200_0000
    }

    /// Zeroed registers and RAM, and the DSP at rest.
    pub fn new() -> (a: Self)
        ensures
            a.wf(),
            a.regs@ == Seq::new(AICA_REG_SIZE as nat, |i: int| 0u8),
            a.ram@ == Seq::new(AICA_RAM_SIZE as nat, |i: int| 0u8),
            a.dsp.mdec_ct == 1,
            a.dsp.acc == 0 && a.dsp.shifted == 0 && a.dsp.x == 0 && a.dsp.y == 0 && a.dsp.b == 0,
            a.dsp.inputs == 0 && a.dsp.frc_reg == 0 && a.dsp.y_reg == 0 && a.dsp.adrs_reg == 0,
            a.dsp.memval@ == seq![0i32, 0i32, 0i32, 0i32],
    {
        let regs = vec![0u8; AICA_REG_SIZE];
        let ram = vec![0u8; AICA_RAM_SIZE];
        let a = Aica {
            regs,
            ram,
            dsp: DspState {
                mdec_ct: 1,
                acc: 0,
                shifted: 0,
                x: 0,
                y: 0,
                b: 0,
                inputs: 0,
                memval: [0, 0, 0, 0],
                frc_reg: 0,
                y_reg: 0,
                adrs_reg: 0,
            },
        };
        assert(a.regs@ =~= Seq::new(AICA_REG_SIZE as nat, |i: int| 0u8));
        assert(a.ram@ =~= Seq::new(AICA_RAM_SIZE as nat, |i: int| 0u8));
        assert(a.dsp.memval@ =~= seq![0i32, 0i32, 0i32, 0i32]);
        a
    }

    fn word(&self, off: usize) -> (v: u32)
        requires
            off + 4 <= self.regs.len(),
        ensures
            v == reg_word(self.regs@, off as int),
    {
        load_u32(&self.regs, off)
    }

    fn set_word(&mut self, off: usize, v: u32)
        requires
            off + 4 <= old(self).regs.len(),
        ensures
            final(self).regs@ == store_bytes(old(self).regs@, off as int, 4, v as nat),
            final(self).regs.len() == old(self).regs.len(),
            final(self).ram == old(self).ram,
            final(self).dsp == old(self).dsp,
    {
        store_le(&mut self.regs, off, 4, v as u64);
        proof {
            lemma_store_then_load(old(self).regs@, off as int, 4, v as nat, 0, 0);
        }
    }

    /// The common data block's ring buffer fields.
    pub fn common_data(&self) -> (c: CommonData)
        requires
            self.wf(),
        ensures
            c.rbp_rbl_testb0 == reg_word(self.regs@, COMMON_DATA + 4),
            c.mvol_ver_dac18b_mem8mb_mono == reg_word(self.regs@, COMMON_DATA as int),
            c.mibuf_flags == reg_word(self.regs@, COMMON_DATA + 8),
            c.mobuf_mslc_afset == reg_word(self.regs@, COMMON_DATA + 12),
            c.eg_sgc_lp == reg_word(self.regs@, COMMON_DATA + 16),
            c.ca == reg_word(self.regs@, COMMON_DATA + 20),
    {
        CommonData {
            mvol_ver_dac18b_mem8mb_mono: self.word(COMMON_DATA),
            rbp_rbl_testb0: self.word(COMMON_DATA + 4),
            mibuf_flags: self.word(COMMON_DATA + 8),
            mobuf_mslc_afset: self.word(COMMON_DATA + 12),
            eg_sgc_lp: self.word(COMMON_DATA + 16),
            ca: self.word(COMMON_DATA + 20),
        }
    }
}

/// Reads the register word at `addr` (taken modulo 0x8000); a word that
/// would run past the end of the area reads as zero.
pub fn read_reg(aica: &Aica, addr: u32) -> (v: u32)
    requires
        aica.wf(),
    ensures
        (addr & 0x7FFF) + 4 <= AICA_REG_SIZE ==> v == reg_word(aica.regs@, (addr & 0x7FFF) as int),
        (addr & 0x7FFF) + 4 > AICA_REG_SIZE ==> v == 0,
{
    proof { lemma_mask_u32(addr); }
    let offset = (addr & 0x7FFF) as usize;
    if offset + 4 <= AICA_REG_SIZE {
        aica.word(offset)
    } else {
        0
    }
}

/// Writes the register word at `addr` (taken modulo 0x8000); a word that
/// would run past the end of the area is not written.
pub fn write_reg(aica: &mut Aica, addr: u32, data: u32)
    requires
        old(aica).wf(),
    ensures
        final(aica).wf(),
        final(aica).ram == old(aica).ram,
        final(aica).dsp == old(aica).dsp,
        (addr & 0x7FFF) + 4 <= AICA_REG_SIZE ==>
            final(aica).regs@ == store_bytes(old(aica).regs@, (addr & 0x7FFF) as int, 4, data as nat),
        (addr & 0x7FFF) + 4 > AICA_REG_SIZE ==> final(aica).regs@ == old(aica).regs@,
{
    proof { lemma_mask_u32(addr); }
    let offset = (addr & 0x7FFF) as usize;
    if offset + 4 <= AICA_REG_SIZE {
        aica.set_word(offset, data);
    }
}

/// A register word reads back as written, and the words that do not overlap
/// it keep their values.
pub proof fn lemma_write_then_read_reg(r: Seq<u8>, off: int, data: u32, other: int)
    requires
        r.len() == AICA_REG_SIZE,
        0 <= off,
        off + 4 <= AICA_REG_SIZE,
        0 <= other,
        other + 4 <= AICA_REG_SIZE,
    ensures
        reg_word(store_bytes(r, off, 4, data as nat), off) == data,
        (other + 4 <= off || off + 4 <= other) ==> reg_word(store_bytes(r, off, 4, data as nat), other) == reg_word(r, other),
{
    lemma_store_then_load(r, off, 4, data as nat, other, 4);
    reveal_with_fuel(pow256, 5);
    assert(pow256(4) == 0x1_0000_0000);
}

/// The value of the two-halves register of `regs` at `off`, with the high
/// part shifted by `sh` bits.
pub open spec fn mems_bits(r: Seq<u8>, i: int) -> u32 {
    dual_bits(r, DSP_MEMS + 8 * i, 8)
}

pub open spec fn mixs_bits(r: Seq<u8>, i: int) -> u32 {
    dual_bits(r, DSP_MIXS + 8 * i, 4)
}

pub open spec fn temp_bits(r: Seq<u8>, i: int) -> u32 {
    dual_bits(r, DSP_TEMP + 8 * i, 8)
}

/// The instruction of microprogram step `step`.
pub open spec fn inst_at(r: Seq<u8>, step: int) -> Inst {
    let base = DSP_MPRO + 16 * step;
    spec_decode(reg_word(r, base), reg_word(r, base + 4), reg_word(r, base + 8), reg_word(r, base + 12))
}

/// The input selected by `ira`, as a 32-bit pattern.
pub open spec fn inputs_raw(r: Seq<u8>, ira: u32) -> u32 {
    if ira <= 0x1F {
        mems_bits(r, ira as int)
    } else if ira <= 0x2F {
        mixs_bits(r, ira - 0x20) << 4u32
    } else if ira <= 0x31 {
        reg_word(r, DSP_EXTS + 4 * (ira - 0x30)) << 8u32
    } else {
        0
    }
}

/// The TEMP slot addressed by `a` relative to the ring counter.
pub open spec fn temp_slot(a: u32, mdec: u32) -> int {
    (a + mdec) % 128
}

/// Operand B.
pub open spec fn spec_b(s: DspState, r: Seq<u8>, i: Inst) -> int {
    if i.zero == 0 {
        let b0 = if i.bsel != 0 {
            s.acc as int
        } else {
            sext26(4 * temp_bits(r, temp_slot(i.tra, s.mdec_ct)) as int)
        };
        if i.negb != 0 { -b0 } else { b0 }
    } else {
        0
    }
}

/// Operand X.
pub open spec fn spec_x(s: DspState, r: Seq<u8>, i: Inst, inputs: int) -> int {
    if i.xsel != 0 { inputs } else { sext24(temp_bits(r, temp_slot(i.tra, s.mdec_ct)) as int) }
}

/// Operand Y.
pub open spec fn spec_y(s: DspState, r: Seq<u8>, i: Inst, step: int) -> int {
    if i.ysel == 0 {
        s.frc_reg as int
    } else if i.ysel == 1 {
        (reg_word(r, DSP_COEF + 4 * step) / 8) as int
    } else if i.ysel == 2 {
        (s.y_reg as int / 2048) % 8192
    } else {
        (s.y_reg as int / 16) % 4096
    }
}

/// The shifter's output for the previous accumulator.
pub open spec fn spec_shifted(acc: int, shift: u32) -> int {
    if shift == 0 {
        clamp20(acc / 4)
    } else if shift == 1 {
        clamp20(acc / 2)
    } else if shift == 2 {
        sext24(acc / 2)
    } else {
        sext24(acc / 4)
    }
}

/// What the shifter gives for the previous accumulator `acc`, stated
/// without division:
/// - SHIFT=0 gives the largest `s` with `4 * s <= acc`, and SHIFT=1 the
///   largest with `2 * s <= acc`, each held to the 20-bit signed range
///   (so for accumulators inside that range SHIFT=1 gives twice SHIFT=0,
///   or one more);
/// - SHIFT=2 and SHIFT=3 give the same quarter and half kept to 24 bits
///   (wrapping instead of saturating).
pub proof fn lemma_shifter(acc: int)
    ensures
        -0x8_0000 <= spec_shifted(acc, 0) <= 0x7_FFFF,
        -0x20_0000 <= acc < 0x20_0000 ==> 4 * spec_shifted(acc, 0) <= acc < 4 * spec_shifted(acc, 0) + 4,
        acc >= 0x20_0000 ==> spec_shifted(acc, 0) == 0x7_FFFF,
        acc < -0x20_0000 ==> spec_shifted(acc, 0) == -0x8_0000,
        -0x8_0000 <= spec_shifted(acc, 1) <= 0x7_FFFF,
        -0x10_0000 <= acc < 0x10_0000 ==> 2 * spec_shifted(acc, 1) <= acc < 2 * spec_shifted(acc, 1) + 2,
        acc >= 0x10_0000 ==> spec_shifted(acc, 1) == 0x7_FFFF,
        acc < -0x10_0000 ==> spec_shifted(acc, 1) == -0x8_0000,
        -0x10_0000 <= acc < 0x10_0000 ==>
            2 * spec_shifted(acc, 0) <= spec_shifted(acc, 1) <= 2 * spec_shifted(acc, 0) + 1,
        -0x80_0000 <= spec_shifted(acc, 2) < 0x80_0000,
        (acc - 2 * spec_shifted(acc, 2)) % 0x200_0000 < 2,
        -0x80_0000 <= spec_shifted(acc, 3) < 0x80_0000,
        (acc - 4 * spec_shifted(acc, 3)) % 0x400_0000 < 4,
{
    let q2 = acc / 2;
    let q4 = acc / 4;
    assert(2 * q2 <= acc < 2 * q2 + 2);
    assert(4 * q4 <= acc < 4 * q4 + 4);
    let m2 = q2 % 0x100_0000;
    let k2 = q2 / 0x100_0000;
    assert(q2 == 0x100_0000 * k2 + m2 && 0 <= m2 < 0x100_0000);
    let s2 = spec_shifted(acc, 2);
    assert(s2 == m2 || s2 == m2 - 0x100_0000);
    assert(acc - 2 * s2 == 0x200_0000 * (if s2 == m2 { k2 } else { k2 + 1 }) + (acc - 2 * q2));
    let m4 = q4 % 0x100_0000;
    let k4 = q4 / 0x100_0000;
    assert(q4 == 0x100_0000 * k4 + m4 && 0 <= m4 < 0x100_0000);
    let s3 = spec_shifted(acc, 3);
    assert(s3 == m4 || s3 == m4 - 0x100_0000);
    assert(acc - 4 * s3 == 0x400_0000 * (if s3 == m4 { k4 } else { k4 + 1 }) + (acc - 4 * q4));
    vstd::arithmetic::div_mod::lemma_mod_multiples_vanish(
        if s2 == m2 { k2 } else { k2 + 1 }, acc - 2 * q2, 0x200_0000);
    vstd::arithmetic::div_mod::lemma_mod_multiples_vanish(
        if s3 == m4 { k4 } else { k4 + 1 }, acc - 4 * q4, 0x400_0000);
    vstd::arithmetic::div_mod::lemma_small_mod((acc - 2 * q2) as nat, 0x200_0000);
    vstd::arithmetic::div_mod::lemma_small_mod((acc - 4 * q4) as nat, 0x400_0000);
}

/// The new accumulator: X times the 13-bit Y, scaled down by 1024, plus B,
/// kept to 26 bits.
pub open spec fn spec_acc(x: int, y: int, b: int) -> int {
    sext26((x * sext13(y)) / 1024 + b)
}

/// The multiply-accumulate: Y is read as a 13-bit signed value (the one in
/// [-4096, 4096) that agrees with it modulo 8192), and when the sum stays
/// within 26 signed bits the new accumulator `r` is B plus the product
/// X * Y scaled down by 1024 and rounded toward minus infinity, that is
/// `1024 * (r - b) <= x * y13 < 1024 * (r - b) + 1024`.
pub proof fn lemma_accumulate(x: int, y: int, b: int)
    ensures
        -0x1000 <= sext13(y) < 0x1000,
        (y - sext13(y)) % 0x2000 == 0,
        ({
            let p = x * sext13(y);
            let r = spec_acc(x, y, b);
            -0x200_0000 <= p / 1024 + b < 0x200_0000 ==> 1024 * (r - b) <= p < 1024 * (r - b) + 1024
        }),
{
    let m = y % 0x2000;
    let k = y / 0x2000;
    assert(y == 0x2000 * k + m && 0 <= m < 0x2000);
    let s = sext13(y);
    assert(s == m || s == m - 0x2000);
    assert(y - s == 0x2000 * (if s == m { k } else { k + 1 }));
    vstd::arithmetic::div_mod::lemma_mod_multiples_basic(if s == m { k } else { k + 1 }, 0x2000);
    assert((if s == m { k } else { k + 1 }) * 0x2000 == 0x2000 * (if s == m { k } else { k + 1 })) by (nonlinear_arith);
    let p = x * s;
    let t = p / 1024 + b;
    assert(1024 * (p / 1024) <= p < 1024 * (p / 1024) + 1024);
    if -0x200_0000 <= t < 0x200_0000 {
        let tm = t % 0x400_0000;
        let tk = t / 0x400_0000;
        assert(t == 0x400_0000 * tk + tm && 0 <= tm < 0x400_0000);
        assert(tk == 0 || tk == -1);
        assert(sext26(t) == t);
    }
}

/// The ring-buffer byte address of a memory access, within sound RAM.
pub open spec fn spec_mem_addr(s: DspState, r: Seq<u8>, i: Inst) -> int {
    let common = reg_word(r, COMMON_DATA + 4);
    let a0 = reg_word(r, DSP_MADRS + 4 * i.masa);
    let a1 = if i.adreb != 0 { a0.wrapping_add(s.adrs_reg & 0xFFF) } else { a0 };
    let a2 = if i.nxadr != 0 { a1.wrapping_add(1) } else { a1 };
    let a3 = if i.table == 0 {
        a2.wrapping_add(s.mdec_ct) & ((spec_rbl(common) - 1) as u32)
    } else {
        a2 & 0xFFFF
    };
    let a4 = (a3 << 1u32).wrapping_add(spec_rbp(common));
    (a4 & ARAM_MASK) as int
}

/// Whether step `step` of instruction `i` reads or writes sound RAM.
pub open spec fn mem_access(i: Inst, step: int) -> bool {
    step % 2 == 1 && (i.mrd != 0 || i.mwt != 0)
}

/// The value a memory read of `h` gives.
pub open spec fn spec_mem_read(i: Inst, h: u16) -> int {
    if i.nofl != 0 {
        (if h < 0x8000 { h as int } else { h as int - 0x1_0000 }) * 256
    } else {
        signed_of(unpack_bits(h)) as int
    }
}

/// The half-word a memory write stores for the shifter output.
pub open spec fn spec_mem_write(i: Inst, shifted: int) -> u16 {
    if i.nofl != 0 {
        ((shifted / 256) % 0x1_0000) as u16
    } else {
        pack_bits(bits_of(shifted as i32))
    }
}

/// An EFREG output with the shifter output, scaled down by 16, added.
pub open spec fn efreg_sum(e: u32, shifted: int) -> u32 {
    ((e as int + shifted / 16) % 0x1_0000_0000) as u32
}

/// The register file after the step's writes to MEMS, TEMP and EFREG.
pub open spec fn spec_step_regs(s: DspState, r: Seq<u8>, step: int) -> Seq<u8> {
    let i = inst_at(r, step);
    let inputs = sext24(inputs_raw(r, i.ira) as int);
    let shifted = spec_shifted(s.acc as int, i.shift);
    let r1 = if i.iwt != 0 {
        store_dual(r, DSP_MEMS + 8 * i.iwa, bits_of(s.memval[step % 4]))
    } else {
        r
    };
    let r2 = if i.twt != 0 {
        store_dual(r1, DSP_TEMP + 8 * temp_slot(i.twa, s.mdec_ct), bits_of(shifted as i32))
    } else {
        r1
    };
    if i.ewt != 0 {
        let off = DSP_EFREG + 4 * i.ewa;
        store_bytes(r2, off, 4, efreg_sum(reg_word(r2, off), shifted) as nat)
    } else {
        r2
    }
}

/// Sound RAM after the step.
pub open spec fn spec_step_ram(s: DspState, r: Seq<u8>, ram: Seq<u8>, step: int) -> Seq<u8> {
    let i = inst_at(r, step);
    let shifted = spec_shifted(s.acc as int, i.shift);
    if mem_access(i, step) && i.mwt != 0 {
        store_bytes(ram, spec_mem_addr(s, r, i), 2, spec_mem_write(i, shifted) as nat)
    } else {
        ram
    }
}

/// MEMVAL after the step.
pub open spec fn spec_step_memval(s: DspState, r: Seq<u8>, ram: Seq<u8>, step: int) -> Seq<i32> {
    let i = inst_at(r, step);
    if mem_access(i, step) && i.mrd != 0 {
        let h = le_value(ram, spec_mem_addr(s, r, i), 2) as u16;
        s.memval@.update((step + 2) % 4, spec_mem_read(i, h) as i32)
    } else {
        s.memval@
    }
}

/// FRC_REG after the step.
pub open spec fn spec_frc(s: DspState, i: Inst, shifted: int) -> int {
    if i.frcl != 0 {
        if i.shift == 3 { shifted % 0x1000 } else { (shifted / 2048) % 0x2000 }
    } else {
        s.frc_reg as int
    }
}

/// ADRS_REG after the step.
pub open spec fn spec_adrs(s: DspState, i: Inst, shifted: int, inputs: int) -> int {
    if i.adrl != 0 {
        if i.shift == 3 { (shifted / 0x1000) % 0x1000 } else { (inputs / 0x1_0000) % 0x1000 }
    } else {
        s.adrs_reg as int
    }
}

proof fn lemma_inst_fields(w0: u32, w1: u32, w2: u32, w3: u32)
    ensures
        ({
            let i = spec_decode(w0, w1, w2, w3);
            &&& i.tra < 128 && i.twa < 128 && i.ira < 64 && i.iwa < 32 && i.ewa < 16 && i.masa < 64
            &&& i.ysel < 4 && i.shift < 4
        }),
{
    lemma_mask_u32(w0 >> 9u32);
    lemma_mask_u32(w0 >> 1u32);
    lemma_mask_u32(w1 >> 7u32);
    lemma_mask_u32(w1 >> 1u32);
    lemma_mask_u32(w1 >> 13u32);
    lemma_mask_u32(w2 >> 8u32);
    lemma_mask_u32(w2 >> 4u32);
    lemma_mask_u32(w3 >> 9u32);
}

/// The byte address of a ring-buffer access is even, so the half-word at it
/// lies inside sound RAM.
proof fn lemma_ram_halfword(a3: u32, w: u32)
    by (bit_vector)
    ensures
        (a3 << 1u32).wrapping_add(((w & 0xFFF) * 2048) as u32) & 0x1F_FFFF <= 0x1F_FFFE,
{
}

/// Storing a value into a two-halves register and reading it back gives its
/// low 24 bits.
pub proof fn lemma_dual_roundtrip(v: u32)
    by (bit_vector)
    ensures
        (v & 0xFF) | (((v >> 8u32) & 0xFFFF) << 8u32) == v & 0xFF_FFFF,
{
}

impl Aica {
    fn dual(&self, off: usize, sh: u32) -> (v: u32)
        requires
            off + 8 <= self.regs.len(),
            sh < 32,
        ensures
            v == dual_bits(self.regs@, off as int, sh),
    {
        self.word(off) | (self.word(off + 4) << sh)
    }

    fn set_dual(&mut self, off: usize, v: u32)
        requires
            off + 8 <= old(self).regs.len(),
        ensures
            final(self).regs@ == store_dual(old(self).regs@, off as int, v),
            final(self).regs.len() == old(self).regs.len(),
            final(self).ram == old(self).ram,
            final(self).dsp == old(self).dsp,
    {
        self.set_word(off, v & 0xFF);
        self.set_word(off + 4, (v >> 8) & 0xFFFF);
    }
}

/// MEMS register `idx` as a signed value (its low byte and high part).
pub fn get_mems(aica: &Aica, idx: usize) -> (v: i32)
    requires
        aica.wf(),
        idx < 32,
    ensures
        v == signed_of(mems_bits(aica.regs@, idx as int)),
{
    from_bits(aica.dual(DSP_MEMS + 8 * idx, 8))
}

/// Sets MEMS register `idx` from the low 24 bits of `val`.
pub fn set_mems(aica: &mut Aica, idx: usize, val: i32)
    requires
        old(aica).wf(),
        idx < 32,
    ensures
        final(aica).wf(),
        final(aica).regs@ == store_dual(old(aica).regs@, DSP_MEMS + 8 * idx, bits_of(val)),
        final(aica).ram == old(aica).ram,
        final(aica).dsp == old(aica).dsp,
{
    let b = to_bits(val);
    aica.set_dual(DSP_MEMS + 8 * idx, b);
}

/// MIXS register `idx` as a signed value (low part and high part shifted by 4).
pub fn get_mixs(aica: &Aica, idx: usize) -> (v: i32)
    requires
        aica.wf(),
        idx < 16,
    ensures
        v == signed_of(mixs_bits(aica.regs@, idx as int)),
{
    from_bits(aica.dual(DSP_MIXS + 8 * idx, 4))
}

/// TEMP register `idx` as a signed value.
pub fn get_temp(aica: &Aica, idx: usize) -> (v: i32)
    requires
        aica.wf(),
        idx < 128,
    ensures
        v == signed_of(temp_bits(aica.regs@, idx as int)),
{
    from_bits(aica.dual(DSP_TEMP + 8 * idx, 8))
}

/// Sets TEMP register `idx` from the low 24 bits of `val`.
pub fn set_temp(aica: &mut Aica, idx: usize, val: i32)
    requires
        old(aica).wf(),
        idx < 128,
    ensures
        final(aica).wf(),
        final(aica).regs@ == store_dual(old(aica).regs@, DSP_TEMP + 8 * idx, bits_of(val)),
        final(aica).ram == old(aica).ram,
        final(aica).dsp == old(aica).dsp,
{
    let b = to_bits(val);
    aica.set_dual(DSP_TEMP + 8 * idx, b);
}

/// A two-halves register reads back the low 24 bits of what was stored.
pub proof fn lemma_dual_store_load(r: Seq<u8>, off: int, v: u32)
    requires
        r.len() == AICA_REG_SIZE,
        0 <= off,
        off + 8 <= AICA_REG_SIZE,
    ensures
        dual_bits(store_dual(r, off, v), off, 8) == v & 0xFF_FFFF,
{
    let r1 = store_bytes(r, off, 4, (v & 0xFF) as nat);
    lemma_store_then_load(r, off, 4, (v & 0xFF) as nat, off + 4, 4);
    lemma_write_then_read_reg(r1, off + 4, (v >> 8u32) & 0xFFFF, off);
    lemma_write_then_read_reg(r, off, v & 0xFF, off);
    lemma_dual_roundtrip(v);
}

/// The values a step computes from the registers as they were before it.
struct StepValues {
    inputs: i64,
    b: i64,
    x: i64,
    y: i64,
    shifted: i64,
    acc: i64,
}

/// The operand, shifter and accumulator values of step `step` of `aica`.
#[verifier::rlimit(30)]
fn step_values(aica: &Aica, i: &Inst, step: usize) -> (v: StepValues)
    requires
        aica.wf(),
        step < 128,
        *i == inst_at(aica.regs@, step as int),
    ensures
        ({
            let s = aica.dsp;
            let r = aica.regs@;
            &&& v.inputs == sext24(inputs_raw(r, i.ira) as int)
            &&& v.b == spec_b(s, r, *i)
            &&& v.x == spec_x(s, r, *i, v.inputs as int)
            &&& v.y == spec_y(s, r, *i, step as int)
            &&& v.shifted == spec_shifted(s.acc as int, i.shift)
            &&& v.acc == spec_acc(v.x as int, v.y as int, v.b as int)
        }),
        -0x80_0000 <= v.inputs < 0x80_0000,
        -0x80_0000 <= v.x < 0x80_0000,
        -0x200_0000 <= v.b <= 0x200_0000,
        i32::MIN <= v.y <= i32::MAX,
        -0x80_0000 <= v.shifted < 0x80_0000,
        -0x200_0000 <= v.acc < 0x200_0000,
{
    let base = DSP_MPRO + 16 * step;
    proof {
        lemma_inst_fields(reg_word(aica.regs@, base as int), reg_word(aica.regs@, base + 4),
            reg_word(aica.regs@, base + 8), reg_word(aica.regs@, base + 12));
    }
    let mdec = aica.dsp.mdec_ct;
    let acc = aica.dsp.acc;

    let raw: u32 = if i.ira <= 0x1F {
        aica.dual(DSP_MEMS + 8 * (i.ira as usize), 8)
    } else if i.ira <= 0x2F {
        aica.dual(DSP_MIXS + 8 * ((i.ira - 0x20) as usize), 4) << 4
    } else if i.ira <= 0x31 {
        aica.word(DSP_EXTS + 4 * ((i.ira - 0x30) as usize)) << 8
    } else {
        0
    };
    let inputs = sext_exec(raw as i64, 0x100_0000);

    let ta = i.tra + mdec;
    proof { lemma_mask_u32(ta); }
    let ti = (ta & 0x7F) as usize;
    let tb = aica.dual(DSP_TEMP + 8 * ti, 8);
    let b: i64 = if i.zero == 0 {
        let b0: i64 = if i.bsel != 0 { acc as i64 } else { sext_exec(4 * (tb as i64), 0x400_0000) };
        if i.negb != 0 { -b0 } else { b0 }
    } else {
        0
    };
    let x: i64 = if i.xsel != 0 { inputs } else { sext_exec(tb as i64, 0x100_0000) };
    let y: i64 = if i.ysel == 0 {
        aica.dsp.frc_reg as i64
    } else if i.ysel == 1 {
        (aica.word(DSP_COEF + 4 * step) / 8) as i64
    } else if i.ysel == 2 {
        mod_floor(floor_div(aica.dsp.y_reg as i64, 2048), 8192)
    } else {
        mod_floor(floor_div(aica.dsp.y_reg as i64, 16), 4096)
    };

    let shifted: i64 = if i.shift == 0 {
        let q = floor_div(acc as i64, 4);
        if q > 0x7_FFFF { 0x7_FFFF } else if q < -0x8_0000 { -0x8_0000 } else { q }
    } else if i.shift == 1 {
        let q = floor_div(acc as i64, 2);
        if q > 0x7_FFFF { 0x7_FFFF } else if q < -0x8_0000 { -0x8_0000 } else { q }
    } else if i.shift == 2 {
        sext_exec(floor_div(acc as i64, 2), 0x100_0000)
    } else {
        sext_exec(floor_div(acc as i64, 4), 0x100_0000)
    };

    let ys = sext_exec(y, 0x2000);
    assert(-0x80_0000 * 0x1000 <= x * ys <= 0x80_0000 * 0x1000) by (nonlinear_arith)
        requires
            -0x80_0000 <= x < 0x80_0000,
            -0x1000 <= ys < 0x1000;
    let v = floor_div(x * ys, 1024);
    let new_acc = sext_exec(v + b, 0x400_0000);
    StepValues { inputs, b, x, y, shifted, acc: new_acc }
}

/// The sound RAM byte address of the ring-buffer access of instruction `i`.
#[verifier::rlimit(30)]
fn ring_addr(aica: &Aica, i: &Inst) -> (am: usize)
    requires
        aica.wf(),
        i.masa < 64,
    ensures
        am == spec_mem_addr(aica.dsp, aica.regs@, *i),
        am + 2 <= AICA_RAM_SIZE,
{
    let common = aica.word(COMMON_DATA + 4);
    let cd = CommonData {
        mvol_ver_dac18b_mem8mb_mono: 0,
        rbp_rbl_testb0: common,
        mibuf_flags: 0,
        mobuf_mslc_afset: 0,
        eg_sgc_lp: 0,
        ca: 0,
    };
    let mdec = aica.dsp.mdec_ct;
    let adrs = aica.dsp.adrs_reg;
    let mut addr = aica.word(DSP_MADRS + 4 * (i.masa as usize));
    if i.adreb != 0 {
        addr = addr.wrapping_add(adrs & 0x0FFF);
    }
    if i.nxadr != 0 {
        addr = addr.wrapping_add(1);
    }
    if i.table == 0 {
        addr = addr.wrapping_add(mdec);
        addr = addr & (cd.rbl() - 1);
    } else {
        addr = addr & 0xFFFF;
    }
    let a3 = addr;
    addr = addr << 1;
    addr = addr.wrapping_add(cd.rbp());
    proof { lemma_ram_halfword(a3, common); }
    (addr & ARAM_MASK) as usize
}

/// The ring-buffer access of step `step`: reads into MEMVAL and writes the
/// shifter output to sound RAM, on odd steps whose instruction asks for it.
#[verifier::rlimit(30)]
fn ring_access(aica: &mut Aica, i: &Inst, step: usize, shifted: i64)
    requires
        old(aica).wf(),
        step < 128,
        *i == inst_at(old(aica).regs@, step as int),
        shifted == spec_shifted(old(aica).dsp.acc as int, i.shift),
        -0x80_0000 <= shifted < 0x80_0000,
    ensures
        final(aica).wf(),
        final(aica).regs == old(aica).regs,
        final(aica).dsp == (DspState { memval: final(aica).dsp.memval, ..old(aica).dsp }),
        final(aica).dsp.memval@ == spec_step_memval(old(aica).dsp, old(aica).regs@, old(aica).ram@, step as int),
        final(aica).ram@ == spec_step_ram(old(aica).dsp, old(aica).regs@, old(aica).ram@, step as int),
{
    let ghost s0 = aica.dsp;
    let ghost r0 = aica.regs@;
    let ghost ram0 = aica.ram@;
    let base = DSP_MPRO + 16 * step;
    proof {
        lemma_inst_fields(reg_word(aica.regs@, base as int), reg_word(aica.regs@, base + 4),
            reg_word(aica.regs@, base + 8), reg_word(aica.regs@, base + 12));
    }
    if step % 2 != 0 && (i.mrd != 0 || i.mwt != 0) {
        let am = ring_addr(aica, i);
        if i.mrd != 0 {
            let h = load_u16(&aica.ram, am);
            let val: i32 = if i.nofl != 0 {
                let sv: i32 = if h < 0x8000 { h as i32 } else { h as i32 - 0x1_0000 };
                sv * 256
            } else {
                unpack(h)
            };
            aica.dsp.memval[(step + 2) % 4] = val;
        }
        if i.mwt != 0 {
            let out: u16 = if i.nofl != 0 {
                mod_floor(floor_div(shifted, 256), 0x1_0000) as u16
            } else {
                pack(shifted as i32)
            };
            store_le(&mut aica.ram, am, 2, out as u64);
            proof { lemma_store_then_load(ram0, am as int, 2, out as nat, 0, 0); }
        }
    }
    proof {
        assert(aica.dsp.memval@ =~= spec_step_memval(s0, r0, ram0, step as int));
    }
}

/// The step's writes to MEMS, TEMP and EFREG.
#[verifier::rlimit(30)]
fn write_back(aica: &mut Aica, i: &Inst, step: usize, shifted: i64)
    requires
        old(aica).wf(),
        step < 128,
        *i == inst_at(old(aica).regs@, step as int),
        shifted == spec_shifted(old(aica).dsp.acc as int, i.shift),
        -0x80_0000 <= shifted < 0x80_0000,
    ensures
        final(aica).wf(),
        final(aica).dsp == old(aica).dsp,
        final(aica).ram == old(aica).ram,
        final(aica).regs@ == spec_step_regs(old(aica).dsp, old(aica).regs@, step as int),
{
    let base = DSP_MPRO + 16 * step;
    proof {
        lemma_inst_fields(reg_word(aica.regs@, base as int), reg_word(aica.regs@, base + 4),
            reg_word(aica.regs@, base + 8), reg_word(aica.regs@, base + 12));
    }
    let ghost r = aica.regs@;
    let ghost s0 = aica.dsp;
    let mdec = aica.dsp.mdec_ct;
    if i.iwt != 0 {
        let mv = aica.dsp.memval[step % 4];
        set_mems(aica, i.iwa as usize, mv);
    }
    let ghost r1 = aica.regs@;
    assert(r1 == (if i.iwt != 0 {
        store_dual(r, DSP_MEMS + 8 * i.iwa, bits_of(s0.memval[(step % 4) as int]))
    } else {
        r
    }));
    if i.twt != 0 {
        let tsum = i.twa + mdec;
        proof { lemma_mask_u32(tsum); }
        let tw = (tsum & 0x7F) as usize;
        assert(tw == temp_slot(i.twa, mdec));
        set_temp(aica, tw, shifted as i32);
    }
    let ghost r2 = aica.regs@;
    assert(r2 == (if i.twt != 0 {
        store_dual(r1, DSP_TEMP + 8 * temp_slot(i.twa, s0.mdec_ct), bits_of(shifted as i32))
    } else {
        r1
    }));
    if i.ewt != 0 {
        let off = DSP_EFREG + 4 * (i.ewa as usize);
        let e = aica.word(off);
        let q = floor_div(shifted, 16);
        let add = to_bits(q as i32);
        let sum = e.wrapping_add(add);
        assert(sum == efreg_sum(e, shifted as int));
        aica.set_word(off, sum);
    }
}

/// Step `step_num` of the microprogram: reads the operands, runs the
/// multiply-accumulate and the shifter, moves data between the registers
/// and, on odd steps, between the ring buffer in sound RAM and MEMVAL.
#[verifier::rlimit(30)]
pub fn step(aica: &mut Aica, step_num: i32)
    requires
        old(aica).wf(),
        0 <= step_num < 128,
    ensures
        final(aica).wf(),
        ({
            let s = old(aica).dsp;
            let r = old(aica).regs@;
            let st = step_num as int;
            let i = inst_at(r, st);
            let inputs = sext24(inputs_raw(r, i.ira) as int);
            let b = spec_b(s, r, i);
            let x = spec_x(s, r, i, inputs);
            let y = spec_y(s, r, i, st);
            let shifted = spec_shifted(s.acc as int, i.shift);
            let n = final(aica).dsp;
            &&& n.inputs == inputs
            &&& n.b == b
            &&& n.x == x
            &&& n.y == y
            &&& n.y_reg == (if i.yrl != 0 { inputs } else { s.y_reg as int })
            &&& n.shifted == shifted
            &&& n.acc == spec_acc(x, y, b)
            &&& n.frc_reg == spec_frc(s, i, shifted)
            &&& n.adrs_reg == spec_adrs(s, i, shifted, inputs)
            &&& n.mdec_ct == s.mdec_ct
            &&& n.memval@ == spec_step_memval(s, r, old(aica).ram@, st)
            &&& final(aica).regs@ == spec_step_regs(s, r, st)
            &&& final(aica).ram@ == spec_step_ram(s, r, old(aica).ram@, st)
        }),
{
    let ghost s0 = aica.dsp;
    let ghost r0 = aica.regs@;
    let step = step_num as usize;
    let base = DSP_MPRO + 16 * step;
    let w0 = aica.word(base);
    let w1 = aica.word(base + 4);
    let w2 = aica.word(base + 8);
    let w3 = aica.word(base + 12);
    let i = decode_inst(w0, w1, w2, w3);
    proof { lemma_inst_fields(w0, w1, w2, w3); }
    let v = step_values(aica, &i, step);
    let mdec = aica.dsp.mdec_ct;
    let frc = aica.dsp.frc_reg;
    let yreg = aica.dsp.y_reg;
    let adrs = aica.dsp.adrs_reg;

    ring_access(aica, &i, step, v.shifted);
    proof {
        assert(spec_step_regs(aica.dsp, r0, step as int) == spec_step_regs(s0, r0, step as int)) by {
            assert((step + 2) % 4 != step % 4);
            assert(aica.dsp.memval@[(step % 4) as int] == s0.memval@[(step % 4) as int]);
        }
    }
    write_back(aica, &i, step, v.shifted);
    let new_frc: i64 = if i.frcl != 0 {
        if i.shift == 3 { mod_floor(v.shifted, 0x1000) } else { mod_floor(floor_div(v.shifted, 2048), 0x2000) }
    } else {
        frc as i64
    };
    let new_adrs: u32 = if i.adrl != 0 {
        if i.shift == 3 {
            mod_floor(floor_div(v.shifted, 0x1000), 0x1000) as u32
        } else {
            mod_floor(floor_div(v.inputs, 0x1_0000), 0x1000) as u32
        }
    } else {
        adrs
    };
    let new_yreg: i64 = if i.yrl != 0 { v.inputs } else { yreg as i64 };

    let memval = aica.dsp.memval;
    aica.dsp = DspState {
        mdec_ct: mdec,
        acc: v.acc as i32,
        shifted: v.shifted as i32,
        x: v.x as i32,
        y: v.y as i32,
        b: v.b as i32,
        inputs: v.inputs as i32,
        memval,
        frc_reg: new_frc as i32,
        y_reg: new_yreg as i32,
        adrs_reg: new_adrs,
    };
}

/// Clears the sixteen EFREG outputs before a 128-step pass.
pub fn step_128_start(aica: &mut Aica)
    requires
        old(aica).wf(),
    ensures
        final(aica).wf(),
        final(aica).dsp == old(aica).dsp,
        final(aica).ram == old(aica).ram,
        final(aica).regs@.len() == old(aica).regs@.len(),
        forall|k: int| DSP_EFREG <= k < DSP_EFREG + 64 ==> #[trigger] final(aica).regs@[k] == 0,
        forall|k: int| 0 <= k < AICA_REG_SIZE && !(DSP_EFREG <= k < DSP_EFREG + 64)
            ==> #[trigger] final(aica).regs@[k] == old(aica).regs@[k],
{
    let mut k: usize = 0;
    while k < 64
        invariant
            k <= 64,
            aica.wf(),
            aica.dsp == old(aica).dsp,
            aica.ram == old(aica).ram,
            forall|j: int| DSP_EFREG <= j < DSP_EFREG + k ==> #[trigger] aica.regs@[j] == 0,
            forall|j: int| 0 <= j < AICA_REG_SIZE && !(DSP_EFREG <= j < DSP_EFREG + k)
                ==> #[trigger] aica.regs@[j] == old(aica).regs@[j],
        decreases 64 - k,
    {
        aica.regs.set(DSP_EFREG + k, 0);
        k = k + 1;
    }
}

/// Ends a 128-step pass: the ring counter moves down by one, and from 1
/// wraps to the ring buffer length.
pub fn step_128_end(aica: &mut Aica)
    requires
        old(aica).wf(),
    ensures
        final(aica).wf(),
        final(aica).regs == old(aica).regs,
        final(aica).ram == old(aica).ram,
        final(aica).dsp.mdec_ct == (if old(aica).dsp.mdec_ct == 1 {
            spec_rbl(reg_word(old(aica).regs@, COMMON_DATA + 4))
        } else {
            (old(aica).dsp.mdec_ct - 1) as u32
        }),
        final(aica).dsp == (DspState { mdec_ct: final(aica).dsp.mdec_ct, ..old(aica).dsp }),
{
    let m = aica.dsp.mdec_ct.wrapping_sub(1);
    if m == 0 {
        let cd = aica.common_data();
        aica.dsp.mdec_ct = cd.rbl();
    } else {
        aica.dsp.mdec_ct = m;
    }
}

/// The pipeline registers, in the order MDEC_CT, ACC, SHIFTED, X, Y, B,
/// INPUTS, MEMVAL[0..4], FRC_REG, Y_REG, ADRS_REG.
pub fn get_dsp_registers(aica: &Aica) -> (v: Vec<i32>)
    requires
        aica.wf(),
    ensures
        v@ == seq![
            aica.dsp.mdec_ct as i32, aica.dsp.acc, aica.dsp.shifted, aica.dsp.x, aica.dsp.y,
            aica.dsp.b, aica.dsp.inputs, aica.dsp.memval[0], aica.dsp.memval[1],
            aica.dsp.memval[2], aica.dsp.memval[3], aica.dsp.frc_reg, aica.dsp.y_reg,
            signed_of(aica.dsp.adrs_reg),
        ],
{
    let d = &aica.dsp;
    let v = vec![
        d.mdec_ct as i32, d.acc, d.shifted, d.x, d.y, d.b, d.inputs, d.memval[0], d.memval[1],
        d.memval[2], d.memval[3], d.frc_reg, d.y_reg, from_bits(d.adrs_reg),
    ];
    v
}

} // verus!
