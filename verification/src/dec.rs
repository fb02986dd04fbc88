//! Instruction words: their fields, the pattern language of the opcode
//! table, the 64K-entry decode table and the disassembler text.

use vstd::prelude::*;
use vstd::string::StringSliceAdditionalSpecFns;
use crate::isa::Sh4Op;

verus! {

/// What the decoder needs to know of the CPU: the PC of the instruction and
/// the precision and transfer-size bits of FPSCR.
#[allow(non_snake_case)]
#[derive(Clone, Copy, PartialEq, Eq, Structural)]
pub struct SH4DecoderState {
    pub pc: u32,
    pub fpscr_PR: bool,
    pub fpscr_SZ: bool,
}

/// Field n (bits 8..11).
pub open spec fn field_n(op: u16) -> int {
    ((op / 256) % 16) as int
}

/// Field m (bits 4..7).
pub open spec fn field_m(op: u16) -> int {
    ((op / 16) % 16) as int
}

/// The low byte read as a signed 8-bit value.
pub open spec fn simm8(op: u16) -> int {
    let b = (op % 256) as int;
    if b < 128 { b } else { b - 256 }
}

/// The low 12 bits read as a signed 12-bit value.
pub open spec fn simm12(op: u16) -> int {
    let b = (op % 4096) as int;
    if b < 2048 { b } else { b - 4096 }
}

/// Register field n.
#[allow(non_snake_case)]
pub fn GetN(op: u16) -> (n: usize)
    ensures
        n == field_n(op),
        n < 16,
{
    ((op / 256) % 16) as usize
}

/// Register field m.
#[allow(non_snake_case)]
pub fn GetM(op: u16) -> (m: usize)
    ensures
        m == field_m(op),
        m < 16,
{
    ((op / 16) % 16) as usize
}

/// The low 4 bits.
#[allow(non_snake_case)]
pub fn GetImm4(op: u16) -> (i: u32)
    ensures
        i == op % 16,
{
    (op % 16) as u32
}

/// The low 8 bits.
#[allow(non_snake_case)]
pub fn GetImm8(op: u16) -> (i: u32)
    ensures
        i == op % 256,
{
    (op % 256) as u32
}

/// The low 8 bits, sign-extended.
#[allow(non_snake_case)]
pub fn GetSImm8(op: u16) -> (i: i32)
    ensures
        i == simm8(op),
{
    let b = (op % 256) as i32;
    if b < 128 { b } else { b - 256 }
}

/// The low 12 bits.
#[allow(non_snake_case)]
pub fn GetImm12(op: u16) -> (i: u32)
    ensures
        i == op % 4096,
{
    (op % 4096) as u32
}

/// The low 12 bits, sign-extended.
#[allow(non_snake_case)]
pub fn GetSImm12(op: u16) -> (i: i32)
    ensures
        i == simm12(op),
{
    let b = (op % 4096) as i32;
    if b < 2048 { b } else { b - 4096 }
}

/// The operand address of a PC-relative long load: the PC plus 4, rounded
/// down to a multiple of 4, plus 4 times the displacement.
pub open spec fn spec_data_target_s8(pc: u32, disp8: int) -> u32 {
    ((((pc as int + 4) % 0x1_0000_0000) / 4 * 4 + 4 * disp8) % 0x1_0000_0000) as u32
}

/// The operand address of a PC-relative long load.
pub fn data_target_s8(pc: u32, disp8: i32) -> (a: u32)
    requires
        0 <= disp8 < 256,
    ensures
        a == spec_data_target_s8(pc, disp8 as int),
{
    let base = pc.wrapping_add(4);
    let aligned = base / 4 * 4;
    aligned.wrapping_add((disp8 as u32) * 4)
}

/// The target of a short branch: PC + 4 + 2 * displacement.
pub open spec fn spec_branch_target(pc: u32, disp: int) -> u32 {
    ((pc as int + 4 + 2 * disp) % 0x1_0000_0000) as u32
}

/// The target of an 8-bit displacement branch.
pub fn branch_target_s8(pc: u32, disp8: i32) -> (a: u32)
    requires
        -128 <= disp8 < 128,
    ensures
        a == spec_branch_target(pc, disp8 as int),
{
    let t = disp8 as i64 * 2 + 4 + pc as i64;
    wrap_i64(t)
}

/// The target of a 12-bit displacement branch.
pub fn branch_target_s12(pc: u32, disp12: i32) -> (a: u32)
    requires
        -2048 <= disp12 < 2048,
    ensures
        a == spec_branch_target(pc, disp12 as int),
{
    let t = disp12 as i64 * 2 + 4 + pc as i64;
    wrap_i64(t)
}

/// The low 32 bits of `t`.
fn wrap_i64(t: i64) -> (r: u32)
    ensures
        r == (t % 0x1_0000_0000) as u32,
{
    match t.checked_rem_euclid(0x1_0000_0000) {
        Some(v) => v as u32,
        None => 0,
    }
}

/// One character of an opcode pattern: `0` and `1` are fixed bits, `_`
/// separates groups, and anything else is a variable bit.
pub open spec fn parse_step(mk: (u16, u16), c: u8) -> (u16, u16) {
    if c == 48u8 {
        ((mk.0 << 1u16) | 1u16, mk.1 << 1u16)
    } else if c == 49u8 {
        ((mk.0 << 1u16) | 1u16, (mk.1 << 1u16) | 1u16)
    } else if c != 95u8 {
        (mk.0 << 1u16, mk.1 << 1u16)
    } else {
        mk
    }
}

/// The (mask, key) of a pattern, read from byte `i` on.
pub open spec fn parse_from(b: Seq<u8>, i: int, mk: (u16, u16)) -> (u16, u16)
    decreases b.len() - i,
{
    if i >= b.len() { mk } else { parse_from(b, i + 1, parse_step(mk, b[i])) }
}

/// The (mask, key) of a pattern such as `i0011_nnnn_mmmm_1100`: the first
/// character is skipped.
pub open spec fn spec_parse_opcode(b: Seq<u8>) -> (u16, u16) {
    parse_from(b, 1, (0u16, 0u16))
}

/// Whether bit `k` of `x` is set.
pub open spec fn bit16(x: u16, k: int) -> bool {
    ((x >> (k as u16)) & 1u16) == 1u16
}

/// Whether a pattern character is a fixed bit (`0` or `1`).
pub open spec fn fixed_char(c: u8) -> bool {
    c == 48u8 || c == 49u8
}

/// After reading the pattern characters `b[1..i]`, none of them `_`: each
/// one has its bit in the mask (set when fixed) and in the key (set when
/// `1`), the last one in bit 0, and no higher bits are set.
pub open spec fn parsed_prefix(b: Seq<u8>, i: int, mk: (u16, u16)) -> bool {
    &&& forall|j: int| 1 <= j < i ==> #[trigger] bit16(mk.0, i - 1 - j) == fixed_char(b[j])
        && bit16(mk.1, i - 1 - j) == (b[j] == 49u8)
    &&& i - 1 < 16 ==> (mk.0 >> ((i - 1) as u16)) == 0u16 && (mk.1 >> ((i - 1) as u16)) == 0u16
}

/// Shifting a bit `c` in at the bottom moves every bit up by one.
proof fn lemma_shift_in(m: u16, c: u16, k: u16)
    by (bit_vector)
    requires
        c <= 1,
        1 <= k < 16,
    ensures
        (((m << 1u16) | c) >> k) & 1u16 == (m >> ((k - 1u16) as u16)) & 1u16,
        (((m << 1u16) | c) >> 0u16) & 1u16 == c,
        (m << 1u16) | 0u16 == m << 1u16,
{
}

/// Shifting a bit in keeps a value below the next power of two.
proof fn lemma_shift_in_bound(m: u16, c: u16, i: u16)
    by (bit_vector)
    requires
        c <= 1,
        i < 15,
        m >> i == 0u16,
    ensures
        ((m << 1u16) | c) >> ((i + 1u16) as u16) == 0u16,
{
}

proof fn lemma_parse_prefix(b: Seq<u8>, i: int, mk: (u16, u16))
    requires
        b.len() == 17,
        1 <= i <= 17,
        forall|j: int| 1 <= j < 17 ==> b[j] != 95u8,
        parsed_prefix(b, i, mk),
    ensures
        parsed_prefix(b, 17, parse_from(b, i, mk)),
    decreases 17 - i,
{
    if i < 17 {
        let c = b[i];
        let f: u16 = if fixed_char(c) { 1 } else { 0 };
        let g: u16 = if c == 49u8 { 1 } else { 0 };
        let n = parse_step(mk, c);
        lemma_shift_in(mk.0, f, 1);
        lemma_shift_in(mk.1, g, 1);
        assert(n == ((mk.0 << 1u16) | f, (mk.1 << 1u16) | g));
        assert forall|j: int| 1 <= j < i + 1 implies #[trigger] bit16(n.0, i - j) == fixed_char(b[j])
            && bit16(n.1, i - j) == (b[j] == 49u8) by {
            if j < i {
                lemma_shift_in(mk.0, f, (i - j) as u16);
                lemma_shift_in(mk.1, g, (i - j) as u16);
                assert(bit16(mk.0, i - 1 - j) == fixed_char(b[j]));
                assert(((i - j) as u16 - 1u16) as int == i - 1 - j);
            }
        }
        if i - 1 < 15 {
            lemma_shift_in_bound(mk.0, f, (i - 1) as u16);
            lemma_shift_in_bound(mk.1, g, (i - 1) as u16);
            assert(((i - 1) as u16 + 1u16) as int == i);
        }
        lemma_parse_prefix(b, i + 1, n);
    }
}

/// The mask and key of a pattern of `i` and sixteen bit characters: bit
/// 15 - j of the mask is set exactly when character j (after the `i`) is
/// `0` or `1`, and bit 15 - j of the key exactly when it is `1`.
pub proof fn lemma_parse_opcode_bits(b: Seq<u8>)
    requires
        b.len() == 17,
        forall|j: int| 1 <= j < 17 ==> b[j] != 95u8,
    ensures
        forall|j: int| 0 <= j < 16 ==> #[trigger] bit16(spec_parse_opcode(b).0, 15 - j) == fixed_char(b[j + 1])
            && bit16(spec_parse_opcode(b).1, 15 - j) == (b[j + 1] == 49u8),
{
    assert((0u16 >> 0u16) == 0u16) by (bit_vector);
    lemma_parse_prefix(b, 1, (0u16, 0u16));
    let mk = spec_parse_opcode(b);
    assert forall|j: int| 0 <= j < 16 implies #[trigger] bit16(mk.0, 15 - j) == fixed_char(b[j + 1])
        && bit16(mk.1, 15 - j) == (b[j + 1] == 49u8) by {
        assert(bit16(mk.0, 17 - 1 - (j + 1)) == fixed_char(b[j + 1]));
    }
}

/// The (mask, key) of an opcode pattern.
pub fn parse_opcode(pattern: &str) -> (mk: (u16, u16))
    ensures
        mk == spec_parse_opcode(pattern.spec_bytes()),
{
    let bytes = pattern.as_bytes();
    let mut i: usize = 1;
    let mut mask: u16 = 0;
    let mut key: u16 = 0;
    while i < bytes.len()
        invariant
            1 <= i,
            spec_parse_opcode(bytes@) == parse_from(bytes@, i as int, (mask, key)),
        decreases bytes.len() - i,
    {
        let c = bytes[i];
        if c == 48u8 || c == 49u8 {
            mask = (mask << 1) | 1;
            if c == 49u8 {
                key = (key << 1) | 1;
            } else {
                key = key << 1;
            }
        } else if c != 95u8 {
            mask = mask << 1;
            key = key << 1;
        }
        i = i + 1;
    }
    (mask, key)
}

/// One entry of the opcode table: the instruction, the name of its pattern,
/// the mask and key that the pattern gives, and its disassembly template.
#[allow(non_camel_case_types)]
#[derive(Clone, Copy)]
pub struct sh4_opcodelistentry {
    pub op: Sh4Op,
    pub handler_name: &'static str,
    pub mask: u16,
    pub key: u16,
    pub diss: &'static str,
}

/// The number of entries of the opcode table, the closing entry included.
pub const NUM_OPCODE_ENTRIES: usize = 213;

/// The table entry of an instruction, with the mask and key of its pattern.
pub fn entry(op: Sh4Op, handler_name: &'static str, diss: &'static str) -> (e: sh4_opcodelistentry)
    ensures
        e.op == op,
        e.handler_name == handler_name,
        e.diss == diss,
        (e.mask, e.key) == spec_parse_opcode(handler_name.spec_bytes()),
{
    let mk = parse_opcode(handler_name);
    sh4_opcodelistentry { op, handler_name, mask: mk.0, key: mk.1, diss }
}

/// The closing entry of the table: its key 0 ends the list, and an opcode
/// that matches no other entry decodes to it.
pub fn sentinel() -> (e: sh4_opcodelistentry)
    ensures
        e == (sh4_opcodelistentry { op: Sh4Op::Unknown, handler_name: "unknown_opcode", mask: 0xFFFF, key: 0, diss: "unknown opcode" }),
        e.op == Sh4Op::Unknown,
        e.mask == 0xFFFF,
        e.key == 0,
{
    sh4_opcodelistentry { op: Sh4Op::Unknown, handler_name: "unknown_opcode", mask: 0xFFFF, key: 0, diss: "unknown opcode" }
}

/// Whether opcode `x` matches the pattern of an entry.
pub open spec fn entry_matches(e: sh4_opcodelistentry, x: u16) -> bool {
    x & e.mask == e.key
}

/// Where the table builder stops reading `l`, looking from `i` on: at the
/// first entry with key 0 (the closing entry), or at the end.
pub open spec fn table_stop(l: Seq<sh4_opcodelistentry>, i: int) -> int
    decreases l.len() - i,
{
    if i >= l.len() {
        l.len() as int
    } else if l[i].key == 0 {
        i
    } else {
        table_stop(l, i + 1)
    }
}

/// The last of the first `k` entries of `l` that `x` matches.
pub open spec fn last_match(l: Seq<sh4_opcodelistentry>, k: int, x: u16) -> Option<int>
    decreases k,
{
    if k <= 0 {
        None
    } else if entry_matches(l[k - 1], x) {
        Some(k - 1)
    } else {
        last_match(l, k - 1, x)
    }
}

/// The entry that decodes opcode `x`: the last entry before the stop that
/// it matches, and otherwise the last entry of the list.
pub open spec fn decoded(l: Seq<sh4_opcodelistentry>, x: u16) -> sh4_opcodelistentry {
    match last_match(l, table_stop(l, 0), x) {
        Some(i) => l[i],
        None => l[l.len() - 1],
    }
}

/// The index of the first entry with key 0, or the length of the list.
fn first_stop(l: &Vec<sh4_opcodelistentry>) -> (k: usize)
    ensures
        k == table_stop(l@, 0),
        k <= l.len(),
{
    let mut i: usize = 0;
    while i < l.len() && l[i].key != 0
        invariant
            i <= l.len(),
            table_stop(l@, 0) == table_stop(l@, i as int),
        decreases l.len() - i,
    {
        i = i + 1;
    }
    i
}

/// The entry that decodes `x`, searched in the first `stop` entries.
fn lookup(l: &Vec<sh4_opcodelistentry>, stop: usize, x: u16) -> (e: sh4_opcodelistentry)
    requires
        0 < l.len(),
        stop == table_stop(l@, 0),
        stop <= l.len(),
    ensures
        e == decoded(l@, x),
{
    let mut found = false;
    let mut best: usize = 0;
    let mut i: usize = 0;
    while i < stop
        invariant
            i <= stop <= l.len(),
            found ==> best < i,
            last_match(l@, i as int, x) == (if found { Some(best as int) } else { None::<int> }),
        decreases stop - i,
    {
        if x & l[i].mask == l[i].key {
            found = true;
            best = i;
        }
        i = i + 1;
    }
    if found { l[best] } else { l[l.len() - 1] }
}

/// The decode table of all 65536 opcodes: entry `x` is the entry of `opcodes`
/// that decodes `x`. Later entries take precedence over earlier ones, the
/// first entry with key 0 ends the list, and an opcode that matches no
/// entry gets the last entry of the list.
pub fn build_opcode_tables(opcodes: &Vec<sh4_opcodelistentry>) -> (t: Vec<sh4_opcodelistentry>)
    requires
        opcodes.len() > 0,
    ensures
        t.len() == 0x10000,
        forall|x: u16| #[trigger] t@[x as int] == decoded(opcodes@, x),
{
    let stop = first_stop(opcodes);
    let mut t: Vec<sh4_opcodelistentry> = Vec::new();
    let mut x: u32 = 0;
    while x < 0x10000
        invariant
            x <= 0x10000,
            t.len() == x,
            stop == table_stop(opcodes@, 0),
            stop <= opcodes.len(),
            opcodes.len() > 0,
            forall|k: int| 0 <= k < x ==> #[trigger] t@[k] == decoded(opcodes@, k as u16),
        decreases 0x10000 - x,
    {
        let e = lookup(opcodes, stop, x as u16);
        t.push(e);
        x = x + 1;
    }
    assert forall|x: u16| #[trigger] t@[x as int] == decoded(opcodes@, x) by {
        assert((x as int) as u16 == x);
    }
    t
}

proof fn lemma_last_match(l: Seq<sh4_opcodelistentry>, k: int, x: u16)
    requires
        k <= l.len(),
    ensures
        last_match(l, k, x) matches Some(i) ==> 0 <= i < k && entry_matches(l[i], x)
            && forall|j: int| i < j < k ==> !entry_matches(#[trigger] l[j], x),
        last_match(l, k, x) is None ==> forall|j: int| 0 <= j < k ==> !entry_matches(#[trigger] l[j], x),
    decreases k,
{
    if k > 0 && !entry_matches(l[k - 1], x) {
        lemma_last_match(l, k - 1, x);
    }
}

proof fn lemma_table_stop(l: Seq<sh4_opcodelistentry>, i: int)
    requires
        0 <= i <= l.len(),
    ensures
        i <= table_stop(l, i) <= l.len(),
        forall|j: int| i <= j < table_stop(l, i) ==> #[trigger] l[j].key != 0,
        table_stop(l, i) < l.len() ==> l[table_stop(l, i)].key == 0,
    decreases l.len() - i,
{
    if i < l.len() && l[i].key != 0 {
        lemma_table_stop(l, i + 1);
    }
}

/// What the decode table gives an opcode: an entry before the first
/// zero-key entry whose pattern the opcode matches, with no later such
/// entry matching it; or, when no entry before the stop matches, the last
/// entry of the list.
pub proof fn lemma_decoded(l: Seq<sh4_opcodelistentry>, x: u16)
    requires
        l.len() > 0,
    ensures
        (exists|i: int| 0 <= i < table_stop(l, 0) && #[trigger] entry_matches(l[i], x)) ==> {
            &&& entry_matches(decoded(l, x), x)
            &&& exists|i: int| #![trigger l[i]] 0 <= i < table_stop(l, 0) && l[i] == decoded(l, x)
                && forall|j: int| i < j < table_stop(l, 0) ==> !entry_matches(#[trigger] l[j], x)
        },
        (forall|i: int| 0 <= i < table_stop(l, 0) ==> !#[trigger] entry_matches(l[i], x)) ==> decoded(l, x) == l[l.len() - 1],
{
    lemma_table_stop(l, 0);
    lemma_last_match(l, table_stop(l, 0), x);
    match last_match(l, table_stop(l, 0), x) {
        Some(i) => {
            assert(l[i] == decoded(l, x));
        },
        None => {},
    }
}

} // verus!
