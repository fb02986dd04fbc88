//! The disassembler: an instruction's template from the decode table with
//! its placeholders filled in from the opcode and the PC.

use vstd::prelude::*;
use crate::alu::wrap32;
use crate::dec::{SH4DecoderState, sh4_opcodelistentry, simm8};
use crate::exec::imm_bits;
use crate::text::{replace_all, digits, digit_char, signed_decimal, hex_prefixed, replace, str_chars,
    concat_chars, signed_decimal_chars, hex_prefixed_chars, chars_to_string, push_digits};

verus! {

/// A prefix followed by a decimal number.
pub open spec fn prefixed_decimal(p: Seq<char>, v: nat) -> Seq<char> {
    p + digits(v, 10)
}

/// The text of the general-register, immediate and displacement fields.
pub open spec fn fill_integer_fields(d: Seq<char>, pc: u32, op: u16) -> Seq<char> {
    let n = ((op / 256) % 16) as nat;
    let m = ((op / 16) % 16) as nat;
    let lo4 = (op % 16) as nat;
    let lo8 = (op % 256) as nat;
    let s = replace_all(d, "<REG_N>"@, prefixed_decimal("r"@, n));
    let s = replace_all(s, "<REG_M>"@, prefixed_decimal("r"@, m));
    let s = replace_all(s, "<IMM4>"@, prefixed_decimal("#"@, lo4));
    let s = replace_all(s, "<IMM8>"@, "#"@ + signed_decimal(simm8(op)));
    let s = replace_all(s, "<imm8>"@, "#"@ + signed_decimal(simm8(op)));
    let s = replace_all(s, "<simm8>"@, signed_decimal(simm8(op)));
    let s = replace_all(s, "<simm8hex>"@, hex_prefixed(wrap32(simm8(op)) as nat));
    let s = replace_all(s, "<bdisp8>"@, hex_prefixed(pc.wrapping_add(wrap32(2 * simm8(op))) as nat));
    let s = replace_all(s, "<bdisp12>"@, hex_prefixed(pc.wrapping_add((2 * (op % 4096)) as u32) as nat));
    let s = replace_all(s, "<disp4b>"@, hex_prefixed(lo4));
    let s = replace_all(s, "<disp4w>"@, hex_prefixed(2 * lo4));
    let s = replace_all(s, "<disp4dw>"@, hex_prefixed(4 * lo4));
    let s = replace_all(s, "<disp8b>"@, hex_prefixed(lo8));
    let s = replace_all(s, "<disp8w>"@, hex_prefixed(2 * lo8));
    let s = replace_all(s, "<disp8dw>"@, hex_prefixed(4 * lo8));
    let s = replace_all(s, "<PCdisp8d>"@, hex_prefixed(pc.wrapping_add((4 * lo8) as u32) as nat));
    let s = replace_all(s, "<PCdisp8w>"@, hex_prefixed(pc.wrapping_add((2 * lo8) as u32) as nat));
    let s = replace_all(s, "<GBRdisp8b>"@, "GBR + "@ + hex_prefixed(lo8));
    let s = replace_all(s, "<GBRdisp8w>"@, "GBR + "@ + hex_prefixed(2 * lo8));
    replace_all(s, "<GBRdisp8dw>"@, "GBR + "@ + hex_prefixed(4 * lo8))
}

/// The text of the floating-point register fields.
pub open spec fn fill_float_fields(d: Seq<char>, op: u16) -> Seq<char> {
    let n = ((op / 256) % 16) as nat;
    let m = ((op / 16) % 16) as nat;
    let s = replace_all(d, "<FREG_N>"@, prefixed_decimal("fr"@, n));
    let s = replace_all(s, "<FREG_M>"@, prefixed_decimal("fr"@, m));
    let s = replace_all(s, "<FREG_N_SD_F>"@, prefixed_decimal("fr"@, n));
    let s = replace_all(s, "<FREG_M_SD_F>"@, prefixed_decimal("fr"@, m));
    let s = replace_all(s, "<FREG_N_SD_A>"@, prefixed_decimal("fr"@, n));
    let s = replace_all(s, "<FREG_M_SD_A>"@, prefixed_decimal("fr"@, m));
    let s = replace_all(s, "<DR_N>"@, prefixed_decimal("dr"@, n / 2));
    let s = replace_all(s, "<FV_N>"@, prefixed_decimal("fv"@, n / 4));
    replace_all(s, "<FV_M>"@, prefixed_decimal("fv"@, m / 4))
}

/// The disassembly of `op` at `pc` from its template `d`: each placeholder
/// is replaced, in this order, by the field it names.
pub open spec fn disas_text(d: Seq<char>, pc: u32, op: u16) -> Seq<char> {
    fill_float_fields(fill_integer_fields(d, pc, op), op)
}

/// Whether `s` holds no `<`, the character that opens a placeholder.
pub open spec fn no_open(s: Seq<char>) -> bool {
    forall|i: int| 0 <= i < s.len() ==> #[trigger] s[i] != '<'
}

/// Whether `p` is a placeholder: `<`, a name with neither `<` nor `>`, `>`.
pub open spec fn is_placeholder(p: Seq<char>) -> bool {
    &&& p.len() >= 2
    &&& p[0] == '<'
    &&& p[p.len() - 1] == '>'
    &&& forall|i: int| 0 < i < p.len() - 1 ==> #[trigger] p[i] != '<' && p[i] != '>'
}

/// Replacing a pattern that starts with `<` leaves text without `<` as it is.
proof fn lemma_replace_absent(s: Seq<char>, p: Seq<char>, r: Seq<char>)
    requires
        no_open(s),
        p.len() > 0,
        p[0] == '<',
    ensures
        replace_all(s, p, r) == s,
    decreases s.len(),
{
    if s.len() > 0 {
        if p.len() <= s.len() && s.subrange(0, p.len() as int) == p {
            assert(s.subrange(0, p.len() as int)[0] == s[0]);
        }
        let t = s.subrange(1, s.len() as int);
        lemma_replace_absent(t, p, r);
        assert(seq![s[0]] + t =~= s);
    }
}

/// Text without `<` in front of `t` is kept, and `t` is replaced on its own.
proof fn lemma_replace_after(a: Seq<char>, t: Seq<char>, p: Seq<char>, r: Seq<char>)
    requires
        no_open(a),
        p.len() > 0,
        p[0] == '<',
    ensures
        replace_all(a + t, p, r) == a + replace_all(t, p, r),
    decreases a.len(),
{
    if a.len() == 0 {
        assert(a + t =~= t);
        assert(a + replace_all(t, p, r) =~= replace_all(t, p, r));
    } else {
        let s = a + t;
        if p.len() <= s.len() && s.subrange(0, p.len() as int) == p {
            assert(s.subrange(0, p.len() as int)[0] == s[0]);
        }
        let a1 = a.subrange(1, a.len() as int);
        assert(s.subrange(1, s.len() as int) =~= a1 + t);
        lemma_replace_after(a1, t, p, r);
        assert(seq![a[0]] + (a1 + replace_all(t, p, r)) =~= a + replace_all(t, p, r));
    }
}

/// A placeholder followed by text without `<`: another placeholder leaves
/// it as it is, and the placeholder itself is replaced.
proof fn lemma_replace_at_placeholder(q: Seq<char>, b: Seq<char>, p: Seq<char>, r: Seq<char>)
    requires
        is_placeholder(q),
        is_placeholder(p),
        no_open(b),
    ensures
        replace_all(q + b, p, r) == if p == q { r + b } else { q + b },
{
    let s = q + b;
    if p == q {
        assert(s.subrange(0, p.len() as int) =~= p);
        assert(s.subrange(p.len() as int, s.len() as int) =~= b);
        lemma_replace_absent(b, p, r);
    } else {
        if p.len() <= s.len() && s.subrange(0, p.len() as int) == p {
            if p.len() < q.len() {
                assert(s.subrange(0, p.len() as int)[p.len() - 1] == q[p.len() - 1]);
            } else if p.len() == q.len() {
                assert(p =~= q) by {
                    assert forall|i: int| 0 <= i < p.len() implies p[i] == q[i] by {
                        assert(s.subrange(0, p.len() as int)[i] == s[i]);
                    }
                }
            } else {
                assert(s.subrange(0, p.len() as int)[q.len() - 1] == s[q.len() - 1]);
            }
        }
        let t = s.subrange(1, s.len() as int);
        assert(no_open(t)) by {
            assert forall|i: int| 0 <= i < t.len() implies #[trigger] t[i] != '<' by {
                assert(t[i] == s[i + 1]);
                if i + 1 < q.len() {
                    assert(s[i + 1] == q[i + 1]);
                } else {
                    assert(s[i + 1] == b[i + 1 - q.len()]);
                }
            }
        }
        lemma_replace_absent(t, p, r);
        assert(seq![s[0]] + t =~= s);
    }
}

/// A template `a`, placeholder `q`, text `b`, with `a` and `b` free of `<`:
/// replacing the placeholder `p` fills `q` when `p` is `q`, and changes
/// nothing otherwise.
proof fn lemma_replace_one(a: Seq<char>, q: Seq<char>, b: Seq<char>, p: Seq<char>, r: Seq<char>)
    requires
        no_open(a),
        is_placeholder(q),
        is_placeholder(p),
        no_open(b),
    ensures
        replace_all(a + q + b, p, r) == if p == q { a + r + b } else { a + q + b },
{
    assert(a + q + b =~= a + (q + b));
    lemma_replace_after(a, q + b, p, r);
    lemma_replace_at_placeholder(q, b, p, r);
    assert(a + (r + b) =~= a + r + b);
}

proof fn lemma_digits_no_open(v: nat, base: nat)
    ensures
        no_open(digits(v, base)),
    decreases v,
{
    if base < 2 || v < base {
    } else {
        assert(v / base < v) by (nonlinear_arith)
            requires
                base >= 2,
                v >= base;
        lemma_digits_no_open(v / base, base);
        let d = digits(v / base, base);
        let e = d + seq![digit_char(v % base)];
        assert forall|i: int| 0 <= i < e.len() implies #[trigger] e[i] != '<' by {
            if i < d.len() { assert(e[i] == d[i]); }
        }
    }
}

/// Hexadecimal text holds no `<`.
proof fn lemma_hex_no_open(v: nat)
    ensures
        no_open(hex_prefixed(v)),
{
    lemma_digits_no_open(v, 16);
    let d = digits(v, 16);
    let h = hex_prefixed(v);
    assert forall|i: int| 0 <= i < h.len() implies #[trigger] h[i] != '<' by {
        if i >= 2 { assert(h[i] == d[i - 2]); }
    }
}

/// The `<disp4w>` field of a template is filled with the word displacement
/// of the opcode: twice its low four bits, in hexadecimal (the byte offset
/// that the instruction adds to its base register); the text around it,
/// when it holds no other placeholder, is kept as it is.
#[verifier::rlimit(60)]
pub proof fn lemma_disp4w_filled(a: Seq<char>, b: Seq<char>, pc: u32, op: u16)
    requires
        no_open(a),
        no_open(b),
    ensures
        disas_text(a + "<disp4w>"@ + b, pc, op) == a + hex_prefixed(2 * ((op % 16) as nat)) + b,
{
    reveal_strlit("<REG_N>");
    reveal_strlit("<REG_M>");
    reveal_strlit("<IMM4>");
    reveal_strlit("<IMM8>");
    reveal_strlit("<imm8>");
    reveal_strlit("<simm8>");
    reveal_strlit("<simm8hex>");
    reveal_strlit("<bdisp8>");
    reveal_strlit("<bdisp12>");
    reveal_strlit("<disp4b>");
    reveal_strlit("<disp4w>");
    reveal_strlit("<disp4dw>");
    reveal_strlit("<disp8b>");
    reveal_strlit("<disp8w>");
    reveal_strlit("<disp8dw>");
    reveal_strlit("<PCdisp8d>");
    reveal_strlit("<PCdisp8w>");
    reveal_strlit("<GBRdisp8b>");
    reveal_strlit("<GBRdisp8w>");
    reveal_strlit("<GBRdisp8dw>");
    reveal_strlit("<FREG_N>");
    reveal_strlit("<FREG_M>");
    reveal_strlit("<FREG_N_SD_F>");
    reveal_strlit("<FREG_M_SD_F>");
    reveal_strlit("<FREG_N_SD_A>");
    reveal_strlit("<FREG_M_SD_A>");
    reveal_strlit("<DR_N>");
    reveal_strlit("<FV_N>");
    reveal_strlit("<FV_M>");
    let n = ((op / 256) % 16) as nat;
    let m = ((op / 16) % 16) as nat;
    let lo4 = (op % 16) as nat;
    let lo8 = (op % 256) as nat;
    let q = "<disp4w>"@;
    assert(is_placeholder("<REG_N>"@));
    assert(is_placeholder("<REG_M>"@));
    assert(is_placeholder("<IMM4>"@));
    assert(is_placeholder("<IMM8>"@));
    assert(is_placeholder("<imm8>"@));
    assert(is_placeholder("<simm8>"@));
    assert(is_placeholder("<simm8hex>"@));
    assert(is_placeholder("<bdisp8>"@));
    assert(is_placeholder("<bdisp12>"@));
    assert(is_placeholder("<disp4b>"@));
    assert(is_placeholder("<disp4w>"@));
    assert("<REG_N>"@.len() != "<disp4w>"@.len());
    assert("<REG_M>"@.len() != "<disp4w>"@.len());
    assert("<IMM4>"@.len() != "<disp4w>"@.len());
    assert("<IMM8>"@.len() != "<disp4w>"@.len());
    assert("<imm8>"@.len() != "<disp4w>"@.len());
    assert("<simm8>"@.len() != "<disp4w>"@.len());
    assert("<simm8hex>"@.len() != "<disp4w>"@.len());
    assert("<bdisp8>"@[1] != "<disp4w>"@[1]);
    assert("<bdisp12>"@.len() != "<disp4w>"@.len());
    assert("<disp4b>"@[6] != "<disp4w>"@[6]);
    let h = hex_prefixed(2 * ((op % 16) as nat));
    lemma_hex_no_open(2 * ((op % 16) as nat));
    let out = a + h + b;
    assert(no_open(out)) by {
        assert forall|i: int| 0 <= i < out.len() implies #[trigger] out[i] != '<' by {
            if i < a.len() { assert(out[i] == a[i]); }
            else if i < a.len() + h.len() { assert(out[i] == h[i - a.len()]); }
            else { assert(out[i] == b[i - a.len() - h.len()]); }
        }
    }
    lemma_replace_one(a, q, b, "<REG_N>"@, prefixed_decimal("r"@, n));
    lemma_replace_one(a, q, b, "<REG_M>"@, prefixed_decimal("r"@, m));
    lemma_replace_one(a, q, b, "<IMM4>"@, prefixed_decimal("#"@, lo4));
    lemma_replace_one(a, q, b, "<IMM8>"@, "#"@ + signed_decimal(simm8(op)));
    lemma_replace_one(a, q, b, "<imm8>"@, "#"@ + signed_decimal(simm8(op)));
    lemma_replace_one(a, q, b, "<simm8>"@, signed_decimal(simm8(op)));
    lemma_replace_one(a, q, b, "<simm8hex>"@, hex_prefixed(wrap32(simm8(op)) as nat));
    lemma_replace_one(a, q, b, "<bdisp8>"@, hex_prefixed(pc.wrapping_add(wrap32(2 * simm8(op))) as nat));
    lemma_replace_one(a, q, b, "<bdisp12>"@, hex_prefixed(pc.wrapping_add((2 * (op % 4096)) as u32) as nat));
    lemma_replace_one(a, q, b, "<disp4b>"@, hex_prefixed(lo4));
    lemma_replace_one(a, q, b, q, hex_prefixed(2 * lo4));
    lemma_replace_absent(out, "<disp4dw>"@, hex_prefixed(4 * lo4));
    lemma_replace_absent(out, "<disp8b>"@, hex_prefixed(lo8));
    lemma_replace_absent(out, "<disp8w>"@, hex_prefixed(2 * lo8));
    lemma_replace_absent(out, "<disp8dw>"@, hex_prefixed(4 * lo8));
    lemma_replace_absent(out, "<PCdisp8d>"@, hex_prefixed(pc.wrapping_add((4 * lo8) as u32) as nat));
    lemma_replace_absent(out, "<PCdisp8w>"@, hex_prefixed(pc.wrapping_add((2 * lo8) as u32) as nat));
    lemma_replace_absent(out, "<GBRdisp8b>"@, "GBR + "@ + hex_prefixed(lo8));
    lemma_replace_absent(out, "<GBRdisp8w>"@, "GBR + "@ + hex_prefixed(2 * lo8));
    lemma_replace_absent(out, "<GBRdisp8dw>"@, "GBR + "@ + hex_prefixed(4 * lo8));
    lemma_replace_absent(out, "<FREG_N>"@, prefixed_decimal("fr"@, n));
    lemma_replace_absent(out, "<FREG_M>"@, prefixed_decimal("fr"@, m));
    lemma_replace_absent(out, "<FREG_N_SD_F>"@, prefixed_decimal("fr"@, n));
    lemma_replace_absent(out, "<FREG_M_SD_F>"@, prefixed_decimal("fr"@, m));
    lemma_replace_absent(out, "<FREG_N_SD_A>"@, prefixed_decimal("fr"@, n));
    lemma_replace_absent(out, "<FREG_M_SD_A>"@, prefixed_decimal("fr"@, m));
    lemma_replace_absent(out, "<DR_N>"@, prefixed_decimal("dr"@, n / 2));
    lemma_replace_absent(out, "<FV_N>"@, prefixed_decimal("fv"@, n / 4));
    lemma_replace_absent(out, "<FV_M>"@, prefixed_decimal("fv"@, m / 4));
}

/// Text without `<` joined to text without `<` holds no `<`.
proof fn lemma_concat_no_open(x: Seq<char>, y: Seq<char>)
    requires
        no_open(x),
        no_open(y),
    ensures
        no_open(x + y),
{
    assert forall|i: int| 0 <= i < (x + y).len() implies #[trigger] (x + y)[i] != '<' by {
        if i < x.len() { assert((x + y)[i] == x[i]); } else { assert((x + y)[i] == y[i - x.len()]); }
    }
}

/// Every placeholder that the disassembler fills is `<`, a name, `>`.
proof fn lemma_placeholder_literals()
    ensures
        is_placeholder("<REG_N>"@),
        is_placeholder("<REG_M>"@),
        is_placeholder("<IMM4>"@),
        is_placeholder("<IMM8>"@),
        is_placeholder("<imm8>"@),
        is_placeholder("<simm8>"@),
        is_placeholder("<simm8hex>"@),
        is_placeholder("<bdisp8>"@),
        is_placeholder("<bdisp12>"@),
        is_placeholder("<disp4b>"@),
        is_placeholder("<disp4w>"@),
        is_placeholder("<disp4dw>"@),
        is_placeholder("<disp8b>"@),
        is_placeholder("<disp8w>"@),
        is_placeholder("<disp8dw>"@),
        is_placeholder("<PCdisp8d>"@),
        is_placeholder("<PCdisp8w>"@),
        is_placeholder("<GBRdisp8b>"@),
        is_placeholder("<GBRdisp8w>"@),
        is_placeholder("<GBRdisp8dw>"@),
        is_placeholder("<FREG_N>"@),
        is_placeholder("<FREG_M>"@),
        is_placeholder("<FREG_N_SD_F>"@),
        is_placeholder("<FREG_M_SD_F>"@),
        is_placeholder("<FREG_N_SD_A>"@),
        is_placeholder("<FREG_M_SD_A>"@),
        is_placeholder("<DR_N>"@),
        is_placeholder("<FV_N>"@),
        is_placeholder("<FV_M>"@),
{
    reveal_strlit("<REG_N>");
    reveal_strlit("<REG_M>");
    reveal_strlit("<IMM4>");
    reveal_strlit("<IMM8>");
    reveal_strlit("<imm8>");
    reveal_strlit("<simm8>");
    reveal_strlit("<simm8hex>");
    reveal_strlit("<bdisp8>");
    reveal_strlit("<bdisp12>");
    reveal_strlit("<disp4b>");
    reveal_strlit("<disp4w>");
    reveal_strlit("<disp4dw>");
    reveal_strlit("<disp8b>");
    reveal_strlit("<disp8w>");
    reveal_strlit("<disp8dw>");
    reveal_strlit("<PCdisp8d>");
    reveal_strlit("<PCdisp8w>");
    reveal_strlit("<GBRdisp8b>");
    reveal_strlit("<GBRdisp8w>");
    reveal_strlit("<GBRdisp8dw>");
    reveal_strlit("<FREG_N>");
    reveal_strlit("<FREG_M>");
    reveal_strlit("<FREG_N_SD_F>");
    reveal_strlit("<FREG_M_SD_F>");
    reveal_strlit("<FREG_N_SD_A>");
    reveal_strlit("<FREG_M_SD_A>");
    reveal_strlit("<DR_N>");
    reveal_strlit("<FV_N>");
    reveal_strlit("<FV_M>");
}

/// In a template whose other text holds no `<`, the `<REG_N>` field is `r` and the number in bits 8..11 of the opcode.
#[verifier::rlimit(60)]
pub proof fn lemma_fill_reg_n(a: Seq<char>, b: Seq<char>, pc: u32, op: u16)
    requires
        no_open(a),
        no_open(b),
    ensures
        ({
            let n = ((op / 256) % 16) as nat;
            let m = ((op / 16) % 16) as nat;
            let lo4 = (op % 16) as nat;
            let lo8 = (op % 256) as nat;
            disas_text(a + "<REG_N>"@ + b, pc, op) == a + prefixed_decimal("r"@, n) + b
        }),
{
    let n = ((op / 256) % 16) as nat;
    let m = ((op / 16) % 16) as nat;
    let lo4 = (op % 16) as nat;
    let lo8 = (op % 256) as nat;
    lemma_placeholder_literals();
    reveal_strlit("<REG_N>");
    let q = "<REG_N>"@;
    let h = prefixed_decimal("r"@, n);
    reveal_strlit("r");
    lemma_digits_no_open(n, 10);
    lemma_concat_no_open("r"@, digits(n, 10));
    let out = a + h + b;
    lemma_concat_no_open(a, h);
    lemma_concat_no_open(a + h, b);
    lemma_replace_one(a, q, b, q, h);
    lemma_replace_absent(out, "<REG_M>"@, prefixed_decimal("r"@, m));
    lemma_replace_absent(out, "<IMM4>"@, prefixed_decimal("#"@, lo4));
    lemma_replace_absent(out, "<IMM8>"@, "#"@ + signed_decimal(simm8(op)));
    lemma_replace_absent(out, "<imm8>"@, "#"@ + signed_decimal(simm8(op)));
    lemma_replace_absent(out, "<simm8>"@, signed_decimal(simm8(op)));
    lemma_replace_absent(out, "<simm8hex>"@, hex_prefixed(wrap32(simm8(op)) as nat));
    lemma_replace_absent(out, "<bdisp8>"@, hex_prefixed(pc.wrapping_add(wrap32(2 * simm8(op))) as nat));
    lemma_replace_absent(out, "<bdisp12>"@, hex_prefixed(pc.wrapping_add((2 * (op % 4096)) as u32) as nat));
    lemma_replace_absent(out, "<disp4b>"@, hex_prefixed(lo4));
    lemma_replace_absent(out, "<disp4w>"@, hex_prefixed(2 * lo4));
    lemma_replace_absent(out, "<disp4dw>"@, hex_prefixed(4 * lo4));
    lemma_replace_absent(out, "<disp8b>"@, hex_prefixed(lo8));
    lemma_replace_absent(out, "<disp8w>"@, hex_prefixed(2 * lo8));
    lemma_replace_absent(out, "<disp8dw>"@, hex_prefixed(4 * lo8));
    lemma_replace_absent(out, "<PCdisp8d>"@, hex_prefixed(pc.wrapping_add((4 * lo8) as u32) as nat));
    lemma_replace_absent(out, "<PCdisp8w>"@, hex_prefixed(pc.wrapping_add((2 * lo8) as u32) as nat));
    lemma_replace_absent(out, "<GBRdisp8b>"@, "GBR + "@ + hex_prefixed(lo8));
    lemma_replace_absent(out, "<GBRdisp8w>"@, "GBR + "@ + hex_prefixed(2 * lo8));
    lemma_replace_absent(out, "<GBRdisp8dw>"@, "GBR + "@ + hex_prefixed(4 * lo8));
    lemma_replace_absent(out, "<FREG_N>"@, prefixed_decimal("fr"@, n));
    lemma_replace_absent(out, "<FREG_M>"@, prefixed_decimal("fr"@, m));
    lemma_replace_absent(out, "<FREG_N_SD_F>"@, prefixed_decimal("fr"@, n));
    lemma_replace_absent(out, "<FREG_M_SD_F>"@, prefixed_decimal("fr"@, m));
    lemma_replace_absent(out, "<FREG_N_SD_A>"@, prefixed_decimal("fr"@, n));
    lemma_replace_absent(out, "<FREG_M_SD_A>"@, prefixed_decimal("fr"@, m));
    lemma_replace_absent(out, "<DR_N>"@, prefixed_decimal("dr"@, n / 2));
    lemma_replace_absent(out, "<FV_N>"@, prefixed_decimal("fv"@, n / 4));
    lemma_replace_absent(out, "<FV_M>"@, prefixed_decimal("fv"@, m / 4));
}

/// In a template whose other text holds no `<`, the `<REG_M>` field is `r` and the number in bits 4..7 of the opcode.
#[verifier::rlimit(60)]
pub proof fn lemma_fill_reg_m(a: Seq<char>, b: Seq<char>, pc: u32, op: u16)
    requires
        no_open(a),
        no_open(b),
    ensures
        ({
            let n = ((op / 256) % 16) as nat;
            let m = ((op / 16) % 16) as nat;
            let lo4 = (op % 16) as nat;
            let lo8 = (op % 256) as nat;
            disas_text(a + "<REG_M>"@ + b, pc, op) == a + prefixed_decimal("r"@, m) + b
        }),
{
    let n = ((op / 256) % 16) as nat;
    let m = ((op / 16) % 16) as nat;
    let lo4 = (op % 16) as nat;
    let lo8 = (op % 256) as nat;
    lemma_placeholder_literals();
    reveal_strlit("<REG_M>");
    reveal_strlit("<REG_N>");
    assert("<REG_N>"@[5] != "<REG_M>"@[5]);
    let q = "<REG_M>"@;
    let h = prefixed_decimal("r"@, m);
    reveal_strlit("r");
    lemma_digits_no_open(m, 10);
    lemma_concat_no_open("r"@, digits(m, 10));
    let out = a + h + b;
    lemma_concat_no_open(a, h);
    lemma_concat_no_open(a + h, b);
    lemma_replace_one(a, q, b, "<REG_N>"@, prefixed_decimal("r"@, n));
    lemma_replace_one(a, q, b, q, h);
    lemma_replace_absent(out, "<IMM4>"@, prefixed_decimal("#"@, lo4));
    lemma_replace_absent(out, "<IMM8>"@, "#"@ + signed_decimal(simm8(op)));
    lemma_replace_absent(out, "<imm8>"@, "#"@ + signed_decimal(simm8(op)));
    lemma_replace_absent(out, "<simm8>"@, signed_decimal(simm8(op)));
    lemma_replace_absent(out, "<simm8hex>"@, hex_prefixed(wrap32(simm8(op)) as nat));
    lemma_replace_absent(out, "<bdisp8>"@, hex_prefixed(pc.wrapping_add(wrap32(2 * simm8(op))) as nat));
    lemma_replace_absent(out, "<bdisp12>"@, hex_prefixed(pc.wrapping_add((2 * (op % 4096)) as u32) as nat));
    lemma_replace_absent(out, "<disp4b>"@, hex_prefixed(lo4));
    lemma_replace_absent(out, "<disp4w>"@, hex_prefixed(2 * lo4));
    lemma_replace_absent(out, "<disp4dw>"@, hex_prefixed(4 * lo4));
    lemma_replace_absent(out, "<disp8b>"@, hex_prefixed(lo8));
    lemma_replace_absent(out, "<disp8w>"@, hex_prefixed(2 * lo8));
    lemma_replace_absent(out, "<disp8dw>"@, hex_prefixed(4 * lo8));
    lemma_replace_absent(out, "<PCdisp8d>"@, hex_prefixed(pc.wrapping_add((4 * lo8) as u32) as nat));
    lemma_replace_absent(out, "<PCdisp8w>"@, hex_prefixed(pc.wrapping_add((2 * lo8) as u32) as nat));
    lemma_replace_absent(out, "<GBRdisp8b>"@, "GBR + "@ + hex_prefixed(lo8));
    lemma_replace_absent(out, "<GBRdisp8w>"@, "GBR + "@ + hex_prefixed(2 * lo8));
    lemma_replace_absent(out, "<GBRdisp8dw>"@, "GBR + "@ + hex_prefixed(4 * lo8));
    lemma_replace_absent(out, "<FREG_N>"@, prefixed_decimal("fr"@, n));
    lemma_replace_absent(out, "<FREG_M>"@, prefixed_decimal("fr"@, m));
    lemma_replace_absent(out, "<FREG_N_SD_F>"@, prefixed_decimal("fr"@, n));
    lemma_replace_absent(out, "<FREG_M_SD_F>"@, prefixed_decimal("fr"@, m));
    lemma_replace_absent(out, "<FREG_N_SD_A>"@, prefixed_decimal("fr"@, n));
    lemma_replace_absent(out, "<FREG_M_SD_A>"@, prefixed_decimal("fr"@, m));
    lemma_replace_absent(out, "<DR_N>"@, prefixed_decimal("dr"@, n / 2));
    lemma_replace_absent(out, "<FV_N>"@, prefixed_decimal("fv"@, n / 4));
    lemma_replace_absent(out, "<FV_M>"@, prefixed_decimal("fv"@, m / 4));
}

/// In a template whose other text holds no `<`, the `<disp4b>` field is the low four bits of the opcode (a byte displacement), in hexadecimal.
#[verifier::rlimit(60)]
pub proof fn lemma_fill_disp4b(a: Seq<char>, b: Seq<char>, pc: u32, op: u16)
    requires
        no_open(a),
        no_open(b),
    ensures
        ({
            let n = ((op / 256) % 16) as nat;
            let m = ((op / 16) % 16) as nat;
            let lo4 = (op % 16) as nat;
            let lo8 = (op % 256) as nat;
            disas_text(a + "<disp4b>"@ + b, pc, op) == a + hex_prefixed(lo4) + b
        }),
{
    let n = ((op / 256) % 16) as nat;
    let m = ((op / 16) % 16) as nat;
    let lo4 = (op % 16) as nat;
    let lo8 = (op % 256) as nat;
    lemma_placeholder_literals();
    reveal_strlit("<disp4b>");
    reveal_strlit("<REG_N>");
    assert("<REG_N>"@.len() != "<disp4b>"@.len());
    reveal_strlit("<REG_M>");
    assert("<REG_M>"@.len() != "<disp4b>"@.len());
    reveal_strlit("<IMM4>");
    assert("<IMM4>"@.len() != "<disp4b>"@.len());
    reveal_strlit("<IMM8>");
    assert("<IMM8>"@.len() != "<disp4b>"@.len());
    reveal_strlit("<imm8>");
    assert("<imm8>"@.len() != "<disp4b>"@.len());
    reveal_strlit("<simm8>");
    assert("<simm8>"@.len() != "<disp4b>"@.len());
    reveal_strlit("<simm8hex>");
    assert("<simm8hex>"@.len() != "<disp4b>"@.len());
    reveal_strlit("<bdisp8>");
    assert("<bdisp8>"@[1] != "<disp4b>"@[1]);
    reveal_strlit("<bdisp12>");
    assert("<bdisp12>"@.len() != "<disp4b>"@.len());
    let q = "<disp4b>"@;
    let h = hex_prefixed(lo4);
    lemma_hex_no_open(lo4);
    let out = a + h + b;
    lemma_concat_no_open(a, h);
    lemma_concat_no_open(a + h, b);
    lemma_replace_one(a, q, b, "<REG_N>"@, prefixed_decimal("r"@, n));
    lemma_replace_one(a, q, b, "<REG_M>"@, prefixed_decimal("r"@, m));
    lemma_replace_one(a, q, b, "<IMM4>"@, prefixed_decimal("#"@, lo4));
    lemma_replace_one(a, q, b, "<IMM8>"@, "#"@ + signed_decimal(simm8(op)));
    lemma_replace_one(a, q, b, "<imm8>"@, "#"@ + signed_decimal(simm8(op)));
    lemma_replace_one(a, q, b, "<simm8>"@, signed_decimal(simm8(op)));
    lemma_replace_one(a, q, b, "<simm8hex>"@, hex_prefixed(wrap32(simm8(op)) as nat));
    lemma_replace_one(a, q, b, "<bdisp8>"@, hex_prefixed(pc.wrapping_add(wrap32(2 * simm8(op))) as nat));
    lemma_replace_one(a, q, b, "<bdisp12>"@, hex_prefixed(pc.wrapping_add((2 * (op % 4096)) as u32) as nat));
    lemma_replace_one(a, q, b, q, h);
    lemma_replace_absent(out, "<disp4w>"@, hex_prefixed(2 * lo4));
    lemma_replace_absent(out, "<disp4dw>"@, hex_prefixed(4 * lo4));
    lemma_replace_absent(out, "<disp8b>"@, hex_prefixed(lo8));
    lemma_replace_absent(out, "<disp8w>"@, hex_prefixed(2 * lo8));
    lemma_replace_absent(out, "<disp8dw>"@, hex_prefixed(4 * lo8));
    lemma_replace_absent(out, "<PCdisp8d>"@, hex_prefixed(pc.wrapping_add((4 * lo8) as u32) as nat));
    lemma_replace_absent(out, "<PCdisp8w>"@, hex_prefixed(pc.wrapping_add((2 * lo8) as u32) as nat));
    lemma_replace_absent(out, "<GBRdisp8b>"@, "GBR + "@ + hex_prefixed(lo8));
    lemma_replace_absent(out, "<GBRdisp8w>"@, "GBR + "@ + hex_prefixed(2 * lo8));
    lemma_replace_absent(out, "<GBRdisp8dw>"@, "GBR + "@ + hex_prefixed(4 * lo8));
    lemma_replace_absent(out, "<FREG_N>"@, prefixed_decimal("fr"@, n));
    lemma_replace_absent(out, "<FREG_M>"@, prefixed_decimal("fr"@, m));
    lemma_replace_absent(out, "<FREG_N_SD_F>"@, prefixed_decimal("fr"@, n));
    lemma_replace_absent(out, "<FREG_M_SD_F>"@, prefixed_decimal("fr"@, m));
    lemma_replace_absent(out, "<FREG_N_SD_A>"@, prefixed_decimal("fr"@, n));
    lemma_replace_absent(out, "<FREG_M_SD_A>"@, prefixed_decimal("fr"@, m));
    lemma_replace_absent(out, "<DR_N>"@, prefixed_decimal("dr"@, n / 2));
    lemma_replace_absent(out, "<FV_N>"@, prefixed_decimal("fv"@, n / 4));
    lemma_replace_absent(out, "<FV_M>"@, prefixed_decimal("fv"@, m / 4));
}

/// In a template whose other text holds no `<`, the `<disp4dw>` field is four times the low four bits (a long-word displacement), in hexadecimal.
#[verifier::rlimit(60)]
pub proof fn lemma_fill_disp4dw(a: Seq<char>, b: Seq<char>, pc: u32, op: u16)
    requires
        no_open(a),
        no_open(b),
    ensures
        ({
            let n = ((op / 256) % 16) as nat;
            let m = ((op / 16) % 16) as nat;
            let lo4 = (op % 16) as nat;
            let lo8 = (op % 256) as nat;
            disas_text(a + "<disp4dw>"@ + b, pc, op) == a + hex_prefixed(4 * lo4) + b
        }),
{
    let n = ((op / 256) % 16) as nat;
    let m = ((op / 16) % 16) as nat;
    let lo4 = (op % 16) as nat;
    let lo8 = (op % 256) as nat;
    lemma_placeholder_literals();
    reveal_strlit("<disp4dw>");
    reveal_strlit("<REG_N>");
    assert("<REG_N>"@.len() != "<disp4dw>"@.len());
    reveal_strlit("<REG_M>");
    assert("<REG_M>"@.len() != "<disp4dw>"@.len());
    reveal_strlit("<IMM4>");
    assert("<IMM4>"@.len() != "<disp4dw>"@.len());
    reveal_strlit("<IMM8>");
    assert("<IMM8>"@.len() != "<disp4dw>"@.len());
    reveal_strlit("<imm8>");
    assert("<imm8>"@.len() != "<disp4dw>"@.len());
    reveal_strlit("<simm8>");
    assert("<simm8>"@.len() != "<disp4dw>"@.len());
    reveal_strlit("<simm8hex>");
    assert("<simm8hex>"@.len() != "<disp4dw>"@.len());
    reveal_strlit("<bdisp8>");
    assert("<bdisp8>"@.len() != "<disp4dw>"@.len());
    reveal_strlit("<bdisp12>");
    assert("<bdisp12>"@[1] != "<disp4dw>"@[1]);
    reveal_strlit("<disp4b>");
    assert("<disp4b>"@.len() != "<disp4dw>"@.len());
    reveal_strlit("<disp4w>");
    assert("<disp4w>"@.len() != "<disp4dw>"@.len());
    let q = "<disp4dw>"@;
    let h = hex_prefixed(4 * lo4);
    lemma_hex_no_open(4 * lo4);
    let out = a + h + b;
    lemma_concat_no_open(a, h);
    lemma_concat_no_open(a + h, b);
    lemma_replace_one(a, q, b, "<REG_N>"@, prefixed_decimal("r"@, n));
    lemma_replace_one(a, q, b, "<REG_M>"@, prefixed_decimal("r"@, m));
    lemma_replace_one(a, q, b, "<IMM4>"@, prefixed_decimal("#"@, lo4));
    lemma_replace_one(a, q, b, "<IMM8>"@, "#"@ + signed_decimal(simm8(op)));
    lemma_replace_one(a, q, b, "<imm8>"@, "#"@ + signed_decimal(simm8(op)));
    lemma_replace_one(a, q, b, "<simm8>"@, signed_decimal(simm8(op)));
    lemma_replace_one(a, q, b, "<simm8hex>"@, hex_prefixed(wrap32(simm8(op)) as nat));
    lemma_replace_one(a, q, b, "<bdisp8>"@, hex_prefixed(pc.wrapping_add(wrap32(2 * simm8(op))) as nat));
    lemma_replace_one(a, q, b, "<bdisp12>"@, hex_prefixed(pc.wrapping_add((2 * (op % 4096)) as u32) as nat));
    lemma_replace_one(a, q, b, "<disp4b>"@, hex_prefixed(lo4));
    lemma_replace_one(a, q, b, "<disp4w>"@, hex_prefixed(2 * lo4));
    lemma_replace_one(a, q, b, q, h);
    lemma_replace_absent(out, "<disp8b>"@, hex_prefixed(lo8));
    lemma_replace_absent(out, "<disp8w>"@, hex_prefixed(2 * lo8));
    lemma_replace_absent(out, "<disp8dw>"@, hex_prefixed(4 * lo8));
    lemma_replace_absent(out, "<PCdisp8d>"@, hex_prefixed(pc.wrapping_add((4 * lo8) as u32) as nat));
    lemma_replace_absent(out, "<PCdisp8w>"@, hex_prefixed(pc.wrapping_add((2 * lo8) as u32) as nat));
    lemma_replace_absent(out, "<GBRdisp8b>"@, "GBR + "@ + hex_prefixed(lo8));
    lemma_replace_absent(out, "<GBRdisp8w>"@, "GBR + "@ + hex_prefixed(2 * lo8));
    lemma_replace_absent(out, "<GBRdisp8dw>"@, "GBR + "@ + hex_prefixed(4 * lo8));
    lemma_replace_absent(out, "<FREG_N>"@, prefixed_decimal("fr"@, n));
    lemma_replace_absent(out, "<FREG_M>"@, prefixed_decimal("fr"@, m));
    lemma_replace_absent(out, "<FREG_N_SD_F>"@, prefixed_decimal("fr"@, n));
    lemma_replace_absent(out, "<FREG_M_SD_F>"@, prefixed_decimal("fr"@, m));
    lemma_replace_absent(out, "<FREG_N_SD_A>"@, prefixed_decimal("fr"@, n));
    lemma_replace_absent(out, "<FREG_M_SD_A>"@, prefixed_decimal("fr"@, m));
    lemma_replace_absent(out, "<DR_N>"@, prefixed_decimal("dr"@, n / 2));
    lemma_replace_absent(out, "<FV_N>"@, prefixed_decimal("fv"@, n / 4));
    lemma_replace_absent(out, "<FV_M>"@, prefixed_decimal("fv"@, m / 4));
}

/// In a template whose other text holds no `<`, the `<disp8b>` field is the low byte of the opcode, in hexadecimal.
#[verifier::rlimit(60)]
pub proof fn lemma_fill_disp8b(a: Seq<char>, b: Seq<char>, pc: u32, op: u16)
    requires
        no_open(a),
        no_open(b),
    ensures
        ({
            let n = ((op / 256) % 16) as nat;
            let m = ((op / 16) % 16) as nat;
            let lo4 = (op % 16) as nat;
            let lo8 = (op % 256) as nat;
            disas_text(a + "<disp8b>"@ + b, pc, op) == a + hex_prefixed(lo8) + b
        }),
{
    let n = ((op / 256) % 16) as nat;
    let m = ((op / 16) % 16) as nat;
    let lo4 = (op % 16) as nat;
    let lo8 = (op % 256) as nat;
    lemma_placeholder_literals();
    reveal_strlit("<disp8b>");
    reveal_strlit("<REG_N>");
    assert("<REG_N>"@.len() != "<disp8b>"@.len());
    reveal_strlit("<REG_M>");
    assert("<REG_M>"@.len() != "<disp8b>"@.len());
    reveal_strlit("<IMM4>");
    assert("<IMM4>"@.len() != "<disp8b>"@.len());
    reveal_strlit("<IMM8>");
    assert("<IMM8>"@.len() != "<disp8b>"@.len());
    reveal_strlit("<imm8>");
    assert("<imm8>"@.len() != "<disp8b>"@.len());
    reveal_strlit("<simm8>");
    assert("<simm8>"@.len() != "<disp8b>"@.len());
    reveal_strlit("<simm8hex>");
    assert("<simm8hex>"@.len() != "<disp8b>"@.len());
    reveal_strlit("<bdisp8>");
    assert("<bdisp8>"@[1] != "<disp8b>"@[1]);
    reveal_strlit("<bdisp12>");
    assert("<bdisp12>"@.len() != "<disp8b>"@.len());
    reveal_strlit("<disp4b>");
    assert("<disp4b>"@[5] != "<disp8b>"@[5]);
    reveal_strlit("<disp4w>");
    assert("<disp4w>"@[5] != "<disp8b>"@[5]);
    reveal_strlit("<disp4dw>");
    assert("<disp4dw>"@.len() != "<disp8b>"@.len());
    let q = "<disp8b>"@;
    let h = hex_prefixed(lo8);
    lemma_hex_no_open(lo8);
    let out = a + h + b;
    lemma_concat_no_open(a, h);
    lemma_concat_no_open(a + h, b);
    lemma_replace_one(a, q, b, "<REG_N>"@, prefixed_decimal("r"@, n));
    lemma_replace_one(a, q, b, "<REG_M>"@, prefixed_decimal("r"@, m));
    lemma_replace_one(a, q, b, "<IMM4>"@, prefixed_decimal("#"@, lo4));
    lemma_replace_one(a, q, b, "<IMM8>"@, "#"@ + signed_decimal(simm8(op)));
    lemma_replace_one(a, q, b, "<imm8>"@, "#"@ + signed_decimal(simm8(op)));
    lemma_replace_one(a, q, b, "<simm8>"@, signed_decimal(simm8(op)));
    lemma_replace_one(a, q, b, "<simm8hex>"@, hex_prefixed(wrap32(simm8(op)) as nat));
    lemma_replace_one(a, q, b, "<bdisp8>"@, hex_prefixed(pc.wrapping_add(wrap32(2 * simm8(op))) as nat));
    lemma_replace_one(a, q, b, "<bdisp12>"@, hex_prefixed(pc.wrapping_add((2 * (op % 4096)) as u32) as nat));
    lemma_replace_one(a, q, b, "<disp4b>"@, hex_prefixed(lo4));
    lemma_replace_one(a, q, b, "<disp4w>"@, hex_prefixed(2 * lo4));
    lemma_replace_one(a, q, b, "<disp4dw>"@, hex_prefixed(4 * lo4));
    lemma_replace_one(a, q, b, q, h);
    lemma_replace_absent(out, "<disp8w>"@, hex_prefixed(2 * lo8));
    lemma_replace_absent(out, "<disp8dw>"@, hex_prefixed(4 * lo8));
    lemma_replace_absent(out, "<PCdisp8d>"@, hex_prefixed(pc.wrapping_add((4 * lo8) as u32) as nat));
    lemma_replace_absent(out, "<PCdisp8w>"@, hex_prefixed(pc.wrapping_add((2 * lo8) as u32) as nat));
    lemma_replace_absent(out, "<GBRdisp8b>"@, "GBR + "@ + hex_prefixed(lo8));
    lemma_replace_absent(out, "<GBRdisp8w>"@, "GBR + "@ + hex_prefixed(2 * lo8));
    lemma_replace_absent(out, "<GBRdisp8dw>"@, "GBR + "@ + hex_prefixed(4 * lo8));
    lemma_replace_absent(out, "<FREG_N>"@, prefixed_decimal("fr"@, n));
    lemma_replace_absent(out, "<FREG_M>"@, prefixed_decimal("fr"@, m));
    lemma_replace_absent(out, "<FREG_N_SD_F>"@, prefixed_decimal("fr"@, n));
    lemma_replace_absent(out, "<FREG_M_SD_F>"@, prefixed_decimal("fr"@, m));
    lemma_replace_absent(out, "<FREG_N_SD_A>"@, prefixed_decimal("fr"@, n));
    lemma_replace_absent(out, "<FREG_M_SD_A>"@, prefixed_decimal("fr"@, m));
    lemma_replace_absent(out, "<DR_N>"@, prefixed_decimal("dr"@, n / 2));
    lemma_replace_absent(out, "<FV_N>"@, prefixed_decimal("fv"@, n / 4));
    lemma_replace_absent(out, "<FV_M>"@, prefixed_decimal("fv"@, m / 4));
}

/// In a template whose other text holds no `<`, the `<disp8w>` field is twice the low byte (a word displacement), in hexadecimal.
#[verifier::rlimit(60)]
pub proof fn lemma_fill_disp8w(a: Seq<char>, b: Seq<char>, pc: u32, op: u16)
    requires
        no_open(a),
        no_open(b),
    ensures
        ({
            let n = ((op / 256) % 16) as nat;
            let m = ((op / 16) % 16) as nat;
            let lo4 = (op % 16) as nat;
            let lo8 = (op % 256) as nat;
            disas_text(a + "<disp8w>"@ + b, pc, op) == a + hex_prefixed(2 * lo8) + b
        }),
{
    let n = ((op / 256) % 16) as nat;
    let m = ((op / 16) % 16) as nat;
    let lo4 = (op % 16) as nat;
    let lo8 = (op % 256) as nat;
    lemma_placeholder_literals();
    reveal_strlit("<disp8w>");
    reveal_strlit("<REG_N>");
    assert("<REG_N>"@.len() != "<disp8w>"@.len());
    reveal_strlit("<REG_M>");
    assert("<REG_M>"@.len() != "<disp8w>"@.len());
    reveal_strlit("<IMM4>");
    assert("<IMM4>"@.len() != "<disp8w>"@.len());
    reveal_strlit("<IMM8>");
    assert("<IMM8>"@.len() != "<disp8w>"@.len());
    reveal_strlit("<imm8>");
    assert("<imm8>"@.len() != "<disp8w>"@.len());
    reveal_strlit("<simm8>");
    assert("<simm8>"@.len() != "<disp8w>"@.len());
    reveal_strlit("<simm8hex>");
    assert("<simm8hex>"@.len() != "<disp8w>"@.len());
    reveal_strlit("<bdisp8>");
    assert("<bdisp8>"@[1] != "<disp8w>"@[1]);
    reveal_strlit("<bdisp12>");
    assert("<bdisp12>"@.len() != "<disp8w>"@.len());
    reveal_strlit("<disp4b>");
    assert("<disp4b>"@[5] != "<disp8w>"@[5]);
    reveal_strlit("<disp4w>");
    assert("<disp4w>"@[5] != "<disp8w>"@[5]);
    reveal_strlit("<disp4dw>");
    assert("<disp4dw>"@.len() != "<disp8w>"@.len());
    reveal_strlit("<disp8b>");
    assert("<disp8b>"@[6] != "<disp8w>"@[6]);
    let q = "<disp8w>"@;
    let h = hex_prefixed(2 * lo8);
    lemma_hex_no_open(2 * lo8);
    let out = a + h + b;
    lemma_concat_no_open(a, h);
    lemma_concat_no_open(a + h, b);
    lemma_replace_one(a, q, b, "<REG_N>"@, prefixed_decimal("r"@, n));
    lemma_replace_one(a, q, b, "<REG_M>"@, prefixed_decimal("r"@, m));
    lemma_replace_one(a, q, b, "<IMM4>"@, prefixed_decimal("#"@, lo4));
    lemma_replace_one(a, q, b, "<IMM8>"@, "#"@ + signed_decimal(simm8(op)));
    lemma_replace_one(a, q, b, "<imm8>"@, "#"@ + signed_decimal(simm8(op)));
    lemma_replace_one(a, q, b, "<simm8>"@, signed_decimal(simm8(op)));
    lemma_replace_one(a, q, b, "<simm8hex>"@, hex_prefixed(wrap32(simm8(op)) as nat));
    lemma_replace_one(a, q, b, "<bdisp8>"@, hex_prefixed(pc.wrapping_add(wrap32(2 * simm8(op))) as nat));
    lemma_replace_one(a, q, b, "<bdisp12>"@, hex_prefixed(pc.wrapping_add((2 * (op % 4096)) as u32) as nat));
    lemma_replace_one(a, q, b, "<disp4b>"@, hex_prefixed(lo4));
    lemma_replace_one(a, q, b, "<disp4w>"@, hex_prefixed(2 * lo4));
    lemma_replace_one(a, q, b, "<disp4dw>"@, hex_prefixed(4 * lo4));
    lemma_replace_one(a, q, b, "<disp8b>"@, hex_prefixed(lo8));
    lemma_replace_one(a, q, b, q, h);
    lemma_replace_absent(out, "<disp8dw>"@, hex_prefixed(4 * lo8));
    lemma_replace_absent(out, "<PCdisp8d>"@, hex_prefixed(pc.wrapping_add((4 * lo8) as u32) as nat));
    lemma_replace_absent(out, "<PCdisp8w>"@, hex_prefixed(pc.wrapping_add((2 * lo8) as u32) as nat));
    lemma_replace_absent(out, "<GBRdisp8b>"@, "GBR + "@ + hex_prefixed(lo8));
    lemma_replace_absent(out, "<GBRdisp8w>"@, "GBR + "@ + hex_prefixed(2 * lo8));
    lemma_replace_absent(out, "<GBRdisp8dw>"@, "GBR + "@ + hex_prefixed(4 * lo8));
    lemma_replace_absent(out, "<FREG_N>"@, prefixed_decimal("fr"@, n));
    lemma_replace_absent(out, "<FREG_M>"@, prefixed_decimal("fr"@, m));
    lemma_replace_absent(out, "<FREG_N_SD_F>"@, prefixed_decimal("fr"@, n));
    lemma_replace_absent(out, "<FREG_M_SD_F>"@, prefixed_decimal("fr"@, m));
    lemma_replace_absent(out, "<FREG_N_SD_A>"@, prefixed_decimal("fr"@, n));
    lemma_replace_absent(out, "<FREG_M_SD_A>"@, prefixed_decimal("fr"@, m));
    lemma_replace_absent(out, "<DR_N>"@, prefixed_decimal("dr"@, n / 2));
    lemma_replace_absent(out, "<FV_N>"@, prefixed_decimal("fv"@, n / 4));
    lemma_replace_absent(out, "<FV_M>"@, prefixed_decimal("fv"@, m / 4));
}

/// In a template whose other text holds no `<`, the `<disp8dw>` field is four times the low byte (a long-word displacement), in hexadecimal.
#[verifier::rlimit(60)]
pub proof fn lemma_fill_disp8dw(a: Seq<char>, b: Seq<char>, pc: u32, op: u16)
    requires
        no_open(a),
        no_open(b),
    ensures
        ({
            let n = ((op / 256) % 16) as nat;
            let m = ((op / 16) % 16) as nat;
            let lo4 = (op % 16) as nat;
            let lo8 = (op % 256) as nat;
            disas_text(a + "<disp8dw>"@ + b, pc, op) == a + hex_prefixed(4 * lo8) + b
        }),
{
    let n = ((op / 256) % 16) as nat;
    let m = ((op / 16) % 16) as nat;
    let lo4 = (op % 16) as nat;
    let lo8 = (op % 256) as nat;
    lemma_placeholder_literals();
    reveal_strlit("<disp8dw>");
    reveal_strlit("<REG_N>");
    assert("<REG_N>"@.len() != "<disp8dw>"@.len());
    reveal_strlit("<REG_M>");
    assert("<REG_M>"@.len() != "<disp8dw>"@.len());
    reveal_strlit("<IMM4>");
    assert("<IMM4>"@.len() != "<disp8dw>"@.len());
    reveal_strlit("<IMM8>");
    assert("<IMM8>"@.len() != "<disp8dw>"@.len());
    reveal_strlit("<imm8>");
    assert("<imm8>"@.len() != "<disp8dw>"@.len());
    reveal_strlit("<simm8>");
    assert("<simm8>"@.len() != "<disp8dw>"@.len());
    reveal_strlit("<simm8hex>");
    assert("<simm8hex>"@.len() != "<disp8dw>"@.len());
    reveal_strlit("<bdisp8>");
    assert("<bdisp8>"@.len() != "<disp8dw>"@.len());
    reveal_strlit("<bdisp12>");
    assert("<bdisp12>"@[1] != "<disp8dw>"@[1]);
    reveal_strlit("<disp4b>");
    assert("<disp4b>"@.len() != "<disp8dw>"@.len());
    reveal_strlit("<disp4w>");
    assert("<disp4w>"@.len() != "<disp8dw>"@.len());
    reveal_strlit("<disp4dw>");
    assert("<disp4dw>"@[5] != "<disp8dw>"@[5]);
    reveal_strlit("<disp8b>");
    assert("<disp8b>"@.len() != "<disp8dw>"@.len());
    reveal_strlit("<disp8w>");
    assert("<disp8w>"@.len() != "<disp8dw>"@.len());
    let q = "<disp8dw>"@;
    let h = hex_prefixed(4 * lo8);
    lemma_hex_no_open(4 * lo8);
    let out = a + h + b;
    lemma_concat_no_open(a, h);
    lemma_concat_no_open(a + h, b);
    lemma_replace_one(a, q, b, "<REG_N>"@, prefixed_decimal("r"@, n));
    lemma_replace_one(a, q, b, "<REG_M>"@, prefixed_decimal("r"@, m));
    lemma_replace_one(a, q, b, "<IMM4>"@, prefixed_decimal("#"@, lo4));
    lemma_replace_one(a, q, b, "<IMM8>"@, "#"@ + signed_decimal(simm8(op)));
    lemma_replace_one(a, q, b, "<imm8>"@, "#"@ + signed_decimal(simm8(op)));
    lemma_replace_one(a, q, b, "<simm8>"@, signed_decimal(simm8(op)));
    lemma_replace_one(a, q, b, "<simm8hex>"@, hex_prefixed(wrap32(simm8(op)) as nat));
    lemma_replace_one(a, q, b, "<bdisp8>"@, hex_prefixed(pc.wrapping_add(wrap32(2 * simm8(op))) as nat));
    lemma_replace_one(a, q, b, "<bdisp12>"@, hex_prefixed(pc.wrapping_add((2 * (op % 4096)) as u32) as nat));
    lemma_replace_one(a, q, b, "<disp4b>"@, hex_prefixed(lo4));
    lemma_replace_one(a, q, b, "<disp4w>"@, hex_prefixed(2 * lo4));
    lemma_replace_one(a, q, b, "<disp4dw>"@, hex_prefixed(4 * lo4));
    lemma_replace_one(a, q, b, "<disp8b>"@, hex_prefixed(lo8));
    lemma_replace_one(a, q, b, "<disp8w>"@, hex_prefixed(2 * lo8));
    lemma_replace_one(a, q, b, q, h);
    lemma_replace_absent(out, "<PCdisp8d>"@, hex_prefixed(pc.wrapping_add((4 * lo8) as u32) as nat));
    lemma_replace_absent(out, "<PCdisp8w>"@, hex_prefixed(pc.wrapping_add((2 * lo8) as u32) as nat));
    lemma_replace_absent(out, "<GBRdisp8b>"@, "GBR + "@ + hex_prefixed(lo8));
    lemma_replace_absent(out, "<GBRdisp8w>"@, "GBR + "@ + hex_prefixed(2 * lo8));
    lemma_replace_absent(out, "<GBRdisp8dw>"@, "GBR + "@ + hex_prefixed(4 * lo8));
    lemma_replace_absent(out, "<FREG_N>"@, prefixed_decimal("fr"@, n));
    lemma_replace_absent(out, "<FREG_M>"@, prefixed_decimal("fr"@, m));
    lemma_replace_absent(out, "<FREG_N_SD_F>"@, prefixed_decimal("fr"@, n));
    lemma_replace_absent(out, "<FREG_M_SD_F>"@, prefixed_decimal("fr"@, m));
    lemma_replace_absent(out, "<FREG_N_SD_A>"@, prefixed_decimal("fr"@, n));
    lemma_replace_absent(out, "<FREG_M_SD_A>"@, prefixed_decimal("fr"@, m));
    lemma_replace_absent(out, "<DR_N>"@, prefixed_decimal("dr"@, n / 2));
    lemma_replace_absent(out, "<FV_N>"@, prefixed_decimal("fv"@, n / 4));
    lemma_replace_absent(out, "<FV_M>"@, prefixed_decimal("fv"@, m / 4));
}

/// In a template whose other text holds no `<`, the `<PCdisp8d>` field is the PC plus four times the low byte, wrapping at 32 bits, in hexadecimal.
#[verifier::rlimit(60)]
pub proof fn lemma_fill_pcdisp8d(a: Seq<char>, b: Seq<char>, pc: u32, op: u16)
    requires
        no_open(a),
        no_open(b),
    ensures
        ({
            let n = ((op / 256) % 16) as nat;
            let m = ((op / 16) % 16) as nat;
            let lo4 = (op % 16) as nat;
            let lo8 = (op % 256) as nat;
            disas_text(a + "<PCdisp8d>"@ + b, pc, op) == a + hex_prefixed(pc.wrapping_add((4 * lo8) as u32) as nat) + b
        }),
{
    let n = ((op / 256) % 16) as nat;
    let m = ((op / 16) % 16) as nat;
    let lo4 = (op % 16) as nat;
    let lo8 = (op % 256) as nat;
    lemma_placeholder_literals();
    reveal_strlit("<PCdisp8d>");
    reveal_strlit("<REG_N>");
    assert("<REG_N>"@.len() != "<PCdisp8d>"@.len());
    reveal_strlit("<REG_M>");
    assert("<REG_M>"@.len() != "<PCdisp8d>"@.len());
    reveal_strlit("<IMM4>");
    assert("<IMM4>"@.len() != "<PCdisp8d>"@.len());
    reveal_strlit("<IMM8>");
    assert("<IMM8>"@.len() != "<PCdisp8d>"@.len());
    reveal_strlit("<imm8>");
    assert("<imm8>"@.len() != "<PCdisp8d>"@.len());
    reveal_strlit("<simm8>");
    assert("<simm8>"@.len() != "<PCdisp8d>"@.len());
    reveal_strlit("<simm8hex>");
    assert("<simm8hex>"@[1] != "<PCdisp8d>"@[1]);
    reveal_strlit("<bdisp8>");
    assert("<bdisp8>"@.len() != "<PCdisp8d>"@.len());
    reveal_strlit("<bdisp12>");
    assert("<bdisp12>"@.len() != "<PCdisp8d>"@.len());
    reveal_strlit("<disp4b>");
    assert("<disp4b>"@.len() != "<PCdisp8d>"@.len());
    reveal_strlit("<disp4w>");
    assert("<disp4w>"@.len() != "<PCdisp8d>"@.len());
    reveal_strlit("<disp4dw>");
    assert("<disp4dw>"@.len() != "<PCdisp8d>"@.len());
    reveal_strlit("<disp8b>");
    assert("<disp8b>"@.len() != "<PCdisp8d>"@.len());
    reveal_strlit("<disp8w>");
    assert("<disp8w>"@.len() != "<PCdisp8d>"@.len());
    reveal_strlit("<disp8dw>");
    assert("<disp8dw>"@.len() != "<PCdisp8d>"@.len());
    let q = "<PCdisp8d>"@;
    let h = hex_prefixed(pc.wrapping_add((4 * lo8) as u32) as nat);
    lemma_hex_no_open(pc.wrapping_add((4 * lo8) as u32) as nat);
    let out = a + h + b;
    lemma_concat_no_open(a, h);
    lemma_concat_no_open(a + h, b);
    lemma_replace_one(a, q, b, "<REG_N>"@, prefixed_decimal("r"@, n));
    lemma_replace_one(a, q, b, "<REG_M>"@, prefixed_decimal("r"@, m));
    lemma_replace_one(a, q, b, "<IMM4>"@, prefixed_decimal("#"@, lo4));
    lemma_replace_one(a, q, b, "<IMM8>"@, "#"@ + signed_decimal(simm8(op)));
    lemma_replace_one(a, q, b, "<imm8>"@, "#"@ + signed_decimal(simm8(op)));
    lemma_replace_one(a, q, b, "<simm8>"@, signed_decimal(simm8(op)));
    lemma_replace_one(a, q, b, "<simm8hex>"@, hex_prefixed(wrap32(simm8(op)) as nat));
    lemma_replace_one(a, q, b, "<bdisp8>"@, hex_prefixed(pc.wrapping_add(wrap32(2 * simm8(op))) as nat));
    lemma_replace_one(a, q, b, "<bdisp12>"@, hex_prefixed(pc.wrapping_add((2 * (op % 4096)) as u32) as nat));
    lemma_replace_one(a, q, b, "<disp4b>"@, hex_prefixed(lo4));
    lemma_replace_one(a, q, b, "<disp4w>"@, hex_prefixed(2 * lo4));
    lemma_replace_one(a, q, b, "<disp4dw>"@, hex_prefixed(4 * lo4));
    lemma_replace_one(a, q, b, "<disp8b>"@, hex_prefixed(lo8));
    lemma_replace_one(a, q, b, "<disp8w>"@, hex_prefixed(2 * lo8));
    lemma_replace_one(a, q, b, "<disp8dw>"@, hex_prefixed(4 * lo8));
    lemma_replace_one(a, q, b, q, h);
    lemma_replace_absent(out, "<PCdisp8w>"@, hex_prefixed(pc.wrapping_add((2 * lo8) as u32) as nat));
    lemma_replace_absent(out, "<GBRdisp8b>"@, "GBR + "@ + hex_prefixed(lo8));
    lemma_replace_absent(out, "<GBRdisp8w>"@, "GBR + "@ + hex_prefixed(2 * lo8));
    lemma_replace_absent(out, "<GBRdisp8dw>"@, "GBR + "@ + hex_prefixed(4 * lo8));
    lemma_replace_absent(out, "<FREG_N>"@, prefixed_decimal("fr"@, n));
    lemma_replace_absent(out, "<FREG_M>"@, prefixed_decimal("fr"@, m));
    lemma_replace_absent(out, "<FREG_N_SD_F>"@, prefixed_decimal("fr"@, n));
    lemma_replace_absent(out, "<FREG_M_SD_F>"@, prefixed_decimal("fr"@, m));
    lemma_replace_absent(out, "<FREG_N_SD_A>"@, prefixed_decimal("fr"@, n));
    lemma_replace_absent(out, "<FREG_M_SD_A>"@, prefixed_decimal("fr"@, m));
    lemma_replace_absent(out, "<DR_N>"@, prefixed_decimal("dr"@, n / 2));
    lemma_replace_absent(out, "<FV_N>"@, prefixed_decimal("fv"@, n / 4));
    lemma_replace_absent(out, "<FV_M>"@, prefixed_decimal("fv"@, m / 4));
}

/// In a template whose other text holds no `<`, the `<PCdisp8w>` field is the PC plus twice the low byte, wrapping at 32 bits, in hexadecimal.
#[verifier::rlimit(60)]
pub proof fn lemma_fill_pcdisp8w(a: Seq<char>, b: Seq<char>, pc: u32, op: u16)
    requires
        no_open(a),
        no_open(b),
    ensures
        ({
            let n = ((op / 256) % 16) as nat;
            let m = ((op / 16) % 16) as nat;
            let lo4 = (op % 16) as nat;
            let lo8 = (op % 256) as nat;
            disas_text(a + "<PCdisp8w>"@ + b, pc, op) == a + hex_prefixed(pc.wrapping_add((2 * lo8) as u32) as nat) + b
        }),
{
    let n = ((op / 256) % 16) as nat;
    let m = ((op / 16) % 16) as nat;
    let lo4 = (op % 16) as nat;
    let lo8 = (op % 256) as nat;
    lemma_placeholder_literals();
    reveal_strlit("<PCdisp8w>");
    reveal_strlit("<REG_N>");
    assert("<REG_N>"@.len() != "<PCdisp8w>"@.len());
    reveal_strlit("<REG_M>");
    assert("<REG_M>"@.len() != "<PCdisp8w>"@.len());
    reveal_strlit("<IMM4>");
    assert("<IMM4>"@.len() != "<PCdisp8w>"@.len());
    reveal_strlit("<IMM8>");
    assert("<IMM8>"@.len() != "<PCdisp8w>"@.len());
    reveal_strlit("<imm8>");
    assert("<imm8>"@.len() != "<PCdisp8w>"@.len());
    reveal_strlit("<simm8>");
    assert("<simm8>"@.len() != "<PCdisp8w>"@.len());
    reveal_strlit("<simm8hex>");
    assert("<simm8hex>"@[1] != "<PCdisp8w>"@[1]);
    reveal_strlit("<bdisp8>");
    assert("<bdisp8>"@.len() != "<PCdisp8w>"@.len());
    reveal_strlit("<bdisp12>");
    assert("<bdisp12>"@.len() != "<PCdisp8w>"@.len());
    reveal_strlit("<disp4b>");
    assert("<disp4b>"@.len() != "<PCdisp8w>"@.len());
    reveal_strlit("<disp4w>");
    assert("<disp4w>"@.len() != "<PCdisp8w>"@.len());
    reveal_strlit("<disp4dw>");
    assert("<disp4dw>"@.len() != "<PCdisp8w>"@.len());
    reveal_strlit("<disp8b>");
    assert("<disp8b>"@.len() != "<PCdisp8w>"@.len());
    reveal_strlit("<disp8w>");
    assert("<disp8w>"@.len() != "<PCdisp8w>"@.len());
    reveal_strlit("<disp8dw>");
    assert("<disp8dw>"@.len() != "<PCdisp8w>"@.len());
    reveal_strlit("<PCdisp8d>");
    assert("<PCdisp8d>"@[8] != "<PCdisp8w>"@[8]);
    let q = "<PCdisp8w>"@;
    let h = hex_prefixed(pc.wrapping_add((2 * lo8) as u32) as nat);
    lemma_hex_no_open(pc.wrapping_add((2 * lo8) as u32) as nat);
    let out = a + h + b;
    lemma_concat_no_open(a, h);
    lemma_concat_no_open(a + h, b);
    lemma_replace_one(a, q, b, "<REG_N>"@, prefixed_decimal("r"@, n));
    lemma_replace_one(a, q, b, "<REG_M>"@, prefixed_decimal("r"@, m));
    lemma_replace_one(a, q, b, "<IMM4>"@, prefixed_decimal("#"@, lo4));
    lemma_replace_one(a, q, b, "<IMM8>"@, "#"@ + signed_decimal(simm8(op)));
    lemma_replace_one(a, q, b, "<imm8>"@, "#"@ + signed_decimal(simm8(op)));
    lemma_replace_one(a, q, b, "<simm8>"@, signed_decimal(simm8(op)));
    lemma_replace_one(a, q, b, "<simm8hex>"@, hex_prefixed(wrap32(simm8(op)) as nat));
    lemma_replace_one(a, q, b, "<bdisp8>"@, hex_prefixed(pc.wrapping_add(wrap32(2 * simm8(op))) as nat));
    lemma_replace_one(a, q, b, "<bdisp12>"@, hex_prefixed(pc.wrapping_add((2 * (op % 4096)) as u32) as nat));
    lemma_replace_one(a, q, b, "<disp4b>"@, hex_prefixed(lo4));
    lemma_replace_one(a, q, b, "<disp4w>"@, hex_prefixed(2 * lo4));
    lemma_replace_one(a, q, b, "<disp4dw>"@, hex_prefixed(4 * lo4));
    lemma_replace_one(a, q, b, "<disp8b>"@, hex_prefixed(lo8));
    lemma_replace_one(a, q, b, "<disp8w>"@, hex_prefixed(2 * lo8));
    lemma_replace_one(a, q, b, "<disp8dw>"@, hex_prefixed(4 * lo8));
    lemma_replace_one(a, q, b, "<PCdisp8d>"@, hex_prefixed(pc.wrapping_add((4 * lo8) as u32) as nat));
    lemma_replace_one(a, q, b, q, h);
    lemma_replace_absent(out, "<GBRdisp8b>"@, "GBR + "@ + hex_prefixed(lo8));
    lemma_replace_absent(out, "<GBRdisp8w>"@, "GBR + "@ + hex_prefixed(2 * lo8));
    lemma_replace_absent(out, "<GBRdisp8dw>"@, "GBR + "@ + hex_prefixed(4 * lo8));
    lemma_replace_absent(out, "<FREG_N>"@, prefixed_decimal("fr"@, n));
    lemma_replace_absent(out, "<FREG_M>"@, prefixed_decimal("fr"@, m));
    lemma_replace_absent(out, "<FREG_N_SD_F>"@, prefixed_decimal("fr"@, n));
    lemma_replace_absent(out, "<FREG_M_SD_F>"@, prefixed_decimal("fr"@, m));
    lemma_replace_absent(out, "<FREG_N_SD_A>"@, prefixed_decimal("fr"@, n));
    lemma_replace_absent(out, "<FREG_M_SD_A>"@, prefixed_decimal("fr"@, m));
    lemma_replace_absent(out, "<DR_N>"@, prefixed_decimal("dr"@, n / 2));
    lemma_replace_absent(out, "<FV_N>"@, prefixed_decimal("fv"@, n / 4));
    lemma_replace_absent(out, "<FV_M>"@, prefixed_decimal("fv"@, m / 4));
}

/// In a template whose other text holds no `<`, the `<GBRdisp8b>` field is `GBR + ` and the low byte, in hexadecimal.
#[verifier::rlimit(60)]
pub proof fn lemma_fill_gbrdisp8b(a: Seq<char>, b: Seq<char>, pc: u32, op: u16)
    requires
        no_open(a),
        no_open(b),
    ensures
        ({
            let n = ((op / 256) % 16) as nat;
            let m = ((op / 16) % 16) as nat;
            let lo4 = (op % 16) as nat;
            let lo8 = (op % 256) as nat;
            disas_text(a + "<GBRdisp8b>"@ + b, pc, op) == a + "GBR + "@ + hex_prefixed(lo8) + b
        }),
{
    let n = ((op / 256) % 16) as nat;
    let m = ((op / 16) % 16) as nat;
    let lo4 = (op % 16) as nat;
    let lo8 = (op % 256) as nat;
    lemma_placeholder_literals();
    reveal_strlit("<GBRdisp8b>");
    reveal_strlit("<REG_N>");
    assert("<REG_N>"@.len() != "<GBRdisp8b>"@.len());
    reveal_strlit("<REG_M>");
    assert("<REG_M>"@.len() != "<GBRdisp8b>"@.len());
    reveal_strlit("<IMM4>");
    assert("<IMM4>"@.len() != "<GBRdisp8b>"@.len());
    reveal_strlit("<IMM8>");
    assert("<IMM8>"@.len() != "<GBRdisp8b>"@.len());
    reveal_strlit("<imm8>");
    assert("<imm8>"@.len() != "<GBRdisp8b>"@.len());
    reveal_strlit("<simm8>");
    assert("<simm8>"@.len() != "<GBRdisp8b>"@.len());
    reveal_strlit("<simm8hex>");
    assert("<simm8hex>"@.len() != "<GBRdisp8b>"@.len());
    reveal_strlit("<bdisp8>");
    assert("<bdisp8>"@.len() != "<GBRdisp8b>"@.len());
    reveal_strlit("<bdisp12>");
    assert("<bdisp12>"@.len() != "<GBRdisp8b>"@.len());
    reveal_strlit("<disp4b>");
    assert("<disp4b>"@.len() != "<GBRdisp8b>"@.len());
    reveal_strlit("<disp4w>");
    assert("<disp4w>"@.len() != "<GBRdisp8b>"@.len());
    reveal_strlit("<disp4dw>");
    assert("<disp4dw>"@.len() != "<GBRdisp8b>"@.len());
    reveal_strlit("<disp8b>");
    assert("<disp8b>"@.len() != "<GBRdisp8b>"@.len());
    reveal_strlit("<disp8w>");
    assert("<disp8w>"@.len() != "<GBRdisp8b>"@.len());
    reveal_strlit("<disp8dw>");
    assert("<disp8dw>"@.len() != "<GBRdisp8b>"@.len());
    reveal_strlit("<PCdisp8d>");
    assert("<PCdisp8d>"@.len() != "<GBRdisp8b>"@.len());
    reveal_strlit("<PCdisp8w>");
    assert("<PCdisp8w>"@.len() != "<GBRdisp8b>"@.len());
    let q = "<GBRdisp8b>"@;
    let h = "GBR + "@ + hex_prefixed(lo8);
    reveal_strlit("GBR + ");
    lemma_hex_no_open(lo8);
    lemma_concat_no_open("GBR + "@, hex_prefixed(lo8));
    let out = a + h + b;
    lemma_concat_no_open(a, h);
    lemma_concat_no_open(a + h, b);
    lemma_replace_one(a, q, b, "<REG_N>"@, prefixed_decimal("r"@, n));
    lemma_replace_one(a, q, b, "<REG_M>"@, prefixed_decimal("r"@, m));
    lemma_replace_one(a, q, b, "<IMM4>"@, prefixed_decimal("#"@, lo4));
    lemma_replace_one(a, q, b, "<IMM8>"@, "#"@ + signed_decimal(simm8(op)));
    lemma_replace_one(a, q, b, "<imm8>"@, "#"@ + signed_decimal(simm8(op)));
    lemma_replace_one(a, q, b, "<simm8>"@, signed_decimal(simm8(op)));
    lemma_replace_one(a, q, b, "<simm8hex>"@, hex_prefixed(wrap32(simm8(op)) as nat));
    lemma_replace_one(a, q, b, "<bdisp8>"@, hex_prefixed(pc.wrapping_add(wrap32(2 * simm8(op))) as nat));
    lemma_replace_one(a, q, b, "<bdisp12>"@, hex_prefixed(pc.wrapping_add((2 * (op % 4096)) as u32) as nat));
    lemma_replace_one(a, q, b, "<disp4b>"@, hex_prefixed(lo4));
    lemma_replace_one(a, q, b, "<disp4w>"@, hex_prefixed(2 * lo4));
    lemma_replace_one(a, q, b, "<disp4dw>"@, hex_prefixed(4 * lo4));
    lemma_replace_one(a, q, b, "<disp8b>"@, hex_prefixed(lo8));
    lemma_replace_one(a, q, b, "<disp8w>"@, hex_prefixed(2 * lo8));
    lemma_replace_one(a, q, b, "<disp8dw>"@, hex_prefixed(4 * lo8));
    lemma_replace_one(a, q, b, "<PCdisp8d>"@, hex_prefixed(pc.wrapping_add((4 * lo8) as u32) as nat));
    lemma_replace_one(a, q, b, "<PCdisp8w>"@, hex_prefixed(pc.wrapping_add((2 * lo8) as u32) as nat));
    lemma_replace_one(a, q, b, q, h);
    lemma_replace_absent(out, "<GBRdisp8w>"@, "GBR + "@ + hex_prefixed(2 * lo8));
    lemma_replace_absent(out, "<GBRdisp8dw>"@, "GBR + "@ + hex_prefixed(4 * lo8));
    lemma_replace_absent(out, "<FREG_N>"@, prefixed_decimal("fr"@, n));
    lemma_replace_absent(out, "<FREG_M>"@, prefixed_decimal("fr"@, m));
    lemma_replace_absent(out, "<FREG_N_SD_F>"@, prefixed_decimal("fr"@, n));
    lemma_replace_absent(out, "<FREG_M_SD_F>"@, prefixed_decimal("fr"@, m));
    lemma_replace_absent(out, "<FREG_N_SD_A>"@, prefixed_decimal("fr"@, n));
    lemma_replace_absent(out, "<FREG_M_SD_A>"@, prefixed_decimal("fr"@, m));
    lemma_replace_absent(out, "<DR_N>"@, prefixed_decimal("dr"@, n / 2));
    lemma_replace_absent(out, "<FV_N>"@, prefixed_decimal("fv"@, n / 4));
    lemma_replace_absent(out, "<FV_M>"@, prefixed_decimal("fv"@, m / 4));
}

/// In a template whose other text holds no `<`, the `<GBRdisp8w>` field is `GBR + ` and twice the low byte, in hexadecimal.
#[verifier::rlimit(60)]
pub proof fn lemma_fill_gbrdisp8w(a: Seq<char>, b: Seq<char>, pc: u32, op: u16)
    requires
        no_open(a),
        no_open(b),
    ensures
        ({
            let n = ((op / 256) % 16) as nat;
            let m = ((op / 16) % 16) as nat;
            let lo4 = (op % 16) as nat;
            let lo8 = (op % 256) as nat;
            disas_text(a + "<GBRdisp8w>"@ + b, pc, op) == a + "GBR + "@ + hex_prefixed(2 * lo8) + b
        }),
{
    let n = ((op / 256) % 16) as nat;
    let m = ((op / 16) % 16) as nat;
    let lo4 = (op % 16) as nat;
    let lo8 = (op % 256) as nat;
    lemma_placeholder_literals();
    reveal_strlit("<GBRdisp8w>");
    reveal_strlit("<REG_N>");
    assert("<REG_N>"@.len() != "<GBRdisp8w>"@.len());
    reveal_strlit("<REG_M>");
    assert("<REG_M>"@.len() != "<GBRdisp8w>"@.len());
    reveal_strlit("<IMM4>");
    assert("<IMM4>"@.len() != "<GBRdisp8w>"@.len());
    reveal_strlit("<IMM8>");
    assert("<IMM8>"@.len() != "<GBRdisp8w>"@.len());
    reveal_strlit("<imm8>");
    assert("<imm8>"@.len() != "<GBRdisp8w>"@.len());
    reveal_strlit("<simm8>");
    assert("<simm8>"@.len() != "<GBRdisp8w>"@.len());
    reveal_strlit("<simm8hex>");
    assert("<simm8hex>"@.len() != "<GBRdisp8w>"@.len());
    reveal_strlit("<bdisp8>");
    assert("<bdisp8>"@.len() != "<GBRdisp8w>"@.len());
    reveal_strlit("<bdisp12>");
    assert("<bdisp12>"@.len() != "<GBRdisp8w>"@.len());
    reveal_strlit("<disp4b>");
    assert("<disp4b>"@.len() != "<GBRdisp8w>"@.len());
    reveal_strlit("<disp4w>");
    assert("<disp4w>"@.len() != "<GBRdisp8w>"@.len());
    reveal_strlit("<disp4dw>");
    assert("<disp4dw>"@.len() != "<GBRdisp8w>"@.len());
    reveal_strlit("<disp8b>");
    assert("<disp8b>"@.len() != "<GBRdisp8w>"@.len());
    reveal_strlit("<disp8w>");
    assert("<disp8w>"@.len() != "<GBRdisp8w>"@.len());
    reveal_strlit("<disp8dw>");
    assert("<disp8dw>"@.len() != "<GBRdisp8w>"@.len());
    reveal_strlit("<PCdisp8d>");
    assert("<PCdisp8d>"@.len() != "<GBRdisp8w>"@.len());
    reveal_strlit("<PCdisp8w>");
    assert("<PCdisp8w>"@.len() != "<GBRdisp8w>"@.len());
    reveal_strlit("<GBRdisp8b>");
    assert("<GBRdisp8b>"@[9] != "<GBRdisp8w>"@[9]);
    let q = "<GBRdisp8w>"@;
    let h = "GBR + "@ + hex_prefixed(2 * lo8);
    reveal_strlit("GBR + ");
    lemma_hex_no_open(2 * lo8);
    lemma_concat_no_open("GBR + "@, hex_prefixed(2 * lo8));
    let out = a + h + b;
    lemma_concat_no_open(a, h);
    lemma_concat_no_open(a + h, b);
    lemma_replace_one(a, q, b, "<REG_N>"@, prefixed_decimal("r"@, n));
    lemma_replace_one(a, q, b, "<REG_M>"@, prefixed_decimal("r"@, m));
    lemma_replace_one(a, q, b, "<IMM4>"@, prefixed_decimal("#"@, lo4));
    lemma_replace_one(a, q, b, "<IMM8>"@, "#"@ + signed_decimal(simm8(op)));
    lemma_replace_one(a, q, b, "<imm8>"@, "#"@ + signed_decimal(simm8(op)));
    lemma_replace_one(a, q, b, "<simm8>"@, signed_decimal(simm8(op)));
    lemma_replace_one(a, q, b, "<simm8hex>"@, hex_prefixed(wrap32(simm8(op)) as nat));
    lemma_replace_one(a, q, b, "<bdisp8>"@, hex_prefixed(pc.wrapping_add(wrap32(2 * simm8(op))) as nat));
    lemma_replace_one(a, q, b, "<bdisp12>"@, hex_prefixed(pc.wrapping_add((2 * (op % 4096)) as u32) as nat));
    lemma_replace_one(a, q, b, "<disp4b>"@, hex_prefixed(lo4));
    lemma_replace_one(a, q, b, "<disp4w>"@, hex_prefixed(2 * lo4));
    lemma_replace_one(a, q, b, "<disp4dw>"@, hex_prefixed(4 * lo4));
    lemma_replace_one(a, q, b, "<disp8b>"@, hex_prefixed(lo8));
    lemma_replace_one(a, q, b, "<disp8w>"@, hex_prefixed(2 * lo8));
    lemma_replace_one(a, q, b, "<disp8dw>"@, hex_prefixed(4 * lo8));
    lemma_replace_one(a, q, b, "<PCdisp8d>"@, hex_prefixed(pc.wrapping_add((4 * lo8) as u32) as nat));
    lemma_replace_one(a, q, b, "<PCdisp8w>"@, hex_prefixed(pc.wrapping_add((2 * lo8) as u32) as nat));
    lemma_replace_one(a, q, b, "<GBRdisp8b>"@, "GBR + "@ + hex_prefixed(lo8));
    lemma_replace_one(a, q, b, q, h);
    lemma_replace_absent(out, "<GBRdisp8dw>"@, "GBR + "@ + hex_prefixed(4 * lo8));
    lemma_replace_absent(out, "<FREG_N>"@, prefixed_decimal("fr"@, n));
    lemma_replace_absent(out, "<FREG_M>"@, prefixed_decimal("fr"@, m));
    lemma_replace_absent(out, "<FREG_N_SD_F>"@, prefixed_decimal("fr"@, n));
    lemma_replace_absent(out, "<FREG_M_SD_F>"@, prefixed_decimal("fr"@, m));
    lemma_replace_absent(out, "<FREG_N_SD_A>"@, prefixed_decimal("fr"@, n));
    lemma_replace_absent(out, "<FREG_M_SD_A>"@, prefixed_decimal("fr"@, m));
    lemma_replace_absent(out, "<DR_N>"@, prefixed_decimal("dr"@, n / 2));
    lemma_replace_absent(out, "<FV_N>"@, prefixed_decimal("fv"@, n / 4));
    lemma_replace_absent(out, "<FV_M>"@, prefixed_decimal("fv"@, m / 4));
}

/// In a template whose other text holds no `<`, the `<GBRdisp8dw>` field is `GBR + ` and four times the low byte, in hexadecimal.
#[verifier::rlimit(60)]
pub proof fn lemma_fill_gbrdisp8dw(a: Seq<char>, b: Seq<char>, pc: u32, op: u16)
    requires
        no_open(a),
        no_open(b),
    ensures
        ({
            let n = ((op / 256) % 16) as nat;
            let m = ((op / 16) % 16) as nat;
            let lo4 = (op % 16) as nat;
            let lo8 = (op % 256) as nat;
            disas_text(a + "<GBRdisp8dw>"@ + b, pc, op) == a + "GBR + "@ + hex_prefixed(4 * lo8) + b
        }),
{
    let n = ((op / 256) % 16) as nat;
    let m = ((op / 16) % 16) as nat;
    let lo4 = (op % 16) as nat;
    let lo8 = (op % 256) as nat;
    lemma_placeholder_literals();
    reveal_strlit("<GBRdisp8dw>");
    reveal_strlit("<REG_N>");
    assert("<REG_N>"@.len() != "<GBRdisp8dw>"@.len());
    reveal_strlit("<REG_M>");
    assert("<REG_M>"@.len() != "<GBRdisp8dw>"@.len());
    reveal_strlit("<IMM4>");
    assert("<IMM4>"@.len() != "<GBRdisp8dw>"@.len());
    reveal_strlit("<IMM8>");
    assert("<IMM8>"@.len() != "<GBRdisp8dw>"@.len());
    reveal_strlit("<imm8>");
    assert("<imm8>"@.len() != "<GBRdisp8dw>"@.len());
    reveal_strlit("<simm8>");
    assert("<simm8>"@.len() != "<GBRdisp8dw>"@.len());
    reveal_strlit("<simm8hex>");
    assert("<simm8hex>"@.len() != "<GBRdisp8dw>"@.len());
    reveal_strlit("<bdisp8>");
    assert("<bdisp8>"@.len() != "<GBRdisp8dw>"@.len());
    reveal_strlit("<bdisp12>");
    assert("<bdisp12>"@.len() != "<GBRdisp8dw>"@.len());
    reveal_strlit("<disp4b>");
    assert("<disp4b>"@.len() != "<GBRdisp8dw>"@.len());
    reveal_strlit("<disp4w>");
    assert("<disp4w>"@.len() != "<GBRdisp8dw>"@.len());
    reveal_strlit("<disp4dw>");
    assert("<disp4dw>"@.len() != "<GBRdisp8dw>"@.len());
    reveal_strlit("<disp8b>");
    assert("<disp8b>"@.len() != "<GBRdisp8dw>"@.len());
    reveal_strlit("<disp8w>");
    assert("<disp8w>"@.len() != "<GBRdisp8dw>"@.len());
    reveal_strlit("<disp8dw>");
    assert("<disp8dw>"@.len() != "<GBRdisp8dw>"@.len());
    reveal_strlit("<PCdisp8d>");
    assert("<PCdisp8d>"@.len() != "<GBRdisp8dw>"@.len());
    reveal_strlit("<PCdisp8w>");
    assert("<PCdisp8w>"@.len() != "<GBRdisp8dw>"@.len());
    reveal_strlit("<GBRdisp8b>");
    assert("<GBRdisp8b>"@.len() != "<GBRdisp8dw>"@.len());
    reveal_strlit("<GBRdisp8w>");
    assert("<GBRdisp8w>"@.len() != "<GBRdisp8dw>"@.len());
    let q = "<GBRdisp8dw>"@;
    let h = "GBR + "@ + hex_prefixed(4 * lo8);
    reveal_strlit("GBR + ");
    lemma_hex_no_open(4 * lo8);
    lemma_concat_no_open("GBR + "@, hex_prefixed(4 * lo8));
    let out = a + h + b;
    lemma_concat_no_open(a, h);
    lemma_concat_no_open(a + h, b);
    lemma_replace_one(a, q, b, "<REG_N>"@, prefixed_decimal("r"@, n));
    lemma_replace_one(a, q, b, "<REG_M>"@, prefixed_decimal("r"@, m));
    lemma_replace_one(a, q, b, "<IMM4>"@, prefixed_decimal("#"@, lo4));
    lemma_replace_one(a, q, b, "<IMM8>"@, "#"@ + signed_decimal(simm8(op)));
    lemma_replace_one(a, q, b, "<imm8>"@, "#"@ + signed_decimal(simm8(op)));
    lemma_replace_one(a, q, b, "<simm8>"@, signed_decimal(simm8(op)));
    lemma_replace_one(a, q, b, "<simm8hex>"@, hex_prefixed(wrap32(simm8(op)) as nat));
    lemma_replace_one(a, q, b, "<bdisp8>"@, hex_prefixed(pc.wrapping_add(wrap32(2 * simm8(op))) as nat));
    lemma_replace_one(a, q, b, "<bdisp12>"@, hex_prefixed(pc.wrapping_add((2 * (op % 4096)) as u32) as nat));
    lemma_replace_one(a, q, b, "<disp4b>"@, hex_prefixed(lo4));
    lemma_replace_one(a, q, b, "<disp4w>"@, hex_prefixed(2 * lo4));
    lemma_replace_one(a, q, b, "<disp4dw>"@, hex_prefixed(4 * lo4));
    lemma_replace_one(a, q, b, "<disp8b>"@, hex_prefixed(lo8));
    lemma_replace_one(a, q, b, "<disp8w>"@, hex_prefixed(2 * lo8));
    lemma_replace_one(a, q, b, "<disp8dw>"@, hex_prefixed(4 * lo8));
    lemma_replace_one(a, q, b, "<PCdisp8d>"@, hex_prefixed(pc.wrapping_add((4 * lo8) as u32) as nat));
    lemma_replace_one(a, q, b, "<PCdisp8w>"@, hex_prefixed(pc.wrapping_add((2 * lo8) as u32) as nat));
    lemma_replace_one(a, q, b, "<GBRdisp8b>"@, "GBR + "@ + hex_prefixed(lo8));
    lemma_replace_one(a, q, b, "<GBRdisp8w>"@, "GBR + "@ + hex_prefixed(2 * lo8));
    lemma_replace_one(a, q, b, q, h);
    lemma_replace_absent(out, "<FREG_N>"@, prefixed_decimal("fr"@, n));
    lemma_replace_absent(out, "<FREG_M>"@, prefixed_decimal("fr"@, m));
    lemma_replace_absent(out, "<FREG_N_SD_F>"@, prefixed_decimal("fr"@, n));
    lemma_replace_absent(out, "<FREG_M_SD_F>"@, prefixed_decimal("fr"@, m));
    lemma_replace_absent(out, "<FREG_N_SD_A>"@, prefixed_decimal("fr"@, n));
    lemma_replace_absent(out, "<FREG_M_SD_A>"@, prefixed_decimal("fr"@, m));
    lemma_replace_absent(out, "<DR_N>"@, prefixed_decimal("dr"@, n / 2));
    lemma_replace_absent(out, "<FV_N>"@, prefixed_decimal("fv"@, n / 4));
    lemma_replace_absent(out, "<FV_M>"@, prefixed_decimal("fv"@, m / 4));
}

/// In a template whose other text holds no `<`, the `<FREG_N>` field is `fr` and the number in bits 8..11 of the opcode.
#[verifier::rlimit(60)]
pub proof fn lemma_fill_freg_n(a: Seq<char>, b: Seq<char>, pc: u32, op: u16)
    requires
        no_open(a),
        no_open(b),
    ensures
        ({
            let n = ((op / 256) % 16) as nat;
            let m = ((op / 16) % 16) as nat;
            let lo4 = (op % 16) as nat;
            let lo8 = (op % 256) as nat;
            disas_text(a + "<FREG_N>"@ + b, pc, op) == a + prefixed_decimal("fr"@, n) + b
        }),
{
    let n = ((op / 256) % 16) as nat;
    let m = ((op / 16) % 16) as nat;
    let lo4 = (op % 16) as nat;
    let lo8 = (op % 256) as nat;
    lemma_placeholder_literals();
    reveal_strlit("<FREG_N>");
    reveal_strlit("<REG_N>");
    assert("<REG_N>"@.len() != "<FREG_N>"@.len());
    reveal_strlit("<REG_M>");
    assert("<REG_M>"@.len() != "<FREG_N>"@.len());
    reveal_strlit("<IMM4>");
    assert("<IMM4>"@.len() != "<FREG_N>"@.len());
    reveal_strlit("<IMM8>");
    assert("<IMM8>"@.len() != "<FREG_N>"@.len());
    reveal_strlit("<imm8>");
    assert("<imm8>"@.len() != "<FREG_N>"@.len());
    reveal_strlit("<simm8>");
    assert("<simm8>"@.len() != "<FREG_N>"@.len());
    reveal_strlit("<simm8hex>");
    assert("<simm8hex>"@.len() != "<FREG_N>"@.len());
    reveal_strlit("<bdisp8>");
    assert("<bdisp8>"@[1] != "<FREG_N>"@[1]);
    reveal_strlit("<bdisp12>");
    assert("<bdisp12>"@.len() != "<FREG_N>"@.len());
    reveal_strlit("<disp4b>");
    assert("<disp4b>"@[1] != "<FREG_N>"@[1]);
    reveal_strlit("<disp4w>");
    assert("<disp4w>"@[1] != "<FREG_N>"@[1]);
    reveal_strlit("<disp4dw>");
    assert("<disp4dw>"@.len() != "<FREG_N>"@.len());
    reveal_strlit("<disp8b>");
    assert("<disp8b>"@[1] != "<FREG_N>"@[1]);
    reveal_strlit("<disp8w>");
    assert("<disp8w>"@[1] != "<FREG_N>"@[1]);
    reveal_strlit("<disp8dw>");
    assert("<disp8dw>"@.len() != "<FREG_N>"@.len());
    reveal_strlit("<PCdisp8d>");
    assert("<PCdisp8d>"@.len() != "<FREG_N>"@.len());
    reveal_strlit("<PCdisp8w>");
    assert("<PCdisp8w>"@.len() != "<FREG_N>"@.len());
    reveal_strlit("<GBRdisp8b>");
    assert("<GBRdisp8b>"@.len() != "<FREG_N>"@.len());
    reveal_strlit("<GBRdisp8w>");
    assert("<GBRdisp8w>"@.len() != "<FREG_N>"@.len());
    reveal_strlit("<GBRdisp8dw>");
    assert("<GBRdisp8dw>"@.len() != "<FREG_N>"@.len());
    let q = "<FREG_N>"@;
    let h = prefixed_decimal("fr"@, n);
    reveal_strlit("fr");
    lemma_digits_no_open(n, 10);
    lemma_concat_no_open("fr"@, digits(n, 10));
    let out = a + h + b;
    lemma_concat_no_open(a, h);
    lemma_concat_no_open(a + h, b);
    lemma_replace_one(a, q, b, "<REG_N>"@, prefixed_decimal("r"@, n));
    lemma_replace_one(a, q, b, "<REG_M>"@, prefixed_decimal("r"@, m));
    lemma_replace_one(a, q, b, "<IMM4>"@, prefixed_decimal("#"@, lo4));
    lemma_replace_one(a, q, b, "<IMM8>"@, "#"@ + signed_decimal(simm8(op)));
    lemma_replace_one(a, q, b, "<imm8>"@, "#"@ + signed_decimal(simm8(op)));
    lemma_replace_one(a, q, b, "<simm8>"@, signed_decimal(simm8(op)));
    lemma_replace_one(a, q, b, "<simm8hex>"@, hex_prefixed(wrap32(simm8(op)) as nat));
    lemma_replace_one(a, q, b, "<bdisp8>"@, hex_prefixed(pc.wrapping_add(wrap32(2 * simm8(op))) as nat));
    lemma_replace_one(a, q, b, "<bdisp12>"@, hex_prefixed(pc.wrapping_add((2 * (op % 4096)) as u32) as nat));
    lemma_replace_one(a, q, b, "<disp4b>"@, hex_prefixed(lo4));
    lemma_replace_one(a, q, b, "<disp4w>"@, hex_prefixed(2 * lo4));
    lemma_replace_one(a, q, b, "<disp4dw>"@, hex_prefixed(4 * lo4));
    lemma_replace_one(a, q, b, "<disp8b>"@, hex_prefixed(lo8));
    lemma_replace_one(a, q, b, "<disp8w>"@, hex_prefixed(2 * lo8));
    lemma_replace_one(a, q, b, "<disp8dw>"@, hex_prefixed(4 * lo8));
    lemma_replace_one(a, q, b, "<PCdisp8d>"@, hex_prefixed(pc.wrapping_add((4 * lo8) as u32) as nat));
    lemma_replace_one(a, q, b, "<PCdisp8w>"@, hex_prefixed(pc.wrapping_add((2 * lo8) as u32) as nat));
    lemma_replace_one(a, q, b, "<GBRdisp8b>"@, "GBR + "@ + hex_prefixed(lo8));
    lemma_replace_one(a, q, b, "<GBRdisp8w>"@, "GBR + "@ + hex_prefixed(2 * lo8));
    lemma_replace_one(a, q, b, "<GBRdisp8dw>"@, "GBR + "@ + hex_prefixed(4 * lo8));
    lemma_replace_one(a, q, b, q, h);
    lemma_replace_absent(out, "<FREG_M>"@, prefixed_decimal("fr"@, m));
    lemma_replace_absent(out, "<FREG_N_SD_F>"@, prefixed_decimal("fr"@, n));
    lemma_replace_absent(out, "<FREG_M_SD_F>"@, prefixed_decimal("fr"@, m));
    lemma_replace_absent(out, "<FREG_N_SD_A>"@, prefixed_decimal("fr"@, n));
    lemma_replace_absent(out, "<FREG_M_SD_A>"@, prefixed_decimal("fr"@, m));
    lemma_replace_absent(out, "<DR_N>"@, prefixed_decimal("dr"@, n / 2));
    lemma_replace_absent(out, "<FV_N>"@, prefixed_decimal("fv"@, n / 4));
    lemma_replace_absent(out, "<FV_M>"@, prefixed_decimal("fv"@, m / 4));
}

/// In a template whose other text holds no `<`, the `<FREG_M>` field is `fr` and the number in bits 4..7 of the opcode.
#[verifier::rlimit(60)]
pub proof fn lemma_fill_freg_m(a: Seq<char>, b: Seq<char>, pc: u32, op: u16)
    requires
        no_open(a),
        no_open(b),
    ensures
        ({
            let n = ((op / 256) % 16) as nat;
            let m = ((op / 16) % 16) as nat;
            let lo4 = (op % 16) as nat;
            let lo8 = (op % 256) as nat;
            disas_text(a + "<FREG_M>"@ + b, pc, op) == a + prefixed_decimal("fr"@, m) + b
        }),
{
    let n = ((op / 256) % 16) as nat;
    let m = ((op / 16) % 16) as nat;
    let lo4 = (op % 16) as nat;
    let lo8 = (op % 256) as nat;
    lemma_placeholder_literals();
    reveal_strlit("<FREG_M>");
    reveal_strlit("<REG_N>");
    assert("<REG_N>"@.len() != "<FREG_M>"@.len());
    reveal_strlit("<REG_M>");
    assert("<REG_M>"@.len() != "<FREG_M>"@.len());
    reveal_strlit("<IMM4>");
    assert("<IMM4>"@.len() != "<FREG_M>"@.len());
    reveal_strlit("<IMM8>");
    assert("<IMM8>"@.len() != "<FREG_M>"@.len());
    reveal_strlit("<imm8>");
    assert("<imm8>"@.len() != "<FREG_M>"@.len());
    reveal_strlit("<simm8>");
    assert("<simm8>"@.len() != "<FREG_M>"@.len());
    reveal_strlit("<simm8hex>");
    assert("<simm8hex>"@.len() != "<FREG_M>"@.len());
    reveal_strlit("<bdisp8>");
    assert("<bdisp8>"@[1] != "<FREG_M>"@[1]);
    reveal_strlit("<bdisp12>");
    assert("<bdisp12>"@.len() != "<FREG_M>"@.len());
    reveal_strlit("<disp4b>");
    assert("<disp4b>"@[1] != "<FREG_M>"@[1]);
    reveal_strlit("<disp4w>");
    assert("<disp4w>"@[1] != "<FREG_M>"@[1]);
    reveal_strlit("<disp4dw>");
    assert("<disp4dw>"@.len() != "<FREG_M>"@.len());
    reveal_strlit("<disp8b>");
    assert("<disp8b>"@[1] != "<FREG_M>"@[1]);
    reveal_strlit("<disp8w>");
    assert("<disp8w>"@[1] != "<FREG_M>"@[1]);
    reveal_strlit("<disp8dw>");
    assert("<disp8dw>"@.len() != "<FREG_M>"@.len());
    reveal_strlit("<PCdisp8d>");
    assert("<PCdisp8d>"@.len() != "<FREG_M>"@.len());
    reveal_strlit("<PCdisp8w>");
    assert("<PCdisp8w>"@.len() != "<FREG_M>"@.len());
    reveal_strlit("<GBRdisp8b>");
    assert("<GBRdisp8b>"@.len() != "<FREG_M>"@.len());
    reveal_strlit("<GBRdisp8w>");
    assert("<GBRdisp8w>"@.len() != "<FREG_M>"@.len());
    reveal_strlit("<GBRdisp8dw>");
    assert("<GBRdisp8dw>"@.len() != "<FREG_M>"@.len());
    reveal_strlit("<FREG_N>");
    assert("<FREG_N>"@[6] != "<FREG_M>"@[6]);
    let q = "<FREG_M>"@;
    let h = prefixed_decimal("fr"@, m);
    reveal_strlit("fr");
    lemma_digits_no_open(m, 10);
    lemma_concat_no_open("fr"@, digits(m, 10));
    let out = a + h + b;
    lemma_concat_no_open(a, h);
    lemma_concat_no_open(a + h, b);
    lemma_replace_one(a, q, b, "<REG_N>"@, prefixed_decimal("r"@, n));
    lemma_replace_one(a, q, b, "<REG_M>"@, prefixed_decimal("r"@, m));
    lemma_replace_one(a, q, b, "<IMM4>"@, prefixed_decimal("#"@, lo4));
    lemma_replace_one(a, q, b, "<IMM8>"@, "#"@ + signed_decimal(simm8(op)));
    lemma_replace_one(a, q, b, "<imm8>"@, "#"@ + signed_decimal(simm8(op)));
    lemma_replace_one(a, q, b, "<simm8>"@, signed_decimal(simm8(op)));
    lemma_replace_one(a, q, b, "<simm8hex>"@, hex_prefixed(wrap32(simm8(op)) as nat));
    lemma_replace_one(a, q, b, "<bdisp8>"@, hex_prefixed(pc.wrapping_add(wrap32(2 * simm8(op))) as nat));
    lemma_replace_one(a, q, b, "<bdisp12>"@, hex_prefixed(pc.wrapping_add((2 * (op % 4096)) as u32) as nat));
    lemma_replace_one(a, q, b, "<disp4b>"@, hex_prefixed(lo4));
    lemma_replace_one(a, q, b, "<disp4w>"@, hex_prefixed(2 * lo4));
    lemma_replace_one(a, q, b, "<disp4dw>"@, hex_prefixed(4 * lo4));
    lemma_replace_one(a, q, b, "<disp8b>"@, hex_prefixed(lo8));
    lemma_replace_one(a, q, b, "<disp8w>"@, hex_prefixed(2 * lo8));
    lemma_replace_one(a, q, b, "<disp8dw>"@, hex_prefixed(4 * lo8));
    lemma_replace_one(a, q, b, "<PCdisp8d>"@, hex_prefixed(pc.wrapping_add((4 * lo8) as u32) as nat));
    lemma_replace_one(a, q, b, "<PCdisp8w>"@, hex_prefixed(pc.wrapping_add((2 * lo8) as u32) as nat));
    lemma_replace_one(a, q, b, "<GBRdisp8b>"@, "GBR + "@ + hex_prefixed(lo8));
    lemma_replace_one(a, q, b, "<GBRdisp8w>"@, "GBR + "@ + hex_prefixed(2 * lo8));
    lemma_replace_one(a, q, b, "<GBRdisp8dw>"@, "GBR + "@ + hex_prefixed(4 * lo8));
    lemma_replace_one(a, q, b, "<FREG_N>"@, prefixed_decimal("fr"@, n));
    lemma_replace_one(a, q, b, q, h);
    lemma_replace_absent(out, "<FREG_N_SD_F>"@, prefixed_decimal("fr"@, n));
    lemma_replace_absent(out, "<FREG_M_SD_F>"@, prefixed_decimal("fr"@, m));
    lemma_replace_absent(out, "<FREG_N_SD_A>"@, prefixed_decimal("fr"@, n));
    lemma_replace_absent(out, "<FREG_M_SD_A>"@, prefixed_decimal("fr"@, m));
    lemma_replace_absent(out, "<DR_N>"@, prefixed_decimal("dr"@, n / 2));
    lemma_replace_absent(out, "<FV_N>"@, prefixed_decimal("fv"@, n / 4));
    lemma_replace_absent(out, "<FV_M>"@, prefixed_decimal("fv"@, m / 4));
}

/// In a template whose other text holds no `<`, the `<DR_N>` field is `dr` and half the number in bits 8..11 of the opcode.
#[verifier::rlimit(60)]
pub proof fn lemma_fill_dr_n(a: Seq<char>, b: Seq<char>, pc: u32, op: u16)
    requires
        no_open(a),
        no_open(b),
    ensures
        ({
            let n = ((op / 256) % 16) as nat;
            let m = ((op / 16) % 16) as nat;
            let lo4 = (op % 16) as nat;
            let lo8 = (op % 256) as nat;
            disas_text(a + "<DR_N>"@ + b, pc, op) == a + prefixed_decimal("dr"@, n / 2) + b
        }),
{
    let n = ((op / 256) % 16) as nat;
    let m = ((op / 16) % 16) as nat;
    let lo4 = (op % 16) as nat;
    let lo8 = (op % 256) as nat;
    lemma_placeholder_literals();
    reveal_strlit("<DR_N>");
    reveal_strlit("<REG_N>");
    assert("<REG_N>"@.len() != "<DR_N>"@.len());
    reveal_strlit("<REG_M>");
    assert("<REG_M>"@.len() != "<DR_N>"@.len());
    reveal_strlit("<IMM4>");
    assert("<IMM4>"@[1] != "<DR_N>"@[1]);
    reveal_strlit("<IMM8>");
    assert("<IMM8>"@[1] != "<DR_N>"@[1]);
    reveal_strlit("<imm8>");
    assert("<imm8>"@[1] != "<DR_N>"@[1]);
    reveal_strlit("<simm8>");
    assert("<simm8>"@.len() != "<DR_N>"@.len());
    reveal_strlit("<simm8hex>");
    assert("<simm8hex>"@.len() != "<DR_N>"@.len());
    reveal_strlit("<bdisp8>");
    assert("<bdisp8>"@.len() != "<DR_N>"@.len());
    reveal_strlit("<bdisp12>");
    assert("<bdisp12>"@.len() != "<DR_N>"@.len());
    reveal_strlit("<disp4b>");
    assert("<disp4b>"@.len() != "<DR_N>"@.len());
    reveal_strlit("<disp4w>");
    assert("<disp4w>"@.len() != "<DR_N>"@.len());
    reveal_strlit("<disp4dw>");
    assert("<disp4dw>"@.len() != "<DR_N>"@.len());
    reveal_strlit("<disp8b>");
    assert("<disp8b>"@.len() != "<DR_N>"@.len());
    reveal_strlit("<disp8w>");
    assert("<disp8w>"@.len() != "<DR_N>"@.len());
    reveal_strlit("<disp8dw>");
    assert("<disp8dw>"@.len() != "<DR_N>"@.len());
    reveal_strlit("<PCdisp8d>");
    assert("<PCdisp8d>"@.len() != "<DR_N>"@.len());
    reveal_strlit("<PCdisp8w>");
    assert("<PCdisp8w>"@.len() != "<DR_N>"@.len());
    reveal_strlit("<GBRdisp8b>");
    assert("<GBRdisp8b>"@.len() != "<DR_N>"@.len());
    reveal_strlit("<GBRdisp8w>");
    assert("<GBRdisp8w>"@.len() != "<DR_N>"@.len());
    reveal_strlit("<GBRdisp8dw>");
    assert("<GBRdisp8dw>"@.len() != "<DR_N>"@.len());
    reveal_strlit("<FREG_N>");
    assert("<FREG_N>"@.len() != "<DR_N>"@.len());
    reveal_strlit("<FREG_M>");
    assert("<FREG_M>"@.len() != "<DR_N>"@.len());
    reveal_strlit("<FREG_N_SD_F>");
    assert("<FREG_N_SD_F>"@.len() != "<DR_N>"@.len());
    reveal_strlit("<FREG_M_SD_F>");
    assert("<FREG_M_SD_F>"@.len() != "<DR_N>"@.len());
    reveal_strlit("<FREG_N_SD_A>");
    assert("<FREG_N_SD_A>"@.len() != "<DR_N>"@.len());
    reveal_strlit("<FREG_M_SD_A>");
    assert("<FREG_M_SD_A>"@.len() != "<DR_N>"@.len());
    let q = "<DR_N>"@;
    let h = prefixed_decimal("dr"@, n / 2);
    reveal_strlit("dr");
    lemma_digits_no_open(n / 2, 10);
    lemma_concat_no_open("dr"@, digits(n / 2, 10));
    let out = a + h + b;
    lemma_concat_no_open(a, h);
    lemma_concat_no_open(a + h, b);
    lemma_replace_one(a, q, b, "<REG_N>"@, prefixed_decimal("r"@, n));
    lemma_replace_one(a, q, b, "<REG_M>"@, prefixed_decimal("r"@, m));
    lemma_replace_one(a, q, b, "<IMM4>"@, prefixed_decimal("#"@, lo4));
    lemma_replace_one(a, q, b, "<IMM8>"@, "#"@ + signed_decimal(simm8(op)));
    lemma_replace_one(a, q, b, "<imm8>"@, "#"@ + signed_decimal(simm8(op)));
    lemma_replace_one(a, q, b, "<simm8>"@, signed_decimal(simm8(op)));
    lemma_replace_one(a, q, b, "<simm8hex>"@, hex_prefixed(wrap32(simm8(op)) as nat));
    lemma_replace_one(a, q, b, "<bdisp8>"@, hex_prefixed(pc.wrapping_add(wrap32(2 * simm8(op))) as nat));
    lemma_replace_one(a, q, b, "<bdisp12>"@, hex_prefixed(pc.wrapping_add((2 * (op % 4096)) as u32) as nat));
    lemma_replace_one(a, q, b, "<disp4b>"@, hex_prefixed(lo4));
    lemma_replace_one(a, q, b, "<disp4w>"@, hex_prefixed(2 * lo4));
    lemma_replace_one(a, q, b, "<disp4dw>"@, hex_prefixed(4 * lo4));
    lemma_replace_one(a, q, b, "<disp8b>"@, hex_prefixed(lo8));
    lemma_replace_one(a, q, b, "<disp8w>"@, hex_prefixed(2 * lo8));
    lemma_replace_one(a, q, b, "<disp8dw>"@, hex_prefixed(4 * lo8));
    lemma_replace_one(a, q, b, "<PCdisp8d>"@, hex_prefixed(pc.wrapping_add((4 * lo8) as u32) as nat));
    lemma_replace_one(a, q, b, "<PCdisp8w>"@, hex_prefixed(pc.wrapping_add((2 * lo8) as u32) as nat));
    lemma_replace_one(a, q, b, "<GBRdisp8b>"@, "GBR + "@ + hex_prefixed(lo8));
    lemma_replace_one(a, q, b, "<GBRdisp8w>"@, "GBR + "@ + hex_prefixed(2 * lo8));
    lemma_replace_one(a, q, b, "<GBRdisp8dw>"@, "GBR + "@ + hex_prefixed(4 * lo8));
    lemma_replace_one(a, q, b, "<FREG_N>"@, prefixed_decimal("fr"@, n));
    lemma_replace_one(a, q, b, "<FREG_M>"@, prefixed_decimal("fr"@, m));
    lemma_replace_one(a, q, b, "<FREG_N_SD_F>"@, prefixed_decimal("fr"@, n));
    lemma_replace_one(a, q, b, "<FREG_M_SD_F>"@, prefixed_decimal("fr"@, m));
    lemma_replace_one(a, q, b, "<FREG_N_SD_A>"@, prefixed_decimal("fr"@, n));
    lemma_replace_one(a, q, b, "<FREG_M_SD_A>"@, prefixed_decimal("fr"@, m));
    lemma_replace_one(a, q, b, q, h);
    lemma_replace_absent(out, "<FV_N>"@, prefixed_decimal("fv"@, n / 4));
    lemma_replace_absent(out, "<FV_M>"@, prefixed_decimal("fv"@, m / 4));
}

/// In a template whose other text holds no `<`, the `<FV_N>` field is `fv` and a quarter of the number in bits 8..11 of the opcode.
#[verifier::rlimit(60)]
pub proof fn lemma_fill_fv_n(a: Seq<char>, b: Seq<char>, pc: u32, op: u16)
    requires
        no_open(a),
        no_open(b),
    ensures
        ({
            let n = ((op / 256) % 16) as nat;
            let m = ((op / 16) % 16) as nat;
            let lo4 = (op % 16) as nat;
            let lo8 = (op % 256) as nat;
            disas_text(a + "<FV_N>"@ + b, pc, op) == a + prefixed_decimal("fv"@, n / 4) + b
        }),
{
    let n = ((op / 256) % 16) as nat;
    let m = ((op / 16) % 16) as nat;
    let lo4 = (op % 16) as nat;
    let lo8 = (op % 256) as nat;
    lemma_placeholder_literals();
    reveal_strlit("<FV_N>");
    reveal_strlit("<REG_N>");
    assert("<REG_N>"@.len() != "<FV_N>"@.len());
    reveal_strlit("<REG_M>");
    assert("<REG_M>"@.len() != "<FV_N>"@.len());
    reveal_strlit("<IMM4>");
    assert("<IMM4>"@[1] != "<FV_N>"@[1]);
    reveal_strlit("<IMM8>");
    assert("<IMM8>"@[1] != "<FV_N>"@[1]);
    reveal_strlit("<imm8>");
    assert("<imm8>"@[1] != "<FV_N>"@[1]);
    reveal_strlit("<simm8>");
    assert("<simm8>"@.len() != "<FV_N>"@.len());
    reveal_strlit("<simm8hex>");
    assert("<simm8hex>"@.len() != "<FV_N>"@.len());
    reveal_strlit("<bdisp8>");
    assert("<bdisp8>"@.len() != "<FV_N>"@.len());
    reveal_strlit("<bdisp12>");
    assert("<bdisp12>"@.len() != "<FV_N>"@.len());
    reveal_strlit("<disp4b>");
    assert("<disp4b>"@.len() != "<FV_N>"@.len());
    reveal_strlit("<disp4w>");
    assert("<disp4w>"@.len() != "<FV_N>"@.len());
    reveal_strlit("<disp4dw>");
    assert("<disp4dw>"@.len() != "<FV_N>"@.len());
    reveal_strlit("<disp8b>");
    assert("<disp8b>"@.len() != "<FV_N>"@.len());
    reveal_strlit("<disp8w>");
    assert("<disp8w>"@.len() != "<FV_N>"@.len());
    reveal_strlit("<disp8dw>");
    assert("<disp8dw>"@.len() != "<FV_N>"@.len());
    reveal_strlit("<PCdisp8d>");
    assert("<PCdisp8d>"@.len() != "<FV_N>"@.len());
    reveal_strlit("<PCdisp8w>");
    assert("<PCdisp8w>"@.len() != "<FV_N>"@.len());
    reveal_strlit("<GBRdisp8b>");
    assert("<GBRdisp8b>"@.len() != "<FV_N>"@.len());
    reveal_strlit("<GBRdisp8w>");
    assert("<GBRdisp8w>"@.len() != "<FV_N>"@.len());
    reveal_strlit("<GBRdisp8dw>");
    assert("<GBRdisp8dw>"@.len() != "<FV_N>"@.len());
    reveal_strlit("<FREG_N>");
    assert("<FREG_N>"@.len() != "<FV_N>"@.len());
    reveal_strlit("<FREG_M>");
    assert("<FREG_M>"@.len() != "<FV_N>"@.len());
    reveal_strlit("<FREG_N_SD_F>");
    assert("<FREG_N_SD_F>"@.len() != "<FV_N>"@.len());
    reveal_strlit("<FREG_M_SD_F>");
    assert("<FREG_M_SD_F>"@.len() != "<FV_N>"@.len());
    reveal_strlit("<FREG_N_SD_A>");
    assert("<FREG_N_SD_A>"@.len() != "<FV_N>"@.len());
    reveal_strlit("<FREG_M_SD_A>");
    assert("<FREG_M_SD_A>"@.len() != "<FV_N>"@.len());
    reveal_strlit("<DR_N>");
    assert("<DR_N>"@[1] != "<FV_N>"@[1]);
    let q = "<FV_N>"@;
    let h = prefixed_decimal("fv"@, n / 4);
    reveal_strlit("fv");
    lemma_digits_no_open(n / 4, 10);
    lemma_concat_no_open("fv"@, digits(n / 4, 10));
    let out = a + h + b;
    lemma_concat_no_open(a, h);
    lemma_concat_no_open(a + h, b);
    lemma_replace_one(a, q, b, "<REG_N>"@, prefixed_decimal("r"@, n));
    lemma_replace_one(a, q, b, "<REG_M>"@, prefixed_decimal("r"@, m));
    lemma_replace_one(a, q, b, "<IMM4>"@, prefixed_decimal("#"@, lo4));
    lemma_replace_one(a, q, b, "<IMM8>"@, "#"@ + signed_decimal(simm8(op)));
    lemma_replace_one(a, q, b, "<imm8>"@, "#"@ + signed_decimal(simm8(op)));
    lemma_replace_one(a, q, b, "<simm8>"@, signed_decimal(simm8(op)));
    lemma_replace_one(a, q, b, "<simm8hex>"@, hex_prefixed(wrap32(simm8(op)) as nat));
    lemma_replace_one(a, q, b, "<bdisp8>"@, hex_prefixed(pc.wrapping_add(wrap32(2 * simm8(op))) as nat));
    lemma_replace_one(a, q, b, "<bdisp12>"@, hex_prefixed(pc.wrapping_add((2 * (op % 4096)) as u32) as nat));
    lemma_replace_one(a, q, b, "<disp4b>"@, hex_prefixed(lo4));
    lemma_replace_one(a, q, b, "<disp4w>"@, hex_prefixed(2 * lo4));
    lemma_replace_one(a, q, b, "<disp4dw>"@, hex_prefixed(4 * lo4));
    lemma_replace_one(a, q, b, "<disp8b>"@, hex_prefixed(lo8));
    lemma_replace_one(a, q, b, "<disp8w>"@, hex_prefixed(2 * lo8));
    lemma_replace_one(a, q, b, "<disp8dw>"@, hex_prefixed(4 * lo8));
    lemma_replace_one(a, q, b, "<PCdisp8d>"@, hex_prefixed(pc.wrapping_add((4 * lo8) as u32) as nat));
    lemma_replace_one(a, q, b, "<PCdisp8w>"@, hex_prefixed(pc.wrapping_add((2 * lo8) as u32) as nat));
    lemma_replace_one(a, q, b, "<GBRdisp8b>"@, "GBR + "@ + hex_prefixed(lo8));
    lemma_replace_one(a, q, b, "<GBRdisp8w>"@, "GBR + "@ + hex_prefixed(2 * lo8));
    lemma_replace_one(a, q, b, "<GBRdisp8dw>"@, "GBR + "@ + hex_prefixed(4 * lo8));
    lemma_replace_one(a, q, b, "<FREG_N>"@, prefixed_decimal("fr"@, n));
    lemma_replace_one(a, q, b, "<FREG_M>"@, prefixed_decimal("fr"@, m));
    lemma_replace_one(a, q, b, "<FREG_N_SD_F>"@, prefixed_decimal("fr"@, n));
    lemma_replace_one(a, q, b, "<FREG_M_SD_F>"@, prefixed_decimal("fr"@, m));
    lemma_replace_one(a, q, b, "<FREG_N_SD_A>"@, prefixed_decimal("fr"@, n));
    lemma_replace_one(a, q, b, "<FREG_M_SD_A>"@, prefixed_decimal("fr"@, m));
    lemma_replace_one(a, q, b, "<DR_N>"@, prefixed_decimal("dr"@, n / 2));
    lemma_replace_one(a, q, b, q, h);
    lemma_replace_absent(out, "<FV_M>"@, prefixed_decimal("fv"@, m / 4));
}

/// In a template whose other text holds no `<`, the `<FV_M>` field is `fv` and a quarter of the number in bits 4..7 of the opcode.
#[verifier::rlimit(60)]
pub proof fn lemma_fill_fv_m(a: Seq<char>, b: Seq<char>, pc: u32, op: u16)
    requires
        no_open(a),
        no_open(b),
    ensures
        ({
            let n = ((op / 256) % 16) as nat;
            let m = ((op / 16) % 16) as nat;
            let lo4 = (op % 16) as nat;
            let lo8 = (op % 256) as nat;
            disas_text(a + "<FV_M>"@ + b, pc, op) == a + prefixed_decimal("fv"@, m / 4) + b
        }),
{
    let n = ((op / 256) % 16) as nat;
    let m = ((op / 16) % 16) as nat;
    let lo4 = (op % 16) as nat;
    let lo8 = (op % 256) as nat;
    lemma_placeholder_literals();
    reveal_strlit("<FV_M>");
    reveal_strlit("<REG_N>");
    assert("<REG_N>"@.len() != "<FV_M>"@.len());
    reveal_strlit("<REG_M>");
    assert("<REG_M>"@.len() != "<FV_M>"@.len());
    reveal_strlit("<IMM4>");
    assert("<IMM4>"@[1] != "<FV_M>"@[1]);
    reveal_strlit("<IMM8>");
    assert("<IMM8>"@[1] != "<FV_M>"@[1]);
    reveal_strlit("<imm8>");
    assert("<imm8>"@[1] != "<FV_M>"@[1]);
    reveal_strlit("<simm8>");
    assert("<simm8>"@.len() != "<FV_M>"@.len());
    reveal_strlit("<simm8hex>");
    assert("<simm8hex>"@.len() != "<FV_M>"@.len());
    reveal_strlit("<bdisp8>");
    assert("<bdisp8>"@.len() != "<FV_M>"@.len());
    reveal_strlit("<bdisp12>");
    assert("<bdisp12>"@.len() != "<FV_M>"@.len());
    reveal_strlit("<disp4b>");
    assert("<disp4b>"@.len() != "<FV_M>"@.len());
    reveal_strlit("<disp4w>");
    assert("<disp4w>"@.len() != "<FV_M>"@.len());
    reveal_strlit("<disp4dw>");
    assert("<disp4dw>"@.len() != "<FV_M>"@.len());
    reveal_strlit("<disp8b>");
    assert("<disp8b>"@.len() != "<FV_M>"@.len());
    reveal_strlit("<disp8w>");
    assert("<disp8w>"@.len() != "<FV_M>"@.len());
    reveal_strlit("<disp8dw>");
    assert("<disp8dw>"@.len() != "<FV_M>"@.len());
    reveal_strlit("<PCdisp8d>");
    assert("<PCdisp8d>"@.len() != "<FV_M>"@.len());
    reveal_strlit("<PCdisp8w>");
    assert("<PCdisp8w>"@.len() != "<FV_M>"@.len());
    reveal_strlit("<GBRdisp8b>");
    assert("<GBRdisp8b>"@.len() != "<FV_M>"@.len());
    reveal_strlit("<GBRdisp8w>");
    assert("<GBRdisp8w>"@.len() != "<FV_M>"@.len());
    reveal_strlit("<GBRdisp8dw>");
    assert("<GBRdisp8dw>"@.len() != "<FV_M>"@.len());
    reveal_strlit("<FREG_N>");
    assert("<FREG_N>"@.len() != "<FV_M>"@.len());
    reveal_strlit("<FREG_M>");
    assert("<FREG_M>"@.len() != "<FV_M>"@.len());
    reveal_strlit("<FREG_N_SD_F>");
    assert("<FREG_N_SD_F>"@.len() != "<FV_M>"@.len());
    reveal_strlit("<FREG_M_SD_F>");
    assert("<FREG_M_SD_F>"@.len() != "<FV_M>"@.len());
    reveal_strlit("<FREG_N_SD_A>");
    assert("<FREG_N_SD_A>"@.len() != "<FV_M>"@.len());
    reveal_strlit("<FREG_M_SD_A>");
    assert("<FREG_M_SD_A>"@.len() != "<FV_M>"@.len());
    reveal_strlit("<DR_N>");
    assert("<DR_N>"@[1] != "<FV_M>"@[1]);
    reveal_strlit("<FV_N>");
    assert("<FV_N>"@[4] != "<FV_M>"@[4]);
    let q = "<FV_M>"@;
    let h = prefixed_decimal("fv"@, m / 4);
    reveal_strlit("fv");
    lemma_digits_no_open(m / 4, 10);
    lemma_concat_no_open("fv"@, digits(m / 4, 10));
    let out = a + h + b;
    lemma_concat_no_open(a, h);
    lemma_concat_no_open(a + h, b);
    lemma_replace_one(a, q, b, "<REG_N>"@, prefixed_decimal("r"@, n));
    lemma_replace_one(a, q, b, "<REG_M>"@, prefixed_decimal("r"@, m));
    lemma_replace_one(a, q, b, "<IMM4>"@, prefixed_decimal("#"@, lo4));
    lemma_replace_one(a, q, b, "<IMM8>"@, "#"@ + signed_decimal(simm8(op)));
    lemma_replace_one(a, q, b, "<imm8>"@, "#"@ + signed_decimal(simm8(op)));
    lemma_replace_one(a, q, b, "<simm8>"@, signed_decimal(simm8(op)));
    lemma_replace_one(a, q, b, "<simm8hex>"@, hex_prefixed(wrap32(simm8(op)) as nat));
    lemma_replace_one(a, q, b, "<bdisp8>"@, hex_prefixed(pc.wrapping_add(wrap32(2 * simm8(op))) as nat));
    lemma_replace_one(a, q, b, "<bdisp12>"@, hex_prefixed(pc.wrapping_add((2 * (op % 4096)) as u32) as nat));
    lemma_replace_one(a, q, b, "<disp4b>"@, hex_prefixed(lo4));
    lemma_replace_one(a, q, b, "<disp4w>"@, hex_prefixed(2 * lo4));
    lemma_replace_one(a, q, b, "<disp4dw>"@, hex_prefixed(4 * lo4));
    lemma_replace_one(a, q, b, "<disp8b>"@, hex_prefixed(lo8));
    lemma_replace_one(a, q, b, "<disp8w>"@, hex_prefixed(2 * lo8));
    lemma_replace_one(a, q, b, "<disp8dw>"@, hex_prefixed(4 * lo8));
    lemma_replace_one(a, q, b, "<PCdisp8d>"@, hex_prefixed(pc.wrapping_add((4 * lo8) as u32) as nat));
    lemma_replace_one(a, q, b, "<PCdisp8w>"@, hex_prefixed(pc.wrapping_add((2 * lo8) as u32) as nat));
    lemma_replace_one(a, q, b, "<GBRdisp8b>"@, "GBR + "@ + hex_prefixed(lo8));
    lemma_replace_one(a, q, b, "<GBRdisp8w>"@, "GBR + "@ + hex_prefixed(2 * lo8));
    lemma_replace_one(a, q, b, "<GBRdisp8dw>"@, "GBR + "@ + hex_prefixed(4 * lo8));
    lemma_replace_one(a, q, b, "<FREG_N>"@, prefixed_decimal("fr"@, n));
    lemma_replace_one(a, q, b, "<FREG_M>"@, prefixed_decimal("fr"@, m));
    lemma_replace_one(a, q, b, "<FREG_N_SD_F>"@, prefixed_decimal("fr"@, n));
    lemma_replace_one(a, q, b, "<FREG_M_SD_F>"@, prefixed_decimal("fr"@, m));
    lemma_replace_one(a, q, b, "<FREG_N_SD_A>"@, prefixed_decimal("fr"@, n));
    lemma_replace_one(a, q, b, "<FREG_M_SD_A>"@, prefixed_decimal("fr"@, m));
    lemma_replace_one(a, q, b, "<DR_N>"@, prefixed_decimal("dr"@, n / 2));
    lemma_replace_one(a, q, b, "<FV_N>"@, prefixed_decimal("fv"@, n / 4));
    lemma_replace_one(a, q, b, q, h);
}

/// `prefix` followed by the decimal digits of `v`.
fn prefixed_decimal_chars(prefix: &str, v: u32) -> (out: Vec<char>)
    ensures
        out@ == prefixed_decimal(prefix@, v as nat),
{
    let mut out = str_chars(prefix);
    push_digits(&mut out, v as u64, 10);
    out
}

/// Replaces every occurrence of the placeholder `p` by `r`.
fn fill(s: Vec<char>, p: &str, r: Vec<char>) -> (out: Vec<char>)
    ensures
        out@ == replace_all(s@, p@, r@),
{
    let pv = str_chars(p);
    replace(&s, &pv, &r)
}

fn fill_integer(d: Vec<char>, pc: u32, op: u16) -> (out: Vec<char>)
    ensures
        out@ == fill_integer_fields(d@, pc, op),
{
    let n = ((op / 256) % 16) as u32;
    let m = ((op / 16) % 16) as u32;
    let lo4 = (op % 16) as u32;
    let lo8 = (op % 256) as u32;
    let b = (op % 256) as i32;
    let s8: i32 = if b < 128 { b } else { b - 256 };
    assert(s8 == simm8(op));
    let s = fill(d, "<REG_N>", prefixed_decimal_chars("r", n));
    let s = fill(s, "<REG_M>", prefixed_decimal_chars("r", m));
    let s = fill(s, "<IMM4>", prefixed_decimal_chars("#", lo4));
    let s = fill(s, "<IMM8>", concat_chars("#", &signed_decimal_chars(s8)));
    let s = fill(s, "<imm8>", concat_chars("#", &signed_decimal_chars(s8)));
    let s = fill(s, "<simm8>", signed_decimal_chars(s8));
    let s = fill(s, "<simm8hex>", hex_prefixed_chars(imm_bits(s8)));
    let s = fill(s, "<bdisp8>", hex_prefixed_chars(pc.wrapping_add(imm_bits(2 * s8))));
    let s = fill(s, "<bdisp12>", hex_prefixed_chars(pc.wrapping_add(2 * (op % 4096) as u32)));
    let s = fill(s, "<disp4b>", hex_prefixed_chars(lo4));
    let s = fill(s, "<disp4w>", hex_prefixed_chars(2 * lo4));
    let s = fill(s, "<disp4dw>", hex_prefixed_chars(4 * lo4));
    let s = fill(s, "<disp8b>", hex_prefixed_chars(lo8));
    let s = fill(s, "<disp8w>", hex_prefixed_chars(2 * lo8));
    let s = fill(s, "<disp8dw>", hex_prefixed_chars(4 * lo8));
    let s = fill(s, "<PCdisp8d>", hex_prefixed_chars(pc.wrapping_add(4 * lo8)));
    let s = fill(s, "<PCdisp8w>", hex_prefixed_chars(pc.wrapping_add(2 * lo8)));
    let s = fill(s, "<GBRdisp8b>", concat_chars("GBR + ", &hex_prefixed_chars(lo8)));
    let s = fill(s, "<GBRdisp8w>", concat_chars("GBR + ", &hex_prefixed_chars(2 * lo8)));
    fill(s, "<GBRdisp8dw>", concat_chars("GBR + ", &hex_prefixed_chars(4 * lo8)))
}

fn fill_float(d: Vec<char>, op: u16) -> (out: Vec<char>)
    ensures
        out@ == fill_float_fields(d@, op),
{
    let n = ((op / 256) % 16) as u32;
    let m = ((op / 16) % 16) as u32;
    let s = fill(d, "<FREG_N>", prefixed_decimal_chars("fr", n));
    let s = fill(s, "<FREG_M>", prefixed_decimal_chars("fr", m));
    let s = fill(s, "<FREG_N_SD_F>", prefixed_decimal_chars("fr", n));
    let s = fill(s, "<FREG_M_SD_F>", prefixed_decimal_chars("fr", m));
    let s = fill(s, "<FREG_N_SD_A>", prefixed_decimal_chars("fr", n));
    let s = fill(s, "<FREG_M_SD_A>", prefixed_decimal_chars("fr", m));
    let s = fill(s, "<DR_N>", prefixed_decimal_chars("dr", n / 2));
    let s = fill(s, "<FV_N>", prefixed_decimal_chars("fv", n / 4));
    fill(s, "<FV_M>", prefixed_decimal_chars("fv", m / 4))
}

/// The disassembly of `opcode` at `state.pc`, from the template of its
/// entry in the decode table `descs`.
pub fn format_disas(descs: &Vec<sh4_opcodelistentry>, state: SH4DecoderState, opcode: u16) -> (out: String)
    requires
        descs.len() == 0x10000,
    ensures
        out@ == disas_text(descs@[opcode as int].diss@, state.pc, opcode),
{
    let d = str_chars(descs[opcode as usize].diss);
    let s = fill_integer(d, state.pc, opcode);
    let s = fill_float(s, opcode);
    chars_to_string(s)
}

} // verus!
