//! What the debugger server shows where no machine state backs it: pseudo
//! instructions and memory bytes drawn from SHA-256 of the target and the
//! address, and sample call stacks.

use vstd::prelude::*;
use sha2::{Digest, Sha256};
use crate::dreamcast::{chars_eq_str, DisassemblyLine};
use crate::numfmt::{owned, join_chars, upper_hex_fixed, push_upper_hex_fixed};
use crate::text::{digits, push_digits, str_chars, chars_to_string};

verus! {

/// The first byte of the SHA-256 digest of the UTF-8 bytes of a string.
pub uninterp spec fn sha256_first_byte(s: Seq<char>) -> u8;

/// `sha2::Sha256::digest` of the UTF-8 bytes of `input`, first byte. The
/// contract names the result (a function of the input alone) and says
/// nothing more of it.
#[verifier::external_body]
fn sha256_byte(input: &str) -> (b: u8)
    ensures
        b == sha256_first_byte(input@),
{
    Sha256::digest(input.as_bytes())[0]
}

/// The hash key of an address of a target: `target:addr` with the address
/// in lowercase hexadecimal.
pub open spec fn address_key(target: Seq<char>, addr: u64) -> Seq<char> {
    target + seq![':'] + digits(addr as nat, 16)
}

/// The hash key of byte `b` of an instruction: `target:addr:b`.
pub open spec fn byte_key(target: Seq<char>, addr: u64, b: u64) -> Seq<char> {
    address_key(target, addr) + seq![':'] + digits(b as nat, 10)
}

fn address_key_string(target: &str, addr: u64) -> (s: Vec<char>)
    ensures
        s@ == address_key(target@, addr),
{
    let mut c = str_chars(target);
    c.push(':');
    push_digits(&mut c, addr, 16);
    c
}

/// The mnemonic of pseudo instruction `k` (0..8) of a target.
pub open spec fn mock_mnemonic(arm7: bool, k: int) -> Seq<char> {
    if arm7 {
        if k == 0 { "mov"@ } else if k == 1 { "ldr"@ } else if k == 2 { "str"@ } else if k == 3 { "add"@ }
        else if k == 4 { "sub"@ } else if k == 5 { "bx"@ } else if k == 6 { "bl"@ } else { "nop"@ }
    } else {
        if k == 0 { "mov.l"@ } else if k == 1 { "mov"@ } else if k == 2 { "sts.l"@ } else if k == 3 { "add"@ }
        else if k == 4 { "cmp/eq"@ } else if k == 5 { "bf"@ } else if k == 6 { "jmp"@ } else { "nop"@ }
    }
}

/// The mnemonic of pseudo instruction `k` of a target, for a byte `k`.
pub open spec fn mnemonic_of(arm7: bool, k: u8) -> Seq<char> {
    mock_mnemonic(arm7, k as int)
}

fn mnemonic(arm7: bool, k: u8) -> (m: String)
    requires
        k < 8,
    ensures
        m@ == mnemonic_of(arm7, k),
{
    if arm7 {
        if k == 0 { owned("mov") } else if k == 1 { owned("ldr") } else if k == 2 { owned("str") } else if k == 3 { owned("add") }
        else if k == 4 { owned("sub") } else if k == 5 { owned("bx") } else if k == 6 { owned("bl") } else { owned("nop") }
    } else {
        if k == 0 { owned("mov.l") } else if k == 1 { owned("mov") } else if k == 2 { owned("sts.l") } else if k == 3 { owned("add") }
        else if k == 4 { owned("cmp/eq") } else if k == 5 { owned("bf") } else if k == 6 { owned("jmp") } else { owned("nop") }
    }
}

/// `r` and a register number.
pub open spec fn reg_text(n: nat) -> Seq<char> {
    seq!['r'] + digits(n, 10)
}

/// The operands of pseudo instruction `k` with the numbers drawn from the
/// hash byte.
pub open spec fn mock_operands(arm7: bool, k: int, r1: nat, r2: nat, r3: nat, val: nat, offset: nat) -> Seq<char> {
    if arm7 {
        if k == 0 { reg_text(r1) + ", #"@ + digits(val, 10) }
        else if k == 1 { reg_text(r1) + ", ["@ + reg_text(r2) + ", #"@ + digits(offset, 10) + "]"@ }
        else if k == 2 { reg_text(r1) + ", ["@ + reg_text(r2) + "]"@ }
        else if k == 3 || k == 4 { reg_text(r1) + ", "@ + reg_text(r2) + ", "@ + reg_text(r3) }
        else if k == 5 { reg_text(r1) }
        else if k == 6 { "0x"@ + digits(offset, 16) }
        else { Seq::empty() }
    } else {
        if k == 0 { "@"@ + reg_text(r1) + "+, "@ + reg_text(r2) }
        else if k == 1 || k == 3 || k == 4 { reg_text(r1) + ", "@ + reg_text(r2) }
        else if k == 2 { "pr, @-"@ + reg_text(r1) }
        else if k == 5 { "0x"@ + digits(offset, 16) }
        else if k == 6 { "@"@ + reg_text(r1) }
        else { Seq::empty() }
    }
}

/// The text of the pseudo instruction that hash byte `h` picks: the
/// mnemonic, then a space and the operands when there are any.
pub open spec fn mock_instruction_text(arm7: bool, h: u8) -> Seq<char> {
    let k = (h % 8) as int;
    let ops = mock_operands(arm7, k, ((h / 16) % 16) as nat, ((h / 4) % 16) as nat, (h % 16) as nat,
        ((3 * h) % 256) as nat, ((7 * h) % 256) as nat);
    if ops.len() == 0 { mock_mnemonic(arm7, k) } else { mock_mnemonic(arm7, k) + seq![' '] + ops }
}

fn dec_chars(v: u64) -> (c: Vec<char>)
    ensures
        c@ == digits(v as nat, 10),
{
    let mut c: Vec<char> = Vec::new();
    push_digits(&mut c, v, 10);
    assert(c@ =~= digits(v as nat, 10));
    c
}

fn reg_chars(n: u64) -> (c: Vec<char>)
    ensures
        c@ == reg_text(n as nat),
{
    let mut c: Vec<char> = Vec::new();
    c.push('r');
    push_digits(&mut c, n, 10);
    c
}

fn operands(arm7: bool, k: u8, r1: u64, r2: u64, r3: u64, val: u64, offset: u64) -> (o: Vec<char>)
    requires
        k < 8,
    ensures
        o@ == mock_operands(arm7, k as int, r1 as nat, r2 as nat, r3 as nat, val as nat, offset as nat),
{
    let mut hex_off = str_chars("0x");
    push_digits(&mut hex_off, offset, 16);
    if arm7 {
        if k == 0 {
            join_chars(&join_chars(&reg_chars(r1), &str_chars(", #")), &dec_chars(val))
        } else if k == 1 {
            let a = join_chars(&reg_chars(r1), &str_chars(", ["));
            let b = join_chars(&a, &reg_chars(r2));
            let c = join_chars(&b, &str_chars(", #"));
            let d = join_chars(&c, &dec_chars(offset));
            join_chars(&d, &str_chars("]"))
        } else if k == 2 {
            let a = join_chars(&reg_chars(r1), &str_chars(", ["));
            let b = join_chars(&a, &reg_chars(r2));
            join_chars(&b, &str_chars("]"))
        } else if k == 3 || k == 4 {
            let a = join_chars(&reg_chars(r1), &str_chars(", "));
            let b = join_chars(&a, &reg_chars(r2));
            let c = join_chars(&b, &str_chars(", "));
            join_chars(&c, &reg_chars(r3))
        } else if k == 5 {
            reg_chars(r1)
        } else if k == 6 {
            hex_off
        } else {
            Vec::new()
        }
    } else {
        if k == 0 {
            let a = join_chars(&str_chars("@"), &reg_chars(r1));
            let b = join_chars(&a, &str_chars("+, "));
            join_chars(&b, &reg_chars(r2))
        } else if k == 1 || k == 3 || k == 4 {
            let a = join_chars(&reg_chars(r1), &str_chars(", "));
            join_chars(&a, &reg_chars(r2))
        } else if k == 2 {
            join_chars(&str_chars("pr, @-"), &reg_chars(r1))
        } else if k == 5 {
            hex_off
        } else if k == 6 {
            join_chars(&str_chars("@"), &reg_chars(r1))
        } else {
            Vec::new()
        }
    }
}

/// The text of the pseudo instruction that hash byte `h` picks.
pub fn mock_instruction(arm7: bool, h: u8) -> (s: String)
    ensures
        s@ == mock_instruction_text(arm7, h),
{
    let k = h % 8;
    let ops = operands(arm7, k, ((h / 16) % 16) as u64, ((h / 4) % 16) as u64, (h % 16) as u64,
        h.wrapping_mul(3) as u64, h.wrapping_mul(7) as u64);
    let m = mnemonic(arm7, k);
    if ops.len() == 0 {
        m
    } else {
        let mut mc = str_chars(m.as_str());
        mc.push(' ');
        chars_to_string(join_chars(&mc, &ops))
    }
}

/// Two uppercase hexadecimal digits of each byte, separated by spaces.
pub open spec fn spaced_hex_bytes(b: Seq<u8>) -> Seq<char>
    decreases b.len(),
{
    if b.len() == 0 {
        Seq::empty()
    } else if b.len() == 1 {
        upper_hex_fixed(b[0] as nat, 2)
    } else {
        spaced_hex_bytes(b.drop_last()) + seq![' '] + upper_hex_fixed(b.last() as nat, 2)
    }
}

/// The bytes as two uppercase hexadecimal digits each, separated by spaces.
pub fn spaced_hex(b: &Vec<u8>) -> (s: String)
    ensures
        s@ == spaced_hex_bytes(b@),
{
    let mut c: Vec<char> = Vec::new();
    let mut i: usize = 0;
    while i < b.len()
        invariant
            i <= b.len(),
            c@ == spaced_hex_bytes(b@.take(i as int)),
        decreases b.len() - i,
    {
        assert(b@.take(i + 1).drop_last() =~= b@.take(i as int));
        if i > 0 {
            c.push(' ');
        }
        push_upper_hex_fixed(&mut c, b[i] as u64, 2);
        proof {
            if i == 0 {
                assert(c@ =~= spaced_hex_bytes(b@.take(1)));
            }
        }
        i = i + 1;
    }
    assert(b@.take(b.len() as int) =~= b@);
    chars_to_string(c)
}

/// The bytes per pseudo instruction of a target.
pub open spec fn mock_width(arm7: bool) -> u64 {
    if arm7 { 4 } else { 2 }
}

/// Line `i` of a pseudo listing from `address`.
pub open spec fn mock_line_addr(arm7: bool, address: u64, i: int) -> u64 {
    (address + i * mock_width(arm7)) as u64
}

/// `line` is the pseudo instruction of `target` at `addr`: its text drawn
/// from the hash of the address key, its bytes from the hashes of the byte
/// keys.
pub open spec fn mock_line_ok(line: DisassemblyLine, target: Seq<char>, arm7: bool, addr: u64) -> bool {
    &&& line.address == addr
    &&& line.disassembly@ == mock_instruction_text(arm7, sha256_first_byte(address_key(target, addr)))
    &&& line.bytes@ == spaced_hex_bytes(Seq::new(mock_width(arm7) as nat, |b: int| sha256_first_byte(byte_key(target, addr, b as u64))))
}

/// A pseudo listing of `count` instructions of `target` from `address`:
/// ARM7 instructions, four bytes each, for the target `arm7`, and SH4
/// instructions, two bytes each, for any other.
pub fn generate_disassembly(target: &str, address: u64, count: usize) -> (lines: Vec<DisassemblyLine>)
    requires
        address + count * mock_width(target@ == "arm7"@) <= u64::MAX,
    ensures
        lines.len() == count,
        forall|i: int| 0 <= i < count ==> mock_line_ok(#[trigger] lines@[i], target@,
            target@ == "arm7"@, mock_line_addr(target@ == "arm7"@, address, i)),
{
    let arm7 = chars_eq_str(&str_chars(target), "arm7");
    let width: u64 = if arm7 { 4 } else { 2 };
    let mut lines: Vec<DisassemblyLine> = Vec::new();
    let mut addr = address;
    let mut i: usize = 0;
    while i < count
        invariant
            i <= count,
            address + count * width <= u64::MAX,
            width == mock_width(arm7),
            arm7 == (target@ == "arm7"@),
            addr == mock_line_addr(arm7, address, i as int),
            lines.len() == i,
            forall|j: int| 0 <= j < i ==> mock_line_ok(#[trigger] lines@[j], target@, arm7, mock_line_addr(arm7, address, j)),
        decreases count - i,
    {
        let key = address_key_string(target, addr);
        let h = sha256_byte(chars_to_string(key).as_str());
        let mut bytes: Vec<u8> = Vec::new();
        let mut b: u64 = 0;
        while b < width
            invariant
                b <= width,
                width == mock_width(arm7),
                bytes@ == Seq::new(b as nat, |k: int| sha256_first_byte(byte_key(target@, addr, k as u64))),
            decreases width - b,
        {
            let mut bk = address_key_string(target, addr);
            bk.push(':');
            push_digits(&mut bk, b, 10);
            assert(bk@ =~= byte_key(target@, addr, b));
            let v = sha256_byte(chars_to_string(bk).as_str());
            bytes.push(v);
            assert(bytes@ =~= Seq::new((b + 1) as nat, |k: int| sha256_first_byte(byte_key(target@, addr, k as u64))));
            b = b + 1;
        }
        lines.push(DisassemblyLine { address: addr, bytes: spaced_hex(&bytes), disassembly: mock_instruction(arm7, h) });
        assert(i * width + width <= count * width) by (nonlinear_arith)
            requires i < count, width <= 4;
        addr = addr + width;
        i = i + 1;
    }
    lines
}

/// The pseudo memory bytes of `target` from `base`: each the hash of its
/// address key.
pub fn mock_memory(target: &str, base: u64, length: usize) -> (data: Vec<u8>)
    requires
        base + length <= u64::MAX,
    ensures
        data@ == Seq::new(length as nat, |i: int| sha256_first_byte(address_key(target@, (base + i) as u64))),
{
    let mut data: Vec<u8> = Vec::new();
    let mut i: usize = 0;
    while i < length
        invariant
            i <= length,
            base + length <= u64::MAX,
            data@ == Seq::new(i as nat, |k: int| sha256_first_byte(address_key(target@, (base + k) as u64))),
        decreases length - i,
    {
        let key = address_key_string(target, base + i as u64);
        data.push(sha256_byte(chars_to_string(key).as_str()));
        assert(data@ =~= Seq::new((i + 1) as nat, |k: int| sha256_first_byte(address_key(target@, (base + k) as u64))));
        i = i + 1;
    }
    data
}

} // verus!
