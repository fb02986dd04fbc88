//! Numbers as the debugger server writes and reads them: fixed-width
//! uppercase hexadecimal, plain decimal and hexadecimal, and hexadecimal
//! text read back.

use vstd::prelude::*;
use crate::dreamcast::{upper_hex_digit, unsigned_digits};
use crate::text::{digits, push_digits, chars_to_string, str_chars};

verus! {

/// The last `n` uppercase hexadecimal digits of `v`, zero-padded.
pub open spec fn upper_hex_fixed(v: nat, n: nat) -> Seq<char>
    decreases n,
{
    if n == 0 {
        Seq::empty()
    } else {
        upper_hex_fixed(v / 16, (n - 1) as nat) + seq![upper_hex_digit(v % 16)]
    }
}

fn upper_digit(d: u64) -> (c: char)
    requires
        d < 16,
    ensures
        c == upper_hex_digit(d as nat),
{
    if d < 10 { ((48 + d) as u8) as char } else { ((55 + d) as u8) as char }
}

/// Appends the last `n` uppercase hexadecimal digits of `v`.
pub fn push_upper_hex_fixed(out: &mut Vec<char>, v: u64, n: u64)
    ensures
        final(out)@ == old(out)@ + upper_hex_fixed(v as nat, n as nat),
    decreases n,
{
    if n > 0 {
        let ghost o = out@;
        push_upper_hex_fixed(out, v / 16, n - 1);
        out.push(upper_digit(v % 16));
        assert(out@ =~= o + upper_hex_fixed(v as nat, n as nat));
    } else {
        assert(out@ =~= old(out)@ + upper_hex_fixed(v as nat, n as nat));
    }
}

/// `0x` and eight uppercase hexadecimal digits, as `0x{:08X}` prints a
/// 32-bit value.
pub open spec fn hex_word_text(v: u32) -> Seq<char> {
    seq!['0', 'x'] + upper_hex_fixed(v as nat, 8)
}

/// A 32-bit value as `0x` and eight uppercase hexadecimal digits.
pub fn hex_word(v: u32) -> (s: String)
    ensures
        s@ == hex_word_text(v),
{
    let mut c: Vec<char> = Vec::new();
    c.push('0');
    c.push('x');
    push_upper_hex_fixed(&mut c, v as u64, 8);
    chars_to_string(c)
}

/// A value in decimal, as `{}` prints it.
pub fn decimal_string(v: u64) -> (s: String)
    ensures
        s@ == digits(v as nat, 10),
{
    let mut c: Vec<char> = Vec::new();
    push_digits(&mut c, v, 10);
    assert(c@ =~= digits(v as nat, 10));
    chars_to_string(c)
}

/// A string slice as an owned string.
pub fn owned(s: &str) -> (r: String)
    ensures
        r@ == s@,
{
    s.to_owned()
}

/// The characters of `a` followed by those of `b`.
pub fn join_chars(a: &Vec<char>, b: &Vec<char>) -> (r: Vec<char>)
    ensures
        r@ == a@ + b@,
{
    let mut r: Vec<char> = Vec::new();
    let mut i: usize = 0;
    while i < a.len()
        invariant
            i <= a.len(),
            r@ == a@.subrange(0, i as int),
        decreases a.len() - i,
    {
        r.push(a[i]);
        i = i + 1;
    }
    let mut j: usize = 0;
    while j < b.len()
        invariant
            j <= b.len(),
            r@ == a@ + b@.subrange(0, j as int),
        decreases b.len() - j,
    {
        r.push(b[j]);
        j = j + 1;
    }
    assert(a@.subrange(0, a.len() as int) =~= a@);
    assert(r@ =~= a@ + b@);
    r
}

/// The value of a hexadecimal digit (either case), if it is one.
pub open spec fn hex_digit_value(c: char) -> Option<nat> {
    if '0' <= c && c <= '9' {
        Some((c as nat - 48) as nat)
    } else if 'a' <= c && c <= 'f' {
        Some((c as nat - 87) as nat)
    } else if 'A' <= c && c <= 'F' {
        Some((c as nat - 55) as nat)
    } else {
        None
    }
}

/// Whether every character of `d` is a hexadecimal digit.
pub open spec fn all_hex_digits(d: Seq<char>) -> bool {
    forall|i: int| 0 <= i < d.len() ==> (#[trigger] hex_digit_value(d[i])) is Some
}

/// The value of a string of hexadecimal digits.
pub open spec fn hex_value(d: Seq<char>) -> nat
    decreases d.len(),
{
    if d.len() == 0 {
        0
    } else {
        hex_value(d.drop_last()) * 16 + hex_digit_value(d.last())->0
    }
}

/// What `from_str_radix(s, 16)` reads for an unsigned type whose values lie
/// below `limit`: an optional `+`, then one or more hexadecimal digits of a
/// value below the limit.
pub open spec fn parsed_hex(s: Seq<char>, limit: nat) -> Option<nat> {
    hex_number(unsigned_digits(s), limit)
}

/// One or more hexadecimal digits of a value below `limit`.
pub open spec fn hex_number(d: Seq<char>, limit: nat) -> Option<nat> {
    if d.len() > 0 && all_hex_digits(d) && hex_value(d) < limit {
        Some(hex_value(d))
    } else {
        None
    }
}

fn hex_digit_exec(c: char) -> (r: Option<u128>)
    ensures
        r == (match hex_digit_value(c) { Some(v) => Some(v as u128), None => None::<u128> }),
{
    if '0' <= c && c <= '9' {
        Some((c as u128) - 48)
    } else if 'a' <= c && c <= 'f' {
        Some((c as u128) - 87)
    } else if 'A' <= c && c <= 'F' {
        Some((c as u128) - 55)
    } else {
        None
    }
}

proof fn lemma_hex_value_grows(d: Seq<char>, c: char)
    requires
        hex_digit_value(c) is Some,
    ensures
        hex_value(d.push(c)) >= hex_value(d),
        hex_value(d.push(c)) == hex_value(d) * 16 + hex_digit_value(c)->0,
{
    assert(d.push(c).drop_last() =~= d);
}

/// Reads hexadecimal text as `from_str_radix(s, 16)` does for an unsigned
/// type whose values lie below `limit` (`None` on a malformed or too large
/// number).
pub fn parse_hex(s: &Vec<char>, limit: u128) -> (r: Option<u64>)
    requires
        0 < limit <= 0x1_0000_0000_0000_0000,
    ensures
        r == (match parsed_hex(s@, limit as nat) { Some(v) => Some(v as u64), None => None::<u64> }),
{
    let ghost d = unsigned_digits(s@);
    let mut i: usize = 0;
    if s.len() > 0 && s[0] == '+' {
        i = 1;
    }
    let start = i;
    assert(d =~= s@.subrange(start as int, s.len() as int));
    if i >= s.len() {
        return None;
    }
    let mut v: u128 = 0;
    while i < s.len()
        invariant
            start <= i <= s.len(),
            start < s.len(),
            0 < limit <= 0x1_0000_0000_0000_0000,
            d == s@.subrange(start as int, s.len() as int),
            d == unsigned_digits(s@),
            all_hex_digits(s@.subrange(start as int, i as int)),
            v as nat == hex_value(s@.subrange(start as int, i as int)),
            v < limit,
        decreases s.len() - i,
    {
        let ghost pre = s@.subrange(start as int, i as int);
        assert(s@.subrange(start as int, i + 1) =~= pre.push(s@[i as int]));
        match hex_digit_exec(s[i]) {
            None => {
                assert(!all_hex_digits(d)) by {
                    assert(d[i - start] == s@[i as int]);
                }
                return None;
            },
            Some(dv) => {
                proof {
                    lemma_hex_value_grows(pre, s@[i as int]);
                }
                if dv >= limit || v > (limit - 1 - dv) / 16 {
                    assert(v * 16 + dv >= limit) by (nonlinear_arith)
                        requires dv >= limit || v > (limit - 1 - dv) / 16, dv < 16, limit > 0;
                    proof {
                        if all_hex_digits(d) {
                            lemma_prefix_hex_le(d, (i + 1 - start) as int);
                            assert(d.subrange(0, i + 1 - start) =~= s@.subrange(start as int, i + 1));
                        }
                    }
                    return None;
                }
                assert(v * 16 + dv < limit) by (nonlinear_arith)
                    requires v <= (limit - 1 - dv) / 16, dv <= limit - 1;
                v = v * 16 + dv;
            },
        }
        i = i + 1;
    }
    assert(s@.subrange(start as int, i as int) =~= d);
    Some(v as u64)
}

proof fn lemma_prefix_hex_le(d: Seq<char>, k: int)
    requires
        0 <= k <= d.len(),
        all_hex_digits(d),
    ensures
        hex_value(d) >= hex_value(d.subrange(0, k)),
    decreases d.len() - k,
{
    if k < d.len() {
        lemma_prefix_hex_le(d, k + 1);
        let p = d.subrange(0, k + 1);
        assert(p.drop_last() =~= d.subrange(0, k));
        assert(hex_digit_value(p.last()) is Some) by {
            assert(p.last() == d[k]);
        }
    } else {
        assert(d.subrange(0, k) =~= d);
    }
}

} // verus!
