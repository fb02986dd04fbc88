//! Text as sequences of characters: replacing a pattern everywhere, and
//! decimal and hexadecimal numbers.

use vstd::prelude::*;

verus! {

/// `s` with every occurrence of the non-empty pattern `p` replaced by `r`,
/// scanning from the left and never overlapping.
pub open spec fn replace_all(s: Seq<char>, p: Seq<char>, r: Seq<char>) -> Seq<char>
    decreases s.len(),
{
    if s.len() == 0 {
        Seq::empty()
    } else if 0 < p.len() <= s.len() && s.subrange(0, p.len() as int) == p {
        r + replace_all(s.subrange(p.len() as int, s.len() as int), p, r)
    } else {
        seq![s[0]] + replace_all(s.subrange(1, s.len() as int), p, r)
    }
}

/// The characters of a string slice.
pub fn str_chars(s: &str) -> (v: Vec<char>)
    ensures
        v@ == s@,
{
    let n = s.unicode_len();
    let mut v: Vec<char> = Vec::new();
    let mut i: usize = 0;
    while i < n
        invariant
            i <= n,
            n == s@.len(),
            v@ == s@.subrange(0, i as int),
        decreases n - i,
    {
        v.push(s.get_char(i));
        i = i + 1;
    }
    assert(v@ =~= s@);
    v
}

/// Whether `p` occurs in `s` at position `i`.
fn matches_at(s: &Vec<char>, i: usize, p: &Vec<char>) -> (b: bool)
    requires
        i <= s.len(),
    ensures
        b == (i + p.len() <= s.len() && s@.subrange(i as int, i + p.len()) == p@),
{
    if p.len() > s.len() - i {
        return false;
    }
    let mut k: usize = 0;
    while k < p.len()
        invariant
            k <= p.len(),
            i + p.len() <= s.len(),
            forall|j: int| 0 <= j < k ==> s@[i + j] == p@[j],
        decreases p.len() - k,
    {
        if s[i + k] != p[k] {
            assert(s@.subrange(i as int, i + p.len())[k as int] != p@[k as int]);
            return false;
        }
        k = k + 1;
    }
    assert(s@.subrange(i as int, i + p.len()) =~= p@);
    true
}

/// Replaces every occurrence of the non-empty pattern `p` in `s` by `r`.
pub fn replace(s: &Vec<char>, p: &Vec<char>, r: &Vec<char>) -> (out: Vec<char>)
    ensures
        out@ == replace_all(s@, p@, r@),
{
    let mut out: Vec<char> = Vec::new();
    let mut i: usize = 0;
    assert(s@.subrange(0, s.len() as int) =~= s@);
    assert(out@ + replace_all(s@, p@, r@) =~= replace_all(s@, p@, r@));
    while i < s.len()
        invariant
            i <= s.len(),
            out@ + replace_all(s@.subrange(i as int, s.len() as int), p@, r@) == replace_all(s@, p@, r@),
        decreases s.len() - i,
    {
        let ghost rest = s@.subrange(i as int, s.len() as int);
        if p.len() > 0 && matches_at(s, i, p) {
            assert(rest.subrange(0, p.len() as int) =~= p@);
            assert(rest.subrange(p.len() as int, rest.len() as int) =~= s@.subrange(i + p.len(), s.len() as int));
            let mut k: usize = 0;
            let ghost out0 = out@;
            while k < r.len()
                invariant
                    k <= r.len(),
                    out@ == out0 + r@.subrange(0, k as int),
                decreases r.len() - k,
            {
                out.push(r[k]);
                k = k + 1;
            }
            assert(out@ =~= out0 + r@);
            assert(out0 + replace_all(rest, p@, r@) == replace_all(s@, p@, r@));
            assert(replace_all(rest, p@, r@) == r@ + replace_all(s@.subrange(i + p.len(), s.len() as int), p@, r@));
            assert(out0 + (r@ + replace_all(s@.subrange(i + p.len(), s.len() as int), p@, r@))
                =~= out@ + replace_all(s@.subrange(i + p.len(), s.len() as int), p@, r@));
            i = i + p.len();
        } else {
            assert(rest.subrange(1, rest.len() as int) =~= s@.subrange(i + 1, s.len() as int));
            proof {
                if p.len() > 0 && p.len() <= rest.len() {
                    assert(rest.subrange(0, p.len() as int) =~= s@.subrange(i as int, i + p.len()));
                }
            }
            let ghost out0 = out@;
            out.push(s[i]);
            assert(replace_all(rest, p@, r@) == seq![s@[i as int]] + replace_all(s@.subrange(i + 1, s.len() as int), p@, r@));
            assert(out0 + (seq![s@[i as int]] + replace_all(s@.subrange(i + 1, s.len() as int), p@, r@))
                =~= out@ + replace_all(s@.subrange(i + 1, s.len() as int), p@, r@));
            i = i + 1;
        }
    }
    assert(s@.subrange(i as int, s.len() as int) =~= Seq::<char>::empty());
    assert(out@ + Seq::<char>::empty() =~= out@);
    out
}

/// Whether every character of `s` is ASCII.
pub open spec fn all_ascii(s: Seq<char>) -> bool {
    forall|i: int| 0 <= i < s.len() ==> (#[trigger] s[i] as u32) < 128
}

/// The ASCII lowercase of `c`: `A`..`Z` become `a`..`z`, the rest stay.
pub open spec fn ascii_lower(c: char) -> char {
    if 'A' <= c && c <= 'Z' { ((c as u32) + 32) as char } else { c }
}

/// The ASCII uppercase of `c`: `a`..`z` become `A`..`Z`, the rest stay.
pub open spec fn ascii_upper(c: char) -> char {
    if 'a' <= c && c <= 'z' { ((c as u32) - 32) as char } else { c }
}

/// The character of a digit below 16, with lowercase letters.
pub open spec fn digit_char(d: nat) -> char {
    if d == 0 { '0' } else if d == 1 { '1' } else if d == 2 { '2' } else if d == 3 { '3' }
    else if d == 4 { '4' } else if d == 5 { '5' } else if d == 6 { '6' } else if d == 7 { '7' }
    else if d == 8 { '8' } else if d == 9 { '9' } else if d == 10 { 'a' } else if d == 11 { 'b' }
    else if d == 12 { 'c' } else if d == 13 { 'd' } else if d == 14 { 'e' } else { 'f' }
}

/// The digits of `v` in base `b` (10 or 16), most significant first, with
/// no leading zeros ("0" for zero).
pub open spec fn digits(v: nat, b: nat) -> Seq<char>
    decreases v,
{
    if b < 2 || v < b {
        seq![digit_char(v)]
    } else {
        proof {
            assert(v / b < v) by (nonlinear_arith)
                requires
                    b >= 2,
                    v >= b;
        }
        digits(v / b, b) + seq![digit_char(v % b)]
    }
}

/// A signed decimal number, as `{}` prints it.
pub open spec fn signed_decimal(v: int) -> Seq<char> {
    if v < 0 { seq!['-'] + digits((-v) as nat, 10) } else { digits(v as nat, 10) }
}

/// A number in hexadecimal with the `0x` prefix, as `{:#x}` prints it.
pub open spec fn hex_prefixed(v: nat) -> Seq<char> {
    seq!['0', 'x'] + digits(v, 16)
}

fn digit(d: u64) -> (c: char)
    requires
        d < 16,
    ensures
        c == digit_char(d as nat),
{
    if d == 0 { '0' } else if d == 1 { '1' } else if d == 2 { '2' } else if d == 3 { '3' }
    else if d == 4 { '4' } else if d == 5 { '5' } else if d == 6 { '6' } else if d == 7 { '7' }
    else if d == 8 { '8' } else if d == 9 { '9' } else if d == 10 { 'a' } else if d == 11 { 'b' }
    else if d == 12 { 'c' } else if d == 13 { 'd' } else if d == 14 { 'e' } else { 'f' }
}

/// Appends the base-`b` digits of `v`.
pub fn push_digits(out: &mut Vec<char>, v: u64, b: u64)
    requires
        b == 10 || b == 16,
    ensures
        final(out)@ == old(out)@ + digits(v as nat, b as nat),
    decreases v,
{
    if v < b {
        out.push(digit(v));
        assert(digits(v as nat, b as nat) == seq![digit_char(v as nat)]);
    } else {
        let ghost o = out@;
        push_digits(out, v / b, b);
        out.push(digit(v % b));
        assert(digits(v as nat, b as nat) == digits((v / b) as nat, b as nat) + seq![digit_char((v % b) as nat)]);
        assert(out@ =~= o + digits(v as nat, b as nat));
    }
}

/// A signed decimal number.
pub fn signed_decimal_chars(v: i32) -> (out: Vec<char>)
    ensures
        out@ == signed_decimal(v as int),
{
    let mut out: Vec<char> = Vec::new();
    if v < 0 {
        out.push('-');
        let a = (-(v as i64)) as u32;
        push_digits(&mut out, a as u64, 10);
    } else {
        push_digits(&mut out, v as u64, 10);
    }
    out
}

/// A hexadecimal number with the `0x` prefix.
pub fn hex_prefixed_chars(v: u32) -> (out: Vec<char>)
    ensures
        out@ == hex_prefixed(v as nat),
{
    let mut out: Vec<char> = Vec::new();
    out.push('0');
    out.push('x');
    push_digits(&mut out, v as u64, 16);
    out
}

/// `prefix` followed by the characters of `rest`.
pub fn concat_chars(prefix: &str, rest: &Vec<char>) -> (out: Vec<char>)
    ensures
        out@ == prefix@ + rest@,
{
    let mut out = str_chars(prefix);
    let ghost p = out@;
    let mut k: usize = 0;
    while k < rest.len()
        invariant
            k <= rest.len(),
            out@ == p + rest@.subrange(0, k as int),
        decreases rest.len() - k,
    {
        out.push(rest[k]);
        k = k + 1;
    }
    assert(out@ =~= p + rest@);
    out
}

/// The string made of the characters `v`, by std's `collect` of a `char`
/// iterator into a `String`; the contract claims the string holds exactly
/// those characters, in order.
#[verifier::external_body]
pub(crate) fn chars_to_string(v: Vec<char>) -> (s: String)
    ensures
        s@ == v@,
{
    v.into_iter().collect()
}

} // verus!
