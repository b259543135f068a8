//! Building text: digits of numbers and comparisons of strings.

use vstd::prelude::*;

verus! {

/// Relies on `String::push`: the character is appended at the end.
#[verifier::external_body]
pub(crate) fn push_char(s: &mut String, c: char)
    ensures
        final(s)@ == old(s)@.push(c),
{
    s.push(c)
}

/// The lower-case digit for `d` in base sixteen (also the decimal digit for `d < 10`).
pub open spec fn digit_char(d: nat) -> char {
    if d == 0 { '0' }
    else if d == 1 { '1' }
    else if d == 2 { '2' }
    else if d == 3 { '3' }
    else if d == 4 { '4' }
    else if d == 5 { '5' }
    else if d == 6 { '6' }
    else if d == 7 { '7' }
    else if d == 8 { '8' }
    else if d == 9 { '9' }
    else if d == 10 { 'a' }
    else if d == 11 { 'b' }
    else if d == 12 { 'c' }
    else if d == 13 { 'd' }
    else if d == 14 { 'e' }
    else { 'f' }
}

/// `v` written in base `b` (2..=16) without leading zeros; zero is "0".
pub open spec fn digits(v: nat, b: nat) -> Seq<char>
    decreases v,
    via digits_decreases
{
    if b < 2 || v < b {
        seq![digit_char(v % 16)]
    } else {
        digits(v / b, b).push(digit_char(v % b))
    }
}

#[via_fn]
proof fn digits_decreases(v: nat, b: nat) {
    if !(b < 2 || v < b) {
        assert(v / b < v) by (nonlinear_arith)
            requires
                b >= 2,
                v >= b,
        ;
    }
}

/// Lower-case hexadecimal text of `v`.
pub open spec fn hex(v: nat) -> Seq<char> {
    digits(v, 16)
}

/// Decimal text of `v`.
pub open spec fn dec(v: nat) -> Seq<char> {
    digits(v, 10)
}

fn digit_of(d: u64) -> (c: char)
    requires
        d < 16,
    ensures
        c == digit_char(d as nat),
{
    if d == 0 { '0' }
    else if d == 1 { '1' }
    else if d == 2 { '2' }
    else if d == 3 { '3' }
    else if d == 4 { '4' }
    else if d == 5 { '5' }
    else if d == 6 { '6' }
    else if d == 7 { '7' }
    else if d == 8 { '8' }
    else if d == 9 { '9' }
    else if d == 10 { 'a' }
    else if d == 11 { 'b' }
    else if d == 12 { 'c' }
    else if d == 13 { 'd' }
    else if d == 14 { 'e' }
    else { 'f' }
}

/// Appends `v` written in base `b`.
pub fn push_digits(out: &mut String, v: u64, b: u64)
    requires
        2 <= b <= 16,
    ensures
        final(out)@ == old(out)@ + digits(v as nat, b as nat),
    decreases v,
{
    if v < b {
        push_char(out, digit_of(v));
        assert(v as nat % 16 == v as nat);
    } else {
        assert(v / b < v) by (nonlinear_arith)
            requires
                b >= 2,
                v >= b,
        ;
        push_digits(out, v / b, b);
        push_char(out, digit_of(v % b));
    }
    assert(final(out)@ =~= old(out)@ + digits(v as nat, b as nat));
}

/// Appends the lower-case hexadecimal text of `v`.
pub fn push_hex(out: &mut String, v: u64)
    ensures
        final(out)@ == old(out)@ + hex(v as nat),
{
    push_digits(out, v, 16);
}

/// Appends the decimal text of `v`.
pub fn push_dec(out: &mut String, v: u64)
    ensures
        final(out)@ == old(out)@ + dec(v as nat),
{
    push_digits(out, v, 10);
}

/// Whether two strings hold the same characters.
pub fn same_text(a: &str, b: &str) -> (r: bool)
    ensures
        r == (a@ == b@),
{
    let n = a.unicode_len();
    if n != b.unicode_len() {
        return false;
    }
    let mut i: usize = 0;
    while i < n
        invariant
            n == a@.len(),
            n == b@.len(),
            i <= n,
            a@.subrange(0, i as int) == b@.subrange(0, i as int),
        decreases n - i,
    {
        if a.get_char(i) != b.get_char(i) {
            assert(a@[i as int] != b@[i as int]);
            return false;
        }
        assert(a@.subrange(0, i + 1) =~= a@.subrange(0, i as int).push(a@[i as int]));
        assert(b@.subrange(0, i + 1) =~= b@.subrange(0, i as int).push(b@[i as int]));
        i = i + 1;
    }
    assert(a@ =~= a@.subrange(0, n as int));
    assert(b@ =~= b@.subrange(0, n as int));
    true
}

} // verus!
