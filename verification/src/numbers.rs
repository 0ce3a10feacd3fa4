//! Decimal text: parsing raw minor-unit amount strings and rendering
//! integers, with the nine-digit scaling the output records use.

use vstd::prelude::*;
use crate::text::push_char;

verus! {

pub open spec fn is_digit(c: char) -> bool {
    '0' <= c && c <= '9'
}

pub open spec fn digit_val(c: char) -> nat {
    (c as int - 48) as nat
}

pub open spec fn all_digits(s: Seq<char>) -> bool {
    forall|i: int| 0 <= i < s.len() ==> is_digit(#[trigger] s[i])
}

/// The numeric value of a decimal digit string, most significant digit first.
pub open spec fn dec_val(s: Seq<char>) -> nat
    decreases s.len(),
{
    if s.len() == 0 {
        0
    } else {
        dec_val(s.drop_last()) * 10 + digit_val(s.last())
    }
}

/// The minor-unit amount a raw price string encodes: its numeric value when
/// it is a non-empty digit string whose value fits in a u64, and the
/// documented default 0 on anything else.
pub open spec fn minor_units_of(s: Seq<char>) -> u64 {
    if s.len() > 0 && all_digits(s) && dec_val(s) <= u64::MAX {
        dec_val(s) as u64
    } else {
        0
    }
}

proof fn lemma_dec_val_prefix(s: Seq<char>, i: int)
    requires
        0 <= i <= s.len(),
    ensures
        dec_val(s) >= dec_val(s.take(i)),
    decreases s.len() - i,
{
    if i < s.len() {
        lemma_dec_val_prefix(s, i + 1);
        assert(s.take(i + 1).drop_last() =~= s.take(i));
        assert(s.take(i + 1).last() == s[i]);
        assert(dec_val(s.take(i + 1)) == dec_val(s.take(i)) * 10 + digit_val(s[i]));
        assert(dec_val(s.take(i)) * 10 >= dec_val(s.take(i))) by (nonlinear_arith);
    } else {
        assert(s.take(i) =~= s);
    }
}

/// Parses a raw minor-unit amount string; total, defaulting to 0 on any
/// malformed input.
pub fn parse_minor_units(s: &str) -> (r: u64)
    ensures
        r == minor_units_of(s@),
{
    let n: usize = s.unicode_len();
    if n == 0 {
        return 0;
    }
    let mut i: usize = 0;
    while i < n
        invariant
            0 <= i <= n,
            n == s@.len(),
            all_digits(s@.take(i as int)),
        decreases n - i,
    {
        let c: char = s.get_char(i);
        let v: u32 = c as u32;
        if v < 48 || v > 57 {
            assert(!is_digit(s@[i as int]));
            return 0;
        }
        assert(s@.take(i + 1).drop_last() =~= s@.take(i as int));
        i += 1;
    }
    assert(s@.take(n as int) =~= s@);
    let mut acc: u64 = 0;
    let mut j: usize = 0;
    while j < n
        invariant
            0 <= j <= n,
            n == s@.len(),
            all_digits(s@),
            acc == dec_val(s@.take(j as int)),
        decreases n - j,
    {
        let c: char = s.get_char(j);
        let v: u32 = c as u32;
        assert(is_digit(s@[j as int]));
        assert(48 <= v <= 57);
        let d: u64 = (v - 48) as u64;
        if acc > (u64::MAX - d) / 10 {
            proof {
                let t = s@.take(j + 1);
                assert(t.drop_last() =~= s@.take(j as int));
                assert(t.last() == s@[j as int]);
                assert(dec_val(t) == acc * 10 + d);
                assert(acc * 10 + d > u64::MAX) by (nonlinear_arith)
                    requires
                        acc > (u64::MAX - d) / 10,
                        d <= 9,
                        acc >= 0,
                ;
                lemma_dec_val_prefix(s@, j + 1);
            }
            return 0;
        }
        proof {
            assert(acc * 10 + d <= u64::MAX) by (nonlinear_arith)
                requires
                    acc <= (u64::MAX - d) / 10,
                    d <= 9,
                    acc >= 0,
            ;
            let t = s@.take(j + 1);
            assert(t.drop_last() =~= s@.take(j as int));
            assert(t.last() == s@[j as int]);
        }
        acc = acc * 10 + d;
        j += 1;
    }
    assert(s@.take(n as int) =~= s@);
    acc
}

/// A digit value rendered as its character.
pub open spec fn digit_char(d: nat) -> char {
    if d == 0 { '0' }
    else if d == 1 { '1' }
    else if d == 2 { '2' }
    else if d == 3 { '3' }
    else if d == 4 { '4' }
    else if d == 5 { '5' }
    else if d == 6 { '6' }
    else if d == 7 { '7' }
    else if d == 8 { '8' }
    else { '9' }
}

fn digit_exec(d: u64) -> (c: char)
    requires
        d < 10,
    ensures
        c == digit_char(d as nat),
{
    if d == 0 { '0' }
    else if d == 1 { '1' }
    else if d == 2 { '2' }
    else if d == 3 { '3' }
    else if d == 4 { '4' }
    else if d == 5 { '5' }
    else if d == 6 { '6' }
    else if d == 7 { '7' }
    else if d == 8 { '8' }
    else { '9' }
}

/// The ordinary decimal rendering of a natural number, no leading zeros.
pub open spec fn dec_str(n: nat) -> Seq<char>
    decreases n,
{
    if n < 10 {
        seq![digit_char(n)]
    } else {
        dec_str(n / 10) + seq![digit_char(n % 10)]
    }
}

/// The decimal rendering of an integer, with a leading minus when negative.
pub open spec fn int_str(n: int) -> Seq<char> {
    if n < 0 {
        seq!['-'] + dec_str((-n) as nat)
    } else {
        dec_str(n as nat)
    }
}

/// Renders an unsigned value in decimal.
pub fn u64_to_dec(n: u64) -> (r: String)
    ensures
        r@ == dec_str(n as nat),
    decreases n,
{
    if n < 10 {
        let mut s = String::new();
        push_char(&mut s, digit_exec(n));
        s
    } else {
        proof {
            assert(n / 10 < n) by (nonlinear_arith)
                requires
                    n >= 10,
            ;
        }
        let mut s = u64_to_dec(n / 10);
        push_char(&mut s, digit_exec(n % 10));
        s
    }
}

/// Renders a signed value in decimal.
pub fn i64_to_dec(n: i64) -> (r: String)
    ensures
        r@ == int_str(n as int),
{
    if n >= 0 {
        u64_to_dec(n as u64)
    } else {
        let wide: i128 = n as i128;
        let mag: u64 = (-wide) as u64;
        assert(mag == -(n as int));
        let mut s = String::new();
        push_char(&mut s, '-');
        let digits = u64_to_dec(mag);
        s.append(digits.as_str());
        s
    }
}

/// A value rendered in decimal, zero-padded on the left to a fixed width.
pub open spec fn fixed_digits(n: nat, w: nat) -> Seq<char>
    decreases w,
{
    if w == 0 {
        Seq::empty()
    } else {
        fixed_digits(n / 10, (w - 1) as nat) + seq![digit_char(n % 10)]
    }
}

fn fixed_dec(n: u64, w: u64) -> (r: String)
    ensures
        r@ == fixed_digits(n as nat, w as nat),
    decreases w,
{
    if w == 0 {
        String::new()
    } else {
        let mut s = fixed_dec(n / 10, w - 1);
        push_char(&mut s, digit_exec(n % 10));
        s
    }
}

/// Amounts arrive as integer minor units and are reported in major units,
/// one billion minor units each: the whole part, a point, and exactly nine
/// fractional digits.
pub open spec fn scaled_str(minor: u64) -> Seq<char> {
    dec_str((minor as nat) / 1000000000) + seq!['.'] + fixed_digits(
        (minor as nat) % 1000000000,
        9,
    )
}

/// Renders a minor-unit amount as a major-unit decimal.
pub fn scaled_text(minor: u64) -> (r: String)
    ensures
        r@ == scaled_str(minor),
{
    let mut s = u64_to_dec(minor / 1000000000);
    push_char(&mut s, '.');
    let frac = fixed_dec(minor % 1000000000, 9);
    s.append(frac.as_str());
    s
}

} // verus!
