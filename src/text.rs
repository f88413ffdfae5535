use vstd::prelude::*;

use crate::tokenizer::Decimal;

verus! {

pub open spec fn digit_char(d: nat) -> char {
    ((d % 10) + '0' as nat) as char
}

/// The decimal digits of `n`, most significant first.
pub open spec fn digits_of(n: nat) -> Seq<char>
    decreases n,
{
    if n < 10 {
        seq![digit_char(n)]
    } else {
        digits_of(n / 10).push(digit_char(n % 10))
    }
}

/// An integer as expression text; a negative one as a subtraction from 0.
pub open spec fn int_text(n: int) -> Seq<char> {
    if n < 0 {
        "(0 - "@ + digits_of((-n) as nat) + ")"@
    } else {
        digits_of(n as nat)
    }
}

/// `10^k` as text: a one and `k` zeros.
pub open spec fn power_of_ten_text(k: nat) -> Seq<char>
    decreases k,
{
    if k == 0 {
        seq!['1']
    } else {
        power_of_ten_text((k - 1) as nat).push('0')
    }
}

/// A decimal as expression text: its mantissa, divided by its power of ten.
pub open spec fn decimal_text(d: Decimal) -> Seq<char> {
    if d.scale == 0 {
        int_text(d.mantissa as int)
    } else {
        "("@ + int_text(d.mantissa as int) + " / "@ + power_of_ten_text(d.scale as nat) + ")"@
    }
}

/// Appends `s` to `out`.
pub fn push_str(out: &mut Vec<char>, s: &str)
    ensures
        final(out)@ == old(out)@ + s@,
{
    let n = s.unicode_len();
    let mut k: usize = 0;
    while k < n
        invariant
            n == s@.len(),
            k <= n,
            out@ == old(out)@ + s@.subrange(0, k as int),
        decreases n - k,
    {
        out.push(s.get_char(k));
        k = k + 1;
        assert(out@ =~= old(out)@ + s@.subrange(0, k as int));
    }
    assert(s@.subrange(0, n as int) =~= s@);
}

fn push_digits(out: &mut Vec<char>, n: u128)
    ensures
        final(out)@ == old(out)@ + digits_of(n as nat),
    decreases n,
{
    if n >= 10 {
        push_digits(out, n / 10);
    }
    let c = char_of_digit(n % 10);
    out.push(c);
    assert(out@ =~= old(out)@ + digits_of(n as nat));
}

fn char_of_digit(d: u128) -> (c: char)
    requires
        d < 10,
    ensures
        c == digit_char(d as nat),
{
    if d == 0 {
        '0'
    } else if d == 1 {
        '1'
    } else if d == 2 {
        '2'
    } else if d == 3 {
        '3'
    } else if d == 4 {
        '4'
    } else if d == 5 {
        '5'
    } else if d == 6 {
        '6'
    } else if d == 7 {
        '7'
    } else if d == 8 {
        '8'
    } else {
        '9'
    }
}

/// Appends the text of integer `n`.
pub fn push_int(out: &mut Vec<char>, n: i128)
    ensures
        final(out)@ == old(out)@ + int_text(n as int),
{
    if n < 0 {
        let ghost before = out@;
        push_str(out, "(0 - ");
        let magnitude: u128 = if n == i128::MIN {
            (i128::MAX as u128) + 1
        } else {
            (-n) as u128
        };
        push_digits(out, magnitude);
        push_str(out, ")");
        assert(out@ =~= before + int_text(n as int));
    } else {
        push_digits(out, n as u128);
    }
}

/// Appends the text of decimal `d`.
pub fn push_decimal(out: &mut Vec<char>, d: Decimal)
    ensures
        final(out)@ == old(out)@ + decimal_text(d),
{
    let ghost before = out@;
    if d.scale == 0 {
        push_int(out, d.mantissa);
    } else {
        push_str(out, "(");
        push_int(out, d.mantissa);
        push_str(out, " / ");
        out.push('1');
        let mut k: u8 = 0;
        assert(seq!['1'] =~= power_of_ten_text(0));
        while k < d.scale
            invariant
                k <= d.scale,
                out@ == before + "("@ + int_text(d.mantissa as int) + " / "@ + power_of_ten_text(
                    k as nat,
                ),
            decreases d.scale - k,
        {
            out.push('0');
            k = k + 1;
            assert(out@ =~= before + "("@ + int_text(d.mantissa as int) + " / "@
                + power_of_ten_text(k as nat));
        }
        push_str(out, ")");
        assert(out@ =~= before + decimal_text(d));
    }
}

/// Relies on `String`'s `FromIterator<char>`: the string of exactly these characters.
#[verifier::external_body]
pub(crate) fn string_of(chars: &Vec<char>) -> (r: String)
    ensures
        r@ == chars@,
{
    chars.iter().collect()
}

} // verus!
