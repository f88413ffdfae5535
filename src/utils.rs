use vstd::prelude::*;

use crate::error::TokenError;

verus! {

/// The number that a string of decimal digits denotes.
pub open spec fn digits_value(d: Seq<char>) -> nat
    decreases d.len(),
{
    if d.len() == 0 {
        0
    } else {
        digits_value(d.drop_last()) * 10 + (d.last() as nat - '0' as nat) as nat
    }
}

pub open spec fn all_digits(d: Seq<char>) -> bool {
    forall|k: int| 0 <= k < d.len() ==> '0' <= #[trigger] d[k] && d[k] <= '9'
}

/// The digits of an amount: the text after an optional leading `+`.
pub open spec fn amount_digits(s: Seq<char>) -> Seq<char> {
    if s.len() > 0 && s[0] == '+' {
        s.subrange(1, s.len() as int)
    } else {
        s
    }
}

/// The amount a text denotes, as Rust reads a `u64`: an optional `+`, then one or
/// more decimal digits, with a value that fits.
pub open spec fn amount_of(s: Seq<char>) -> Option<u64> {
    let d = amount_digits(s);
    if d.len() > 0 && all_digits(d) && digits_value(d) <= u64::MAX {
        Some(digits_value(d) as u64)
    } else {
        None
    }
}

proof fn lemma_digits_prefix(d: Seq<char>, k: int)
    requires
        0 <= k <= d.len(),
        all_digits(d),
    ensures
        digits_value(d.take(k)) <= digits_value(d),
    decreases d.len(),
{
    if k < d.len() {
        assert(all_digits(d.drop_last()));
        assert(d.drop_last().take(k) =~= d.take(k));
        lemma_digits_prefix(d.drop_last(), k);
    } else {
        assert(d.take(k) =~= d);
    }
}

/// Reads an amount from text.
pub fn parse_amount(amount_str: &str) -> (r: Result<u64, TokenError>)
    ensures
        r == match amount_of(amount_str@) {
            Some(v) => Ok::<u64, TokenError>(v),
            None => Err(TokenError::InvalidAmount),
        },
{
    let n = amount_str.unicode_len();
    let ghost s = amount_str@;
    let start: usize = if n > 0 && amount_str.get_char(0) == '+' {
        1
    } else {
        0
    };
    let ghost d = amount_digits(s);
    assert(d =~= s.subrange(start as int, n as int));
    if start == n {
        return Err(TokenError::InvalidAmount);
    }
    let mut k: usize = start;
    while k < n
        invariant
            s == amount_str@,
            n == s.len(),
            start <= k <= n,
            d == s.subrange(start as int, n as int),
            d == amount_digits(s),
            forall|m: int| start <= m < k ==> '0' <= #[trigger] s[m] && s[m] <= '9',
        decreases n - k,
    {
        let c = amount_str.get_char(k);
        if !('0' <= c && c <= '9') {
            assert(d[k - start] == c);
            assert(!all_digits(d));
            return Err(TokenError::InvalidAmount);
        }
        k = k + 1;
    }
    assert(all_digits(d)) by {
        assert forall|m: int| 0 <= m < d.len() implies '0' <= #[trigger] d[m] && d[m] <= '9' by {
            assert(d[m] == s[m + start]);
        }
    }
    let mut value: u64 = 0;
    let mut k: usize = start;
    assert(d.take(0) =~= seq![]);
    while k < n
        invariant
            s == amount_str@,
            n == s.len(),
            start <= k <= n,
            d == s.subrange(start as int, n as int),
            d == amount_digits(s),
            all_digits(d),
            value == digits_value(d.take(k - start)),
        decreases n - k,
    {
        let c = amount_str.get_char(k);
        let ghost i = k - start;
        assert(d.take(i + 1).drop_last() =~= d.take(i));
        assert(d.take(i + 1).last() == c);
        let digit = (c as u32 - '0' as u32) as u64;
        proof {
            lemma_digits_prefix(d, i + 1);
            assert(digits_value(d.take(i + 1)) == digits_value(d.take(i)) * 10 + (c as nat
                - '0' as nat));
        }
        let next = match value.checked_mul(10) {
            Some(v) => match v.checked_add(digit) {
                Some(w) => w,
                None => {
                    return Err(TokenError::InvalidAmount);
                },
            },
            None => {
                assert(digits_value(d.take(i + 1)) >= value * 10);
                return Err(TokenError::InvalidAmount);
            },
        };
        value = next;
        k = k + 1;
    }
    assert(d.take(n - start) =~= d);
    Ok(value)
}

} // verus!
