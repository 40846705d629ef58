//! Decimal integers written in ASCII, read the way Rust's `str::parse`
//! reads them.

use vstd::prelude::*;

verus! {

pub open spec fn is_ascii_digit(b: u8) -> bool {
    48 <= b <= 57
}

pub open spec fn all_ascii_digits(s: Seq<u8>) -> bool {
    forall|i: int| 0 <= i < s.len() ==> is_ascii_digit(#[trigger] s[i])
}

/// The value of a run of ASCII digits, most significant first.
pub open spec fn digits_value(s: Seq<u8>) -> nat
    decreases s.len(),
{
    if s.len() == 0 {
        0
    } else {
        digits_value(s.drop_last()) * 10 + (s.last() - 48) as nat
    }
}

/// `10` to the power `k`.
pub open spec fn pow10(k: nat) -> nat
    decreases k,
{
    if k == 0 {
        1
    } else {
        10 * pow10((k - 1) as nat)
    }
}

/// What `str::parse` gives for a decimal integer text short enough that
/// its value fits the integer type: an optional `+` (or, for a signed
/// type, `-`) followed by one or more ASCII digits; anything else is an
/// error (an empty text, a lone sign, any other byte).
pub open spec fn parse_decimal(s: Seq<u8>, signed: bool) -> Option<int> {
    if s.len() == 0 {
        None
    } else if (s[0] == 43u8 || s[0] == 45u8) && s.len() == 1 {
        None
    } else if s[0] == 43u8 {
        if all_ascii_digits(s.drop_first()) {
            Some(digits_value(s.drop_first()) as int)
        } else {
            None
        }
    } else if s[0] == 45u8 && signed {
        if all_ascii_digits(s.drop_first()) {
            Some(-(digits_value(s.drop_first()) as int))
        } else {
            None
        }
    } else if all_ascii_digits(s) {
        Some(digits_value(s) as int)
    } else {
        None
    }
}

proof fn lemma_pow10_small(k: nat)
    requires
        k <= 4,
    ensures
        pow10(k) <= 10000,
{
    reveal_with_fuel(pow10, 5);
}

/// Reads the digits `bytes[start..end]`; `None` where one is not a digit.
fn parse_digits(bytes: &[u8], start: usize, end: usize) -> (r: Option<u32>)
    requires
        start <= end <= bytes@.len(),
        end - start <= 4,
    ensures
        r is Some <==> all_ascii_digits(bytes@.subrange(start as int, end as int)),
        r matches Some(v) ==> v as nat == digits_value(bytes@.subrange(start as int, end as int)),
        r matches Some(v) ==> v < pow10((end - start) as nat),
{
    let mut value: u32 = 0;
    let mut i: usize = start;
    while i < end
        invariant
            start <= i <= end <= bytes@.len(),
            end - start <= 4,
            all_ascii_digits(bytes@.subrange(start as int, i as int)),
            value as nat == digits_value(bytes@.subrange(start as int, i as int)),
            value < pow10((i - start) as nat),
        decreases end - i,
    {
        let b = bytes[i];
        if b < 48 || b > 57 {
            assert(!is_ascii_digit(bytes@.subrange(start as int, end as int)[i - start]));
            return None;
        }
        proof {
            lemma_pow10_small((i - start) as nat);
            let s = bytes@.subrange(start as int, i as int + 1);
            assert(s.drop_last() =~= bytes@.subrange(start as int, i as int));
            assert(s.last() == b);
        }
        value = value * 10 + (b - 48) as u32;
        i = i + 1;
    }
    Some(value)
}

/// `str::parse` of the text `bytes[start..end]` (at most four bytes) as an
/// `i32` when `signed`, or as a `u32` otherwise.
pub fn parse_small_decimal(bytes: &[u8], start: usize, end: usize, signed: bool) -> (r: Option<i32>)
    requires
        start <= end <= bytes@.len(),
        end - start <= 4,
    ensures
        r is Some <==> parse_decimal(bytes@.subrange(start as int, end as int), signed) is Some,
        r matches Some(v) ==> v as int == parse_decimal(
            bytes@.subrange(start as int, end as int),
            signed,
        ).unwrap(),
{
    let ghost s = bytes@.subrange(start as int, end as int);
    if start == end {
        return None;
    }
    let first = bytes[start];
    assert(s[0] == first);
    if (first == 43 || first == 45) && end - start == 1 {
        return None;
    }
    if first == 43 || (first == 45 && signed) {
        assert(s.drop_first() =~= bytes@.subrange(start as int + 1, end as int));
        match parse_digits(bytes, start + 1, end) {
            Some(v) => {
                proof {
                    lemma_pow10_small((end - start - 1) as nat);
                }
                if first == 43 {
                    Some(v as i32)
                } else {
                    Some(-(v as i32))
                }
            },
            None => None,
        }
    } else {
        match parse_digits(bytes, start, end) {
            Some(v) => {
                proof {
                    lemma_pow10_small((end - start) as nat);
                }
                Some(v as i32)
            },
            None => None,
        }
    }
}

} // verus!
