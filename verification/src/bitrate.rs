//! Rendering of a bits-per-second figure in a human-readable scaled form.
//!
//! Rates above one million render in megabytes-per-second style with two
//! decimals, rates above one thousand in kilobytes-per-second style with two
//! decimals, and everything else (zero and negative figures included) as the
//! bare number. Both thresholds are strict, so exactly 1,000,000 renders as
//! `KB/s` and exactly 1,000 as `B/s`. The two-decimal value is the quotient
//! rounded to the nearest hundredth, halves rounding up.

use vstd::prelude::*;

use crate::digits::{dec_chars, signed_dec_chars, two_digit_chars, i64_to_dec, u64_to_dec, u64_two_digits};

verus! {

/// `n / d` rounded to the nearest whole number, halves rounding up.
pub open spec fn rounded_div(n: int, d: int) -> int
    recommends
        n >= 0,
        d > 0,
{
    if n % d >= d / 2 {
        n / d + 1
    } else {
        n / d
    }
}

/// A nonnegative count of hundredths rendered as a fixed two-decimal
/// number: 1234 hundredths render as `12.34`, 5 hundredths as `0.05`.
pub open spec fn two_decimal_chars(hundredths: int) -> Seq<char>
    recommends
        hundredths >= 0,
{
    dec_chars((hundredths / 100) as nat) + seq!['.'] + two_digit_chars((hundredths % 100) as nat)
}

/// The full rendering of a bits-per-second figure: megabyte style above
/// 1,000,000, kilobyte style above 1,000, the bare number otherwise, both
/// thresholds strict.
pub open spec fn bit_rate_chars(r: int) -> Seq<char> {
    if r > 1_000_000 {
        two_decimal_chars(rounded_div(r, 10_000)) + " MB/s"@
    } else if r > 1_000 {
        two_decimal_chars(rounded_div(r, 10)) + " KB/s"@
    } else {
        signed_dec_chars(r) + " B/s"@
    }
}

fn two_decimals_of(hundredths: u64) -> (s: String)
    ensures
        s@ == two_decimal_chars(hundredths as int),
{
    let mut s = u64_to_dec(hundredths / 100);
    s.append(".");
    s.append(u64_two_digits(hundredths % 100).as_str());
    proof {
        reveal_strlit(".");
        assert(s@ =~= two_decimal_chars(hundredths as int));
    }
    s
}

/// Renders a bits-per-second figure in the scaled human-readable form.
pub fn format_bit_rate(bit_rate: i64) -> (s: String)
    ensures
        s@ == bit_rate_chars(bit_rate as int),
{
    if bit_rate > 1_000_000 {
        let b: u64 = bit_rate as u64;
        let q: u64 = b / 10_000;
        let h: u64 = if b % 10_000 >= 5_000 {
            q + 1
        } else {
            q
        };
        let mut s = two_decimals_of(h);
        s.append(" MB/s");
        proof {
            assert(s@ =~= bit_rate_chars(bit_rate as int));
        }
        s
    } else if bit_rate > 1_000 {
        let b: u64 = bit_rate as u64;
        let q: u64 = b / 10;
        let h: u64 = if b % 10 >= 5 {
            q + 1
        } else {
            q
        };
        let mut s = two_decimals_of(h);
        s.append(" KB/s");
        proof {
            assert(s@ =~= bit_rate_chars(bit_rate as int));
        }
        s
    } else {
        let mut s = i64_to_dec(bit_rate);
        s.append(" B/s");
        proof {
            assert(s@ =~= bit_rate_chars(bit_rate as int));
        }
        s
    }
}

/// Every nonnegative rate renders in exactly one of the three scaled forms,
/// selected by the strict thresholds: above 1,000,000 the megabyte form,
/// above 1,000 and up to 1,000,000 the kilobyte form, and up to 1,000 the
/// bare number.
pub proof fn lemma_bit_rate_forms(r: int)
    requires
        0 <= r,
    ensures
        r > 1_000_000 ==> bit_rate_chars(r) == two_decimal_chars(rounded_div(r, 10_000))
            + " MB/s"@,
        1_000 < r <= 1_000_000 ==> bit_rate_chars(r) == two_decimal_chars(rounded_div(r, 10))
            + " KB/s"@,
        r <= 1_000 ==> bit_rate_chars(r) == dec_chars(r as nat) + " B/s"@,
{
}

} // verus!
