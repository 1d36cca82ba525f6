//! Rendering of unsigned and signed integers as decimal strings.
//!
//! These are the building blocks shared by the duration and bit-rate
//! formatters: plain decimal digits, and the two-digit zero-padded form
//! that `{:02}` produces.

use vstd::prelude::*;

verus! {

/// The character for a single decimal digit (`0` through `9`).
pub open spec fn digit_char(d: nat) -> char
    recommends
        d < 10,
{
    if d == 0 {
        '0'
    } else if d == 1 {
        '1'
    } else if d == 2 {
        '2'
    } else if d == 3 {
        '3'
    } else if d == 4 {
        '4'
    } else if d == 5 {
        '5'
    } else if d == 6 {
        '6'
    } else if d == 7 {
        '7'
    } else if d == 8 {
        '8'
    } else {
        '9'
    }
}

/// The decimal rendering of `n`: most significant digit first, no leading
/// zeros, as `{}` renders an unsigned integer.
pub open spec fn dec_chars(n: nat) -> Seq<char>
    decreases n,
{
    if n < 10 {
        seq![digit_char(n)]
    } else {
        dec_chars(n / 10).push(digit_char(n % 10))
    }
}

/// The decimal rendering of `n` padded with a leading zero to at least two
/// digits, as `{:02}` renders an unsigned integer.
pub open spec fn two_digit_chars(n: nat) -> Seq<char> {
    if n < 10 {
        seq!['0', digit_char(n)]
    } else {
        dec_chars(n)
    }
}

/// The decimal rendering of a possibly negative integer, as `{}` renders it:
/// a leading `-` before the magnitude when `n` is negative.
pub open spec fn signed_dec_chars(n: int) -> Seq<char> {
    if n < 0 {
        seq!['-'] + dec_chars((-n) as nat)
    } else {
        dec_chars(n as nat)
    }
}

fn digit_str(d: u64) -> (s: &'static str)
    requires
        d < 10,
    ensures
        s@ == seq![digit_char(d as nat)],
{
    let s: &'static str = if d == 0 {
        "0"
    } else if d == 1 {
        "1"
    } else if d == 2 {
        "2"
    } else if d == 3 {
        "3"
    } else if d == 4 {
        "4"
    } else if d == 5 {
        "5"
    } else if d == 6 {
        "6"
    } else if d == 7 {
        "7"
    } else if d == 8 {
        "8"
    } else {
        "9"
    };
    proof {
        reveal_strlit("0");
        reveal_strlit("1");
        reveal_strlit("2");
        reveal_strlit("3");
        reveal_strlit("4");
        reveal_strlit("5");
        reveal_strlit("6");
        reveal_strlit("7");
        reveal_strlit("8");
        reveal_strlit("9");
        assert(s@ =~= seq![digit_char(d as nat)]);
    }
    s
}

/// Renders `n` in decimal, as `{}` does.
pub fn u64_to_dec(n: u64) -> (s: String)
    ensures
        s@ == dec_chars(n as nat),
    decreases n,
{
    if n < 10 {
        String::from_str(digit_str(n))
    } else {
        let mut s = u64_to_dec(n / 10);
        s.append(digit_str(n % 10));
        proof {
            assert(s@ =~= dec_chars(n as nat));
        }
        s
    }
}

/// Renders `n` in decimal padded to at least two digits, as `{:02}` does.
pub fn u64_two_digits(n: u64) -> (s: String)
    ensures
        s@ == two_digit_chars(n as nat),
{
    if n < 10 {
        let mut s = String::from_str("0");
        s.append(digit_str(n));
        proof {
            reveal_strlit("0");
            assert(s@ =~= two_digit_chars(n as nat));
        }
        s
    } else {
        u64_to_dec(n)
    }
}

/// Renders a signed integer in decimal, as `{}` does.
pub fn i64_to_dec(n: i64) -> (s: String)
    ensures
        s@ == signed_dec_chars(n as int),
{
    if n >= 0 {
        u64_to_dec(n as u64)
    } else {
        let magnitude: u64 = ((-(n + 1)) as u64) + 1;
        let mut s = String::from_str("-");
        s.append(u64_to_dec(magnitude).as_str());
        proof {
            reveal_strlit("-");
            assert(s@ =~= signed_dec_chars(n as int));
        }
        s
    }
}

} // verus!
