//! Rendering of a time span as `DD:HH:MM:SS[.cc]` with zero-valued leading
//! units elided.
//!
//! A span is a pair of whole seconds and a subsecond nanosecond count, the
//! plain values behind `std::time::Duration`. The minutes and seconds
//! segments are always present; a days segment appears only when the span
//! reaches one day, an hours segment only when it reaches one hour, and a
//! fractional part only when the subsecond count is nonzero. The fraction is
//! the nanosecond count truncated to hundredths of a second and rendered
//! without a fixed width, so `.5` means 50 hundredths and `.0` marks a
//! nonzero remainder below one hundredth.

use vstd::prelude::*;

use crate::digits::{dec_chars, two_digit_chars, u64_to_dec, u64_two_digits};

verus! {

/// The optional days and hours segments: two digits and a colon each, the
/// days emitted only when the span reaches a day, the hours (modulo a day)
/// only when the total hour count is nonzero.
pub open spec fn duration_head_chars(secs: nat) -> Seq<char> {
    let minutes = secs / 60;
    let hours = minutes / 60;
    let days = hours / 24;
    (if days > 0 {
        two_digit_chars(days) + seq![':']
    } else {
        Seq::<char>::empty()
    }) + (if hours > 0 {
        two_digit_chars(hours % 24) + seq![':']
    } else {
        Seq::<char>::empty()
    })
}

/// The optional fractional part: a dot and the subsecond count truncated to
/// hundredths of a second, present exactly when the subsecond count is
/// nonzero.
pub open spec fn duration_frac_chars(nanos: nat) -> Seq<char> {
    if nanos > 0 {
        seq!['.'] + dec_chars(nanos / 10_000_000)
    } else {
        Seq::<char>::empty()
    }
}

/// The full rendering of a span: optional days and hours, then the
/// ever-present two-digit minutes and seconds, then the optional fraction.
pub open spec fn duration_chars(secs: nat, nanos: nat) -> Seq<char> {
    duration_head_chars(secs) + two_digit_chars(secs / 60 % 60) + seq![':'] + two_digit_chars(
        secs % 60,
    ) + duration_frac_chars(nanos)
}

/// Renders a span, given as whole seconds and the subsecond nanosecond
/// count, in the `DD:HH:MM:SS[.cc]` form with leading zero-valued units
/// elided.
pub fn format_duration(secs: u64, subsec_nanos: u32) -> (s: String)
    requires
        subsec_nanos < 1_000_000_000,
    ensures
        s@ == duration_chars(secs as nat, subsec_nanos as nat),
{
    let minutes: u64 = secs / 60;
    let hours: u64 = minutes / 60;
    let days: u64 = hours / 24;
    let mut s = String::new();
    if days > 0 {
        s.append(u64_two_digits(days).as_str());
        s.append(":");
    }
    if hours > 0 {
        s.append(u64_two_digits(hours % 24).as_str());
        s.append(":");
    }
    s.append(u64_two_digits(minutes % 60).as_str());
    s.append(":");
    s.append(u64_two_digits(secs % 60).as_str());
    if subsec_nanos > 0 {
        s.append(".");
        s.append(u64_to_dec((subsec_nanos / 10_000_000) as u64).as_str());
    }
    proof {
        reveal_strlit(":");
        reveal_strlit(".");
        assert(s@ =~= duration_chars(secs as nat, subsec_nanos as nat));
    }
    s
}

/// Two-digit zero-padded renderings are exactly two characters long.
proof fn lemma_two_digit_chars_len(n: nat)
    requires
        n < 100,
    ensures
        two_digit_chars(n).len() == 2,
{
    if n < 10 {
    } else {
        assert(dec_chars(n / 10) == seq![crate::digits::digit_char(n / 10)]);
    }
}

/// However large the span and whether or not the higher units or the
/// fraction appear, the rendering always carries the two-digit minutes
/// segment, a colon, and the two-digit seconds segment, in that order.
pub proof fn lemma_duration_keeps_minutes_seconds(secs: nat, nanos: nat)
    ensures
        duration_chars(secs, nanos) == duration_head_chars(secs) + two_digit_chars(secs / 60 % 60)
            + seq![':'] + two_digit_chars(secs % 60) + duration_frac_chars(nanos),
        two_digit_chars(secs / 60 % 60).len() == 2,
        two_digit_chars(secs % 60).len() == 2,
{
    lemma_two_digit_chars_len(secs / 60 % 60);
    lemma_two_digit_chars_len(secs % 60);
}

} // verus!
