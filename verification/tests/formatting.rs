use std::time::Duration;

use media_report::bitrate::format_bit_rate;
use media_report::duration::format_duration;

#[test]
fn test_days_format() {
    let days = Duration::from_secs(115197);
    assert_eq!(
        format_duration(days.as_secs(), days.subsec_nanos()),
        String::from("01:07:59:57")
    );

    let single_day = Duration::from_secs(60 * 60 * 24);
    assert_eq!(
        format_duration(single_day.as_secs(), single_day.subsec_nanos()),
        String::from("01:00:00:00")
    );
}

#[test]
fn test_hours_format() {
    let hours = Duration::from_secs(28797);
    assert_eq!(
        format_duration(hours.as_secs(), hours.subsec_nanos()),
        String::from("07:59:57")
    );

    let single_hour = Duration::from_secs(60 * 60);
    assert_eq!(
        format_duration(single_hour.as_secs(), single_hour.subsec_nanos()),
        String::from("01:00:00")
    );
}

#[test]
fn test_minutes() {
    let minutes = Duration::from_secs(91);
    assert_eq!(
        format_duration(minutes.as_secs(), minutes.subsec_nanos()),
        String::from("01:31")
    );

    let single_minute = Duration::from_secs(60);
    assert_eq!(
        format_duration(single_minute.as_secs(), single_minute.subsec_nanos()),
        String::from("01:00")
    );
}

#[test]
fn test_seconds() {
    let seconds = Duration::from_secs_f32(1.12);
    assert_eq!(format_duration(seconds.as_secs(), seconds.subsec_nanos()), "00:01.12");

    let seconds_leftover = Duration::from_secs_f32(1.1233);
    assert_eq!(
        format_duration(seconds_leftover.as_secs(), seconds_leftover.subsec_nanos()),
        "00:01.12"
    );
}

#[test]
fn test_megabytes() {
    let megabytes_per_sec = 12_000_000;
    assert_eq!(format_bit_rate(megabytes_per_sec), "12.00 MB/s")
}

#[test]
fn test_kilobytes() {
    let kilobytes_per_sec = 12_000;
    assert_eq!(format_bit_rate(kilobytes_per_sec), "12.00 KB/s")
}

#[test]
fn test_bytes() {
    let bytes_per_sec = 12;
    assert_eq!(format_bit_rate(bytes_per_sec), "12 B/s")
}

#[test]
fn test_bit_rate_boundaries() {
    // Both thresholds are strict: exactly 1,000 stays B/s and exactly
    // 1,000,000 stays KB/s.
    assert_eq!(format_bit_rate(1_000), "1000 B/s");
    assert_eq!(format_bit_rate(1_001), "1.00 KB/s");
    assert_eq!(format_bit_rate(1_000_000), "1000.00 KB/s");
    assert_eq!(format_bit_rate(1_000_001), "1.00 MB/s");
}

#[test]
fn test_bit_rate_zero_and_negative() {
    assert_eq!(format_bit_rate(0), "0 B/s");
    assert_eq!(format_bit_rate(-42), "-42 B/s");
}

#[test]
fn test_bit_rate_rounding() {
    // 1,234,567 bits/s is 1.234567 MB/s, rounded to two decimals.
    assert_eq!(format_bit_rate(1_234_567), "1.23 MB/s");
    assert_eq!(format_bit_rate(1_235_567), "1.24 MB/s");
    // 4,266 bits/s is 4.266 KB/s; the half rounds up.
    assert_eq!(format_bit_rate(4_266), "4.27 KB/s");
}

#[test]
fn test_duration_zero() {
    assert_eq!(format_duration(0, 0), "00:00");
}

#[test]
fn test_duration_always_has_minutes_and_seconds() {
    assert_eq!(format_duration(59, 0), "00:59");
    assert_eq!(format_duration(3_600, 0), "01:00:00");
    assert_eq!(format_duration(86_400, 0), "01:00:00:00");
}

#[test]
fn test_duration_fraction() {
    // Half a second is fifty hundredths.
    assert_eq!(format_duration(0, 500_000_000), "00:00.50");
    // Five hundredths render without a fixed width, as a single digit.
    assert_eq!(format_duration(0, 50_000_000), "00:00.5");
    // A nonzero remainder below one hundredth still renders, as zero.
    assert_eq!(format_duration(0, 5), "00:00.0");
    // Whole seconds carry no fraction at all.
    assert_eq!(format_duration(2, 0), "00:02");
}
