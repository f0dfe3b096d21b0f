use risk_core::logger::{heartbeat_line, heartbeat_text, STAMP_MIN_LEN};
use risk_core::text::{decimal_string, push_decimal, push_padded};
use risk_core::time::{day_key, day_key_for, TimeError};

#[test]
fn decimal_text_of_small_and_large_numbers() {
    assert_eq!(decimal_string(0), "0");
    assert_eq!(decimal_string(7), "7");
    assert_eq!(decimal_string(10), "10");
    assert_eq!(decimal_string(1_234_567_890), "1234567890");
    assert_eq!(decimal_string(u64::MAX), "18446744073709551615");
}

#[test]
fn decimal_text_is_appended_and_counted() {
    let mut out = "n=".to_string();
    assert_eq!(push_decimal(&mut out, 4096), 4);
    assert_eq!(out, "n=4096");
    assert_eq!(push_decimal(&mut out, 0), 1);
    assert_eq!(out, "n=40960");
}

#[test]
fn padding_adds_zeros_in_front_and_never_cuts() {
    let mut out = String::new();
    push_padded(&mut out, 7, 2);
    out.push('|');
    push_padded(&mut out, 12, 2);
    out.push('|');
    push_padded(&mut out, 123, 2);
    out.push('|');
    push_padded(&mut out, 5, 4);
    out.push('|');
    push_padded(&mut out, 0, 0);
    assert_eq!(out, "07|12|123|0005|0");
}

#[test]
fn a_day_key_is_year_month_day() {
    assert_eq!(day_key_for(2024, 3, 7), "2024-03-07");
    assert_eq!(day_key_for(1970, 1, 1), "1970-01-01");
    assert_eq!(day_key_for(2025, 12, 31), "2025-12-31");
    assert_eq!(day_key_for(987, 10, 9), "0987-10-09");
}

#[test]
fn a_day_key_of_an_unusual_year_agrees_with_the_formatter() {
    for year in [-262_143, -1000, -5, 0, 5, 12_345, 262_142] {
        assert_eq!(day_key_for(year, 2, 3), format!("{:04}-{:02}-{:02}", year, 2, 3));
    }
    assert_eq!(day_key_for(-5, 1, 1), "-005-01-01");
    assert_eq!(day_key_for(i32::MIN, 1, 1), format!("{:04}-01-01", i32::MIN));
}

#[test]
fn the_day_key_of_a_moment_depends_on_the_zone() {
    // 2024-03-07 23:30:00 UTC
    let moment = 1_709_854_200;
    assert_eq!(day_key("UTC", moment), Ok("2024-03-07".to_string()));
    assert_eq!(day_key("Asia/Tokyo", moment), Ok("2024-03-08".to_string()));
    assert_eq!(day_key("Europe/Madrid", moment), Ok("2024-03-08".to_string()));
    assert_eq!(day_key("America/New_York", moment), Ok("2024-03-07".to_string()));
    // 2024-07-01 03:30:00 UTC, in summer time
    let summer = 1_719_804_600;
    assert_eq!(day_key("America/New_York", summer), Ok("2024-06-30".to_string()));
    assert_eq!(day_key("Europe/London", summer), Ok("2024-07-01".to_string()));
}

#[test]
fn the_day_key_of_moments_around_the_epoch_and_far_from_it() {
    assert_eq!(day_key("UTC", 0), Ok("1970-01-01".to_string()));
    assert_eq!(day_key("UTC", -1), Ok("1969-12-31".to_string()));
    assert_eq!(day_key("UTC", 86_399), Ok("1970-01-01".to_string()));
    assert_eq!(day_key("UTC", 86_400), Ok("1970-01-02".to_string()));
    assert_eq!(day_key("UTC", 253_402_300_799), Ok("9999-12-31".to_string()));
    assert_eq!(day_key("UTC", 253_402_300_800), Ok("10000-01-01".to_string()));
    assert_eq!(day_key("UTC", -62_198_755_200), Ok("-001-01-01".to_string()));
}

#[test]
fn a_moment_outside_the_calendar_gives_no_day_key() {
    assert_eq!(day_key("UTC", i64::MAX), Err(TimeError::OutOfRange));
    assert_eq!(day_key("UTC", i64::MIN), Err(TimeError::OutOfRange));
    assert_eq!(day_key("Asia/Tokyo", i64::MAX), Err(TimeError::OutOfRange));
}

#[test]
fn an_unknown_zone_gives_no_day_key() {
    assert_eq!(day_key("Not/AZone", 0), Err(TimeError::InvalidZone));
    assert_eq!(day_key("", 0), Err(TimeError::InvalidZone));
    assert_eq!(day_key("utc", 0), Err(TimeError::InvalidZone));
    assert_eq!(day_key("Not/AZone", i64::MAX), Err(TimeError::InvalidZone));
}

#[test]
fn a_heartbeat_line_is_the_timestamp_and_the_word() {
    assert_eq!(heartbeat_text("2024-03-07T10:00:00+01:00"), "2024-03-07T10:00:00+01:00 heartbeat");
    assert_eq!(heartbeat_text(""), " heartbeat");
}

#[test]
fn the_heartbeat_line_of_a_moment_ends_in_the_word_after_a_timestamp() {
    let line = heartbeat_line(1_709_854_200, 0).expect("a moment within the calendar");
    assert!(line.ends_with(" heartbeat"));
    let stamp = &line[..line.len() - " heartbeat".len()];
    assert_eq!(stamp.len(), 25);
    assert_eq!(&stamp[10..11], "T");
    assert_eq!(heartbeat_text(stamp), line);
    let parsed = chrono::DateTime::parse_from_rfc3339(stamp).expect("an RFC 3339 timestamp");
    assert_eq!(parsed.timestamp(), 1_709_854_200);
}

#[test]
fn the_heartbeat_line_keeps_the_fraction_of_a_second() {
    let line = heartbeat_line(1_709_854_200, 250_000_000).expect("a moment within the calendar");
    let stamp = &line[..line.len() - " heartbeat".len()];
    assert_eq!(stamp.len(), 29);
    assert_eq!(&stamp[19..23], ".250");
    assert!(stamp.len() >= STAMP_MIN_LEN);
}

#[test]
fn a_moment_outside_the_calendar_gives_no_heartbeat_line() {
    assert_eq!(heartbeat_line(i64::MAX, 0), None);
    assert_eq!(heartbeat_line(i64::MIN, 0), None);
    assert!(heartbeat_line(-1, 999_999_999).is_some());
    assert!(heartbeat_line(0, 0).is_some());
}
