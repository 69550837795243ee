use std::str::FromStr;

use at_realtime::r9k_position::r9k_date::R9kDate;

#[test]
fn test_from_str() {
    let date = R9kDate::from_str("19/09/2025").unwrap();
    assert_eq!(date, R9kDate::date(2025, 9, 19));
}

#[test]
fn test_display() {
    let date = R9kDate::date(2025, 9, 19);
    assert_eq!(date.to_string(), "19/09/2025");
}

#[test]
fn test_to_timestamp() {
    let date = R9kDate::date(2025, 10, 7);
    assert_eq!(date.to_timestamp_secs(1), 1_759_748_401);
}

#[test]
fn test_from_timestamp() {
    let timestamp = 1_759_748_401;
    let (date, seconds_since_midnight) = R9kDate::from_timestamp_secs(timestamp);
    assert_eq!(date, R9kDate::date(2025, 10, 7));
    assert_eq!(seconds_since_midnight, 1);
}

#[test]
fn test_timestamp_round_trip() {
    let date = R9kDate::date(2025, 10, 7);
    let seconds = 3661; // 1 hour, 1 minute, 1 second
    let timestamp = date.to_timestamp_secs(seconds);
    let (recovered_date, recovered_seconds) = R9kDate::from_timestamp_secs(timestamp);
    assert_eq!(date, recovered_date);
    assert_eq!(seconds, recovered_seconds);
}

#[test]
fn r9k_date_rejects_bad_text() {
    assert!(R9kDate::parse("2025-09-19").is_err());
    assert!(R9kDate::parse("31/02/2025").is_err());
    assert_eq!(R9kDate::date(5, 1, 2).to_string(), "02/01/0005");
    assert_eq!(R9kDate::date(2025, 1, 1).checked_timestamp_secs(i64::MAX), None);
    assert!(R9kDate::checked_from_timestamp_secs(i64::MAX).is_none());
}

#[test]
fn date_validity() {
    assert!(R9kDate { year: 2024, month: 2, day: 29 }.is_valid());
    assert!(!R9kDate { year: 2023, month: 2, day: 29 }.is_valid());
    assert!(!R9kDate { year: 2000, month: 13, day: 1 }.is_valid());
    assert!(R9kDate { year: -9999, month: 12, day: 31 }.is_valid());
    assert!(!R9kDate { year: 10000, month: 1, day: 1 }.is_valid());
    assert!(!R9kDate { year: 1900, month: 2, day: 29 }.is_valid());
}
