use at_realtime::smartrak_gtfs::model::events::{
    read_timestamp, utc_seconds, TimestampInput, MAX_UTC_SECONDS, MIN_UTC_SECONDS,
};
use chrono::TimeZone;

#[test]
fn utc_range_matches_chrono() {
    for secs in [MIN_UTC_SECONDS - 1, MIN_UTC_SECONDS, 0, MAX_UTC_SECONDS, MAX_UTC_SECONDS + 1, i64::MIN, i64::MAX] {
        let chrono_has = chrono::Utc.timestamp_opt(secs, 0).single().map(|t| t.timestamp());
        assert_eq!(utc_seconds(secs), chrono_has);
    }
}

#[test]
fn timestamp_inputs() {
    assert_eq!(read_timestamp(&TimestampInput::Absent), Ok(None));
    assert_eq!(read_timestamp(&TimestampInput::Signed(1_704_067_200)), Ok(Some(1_704_067_200)));
    assert_eq!(read_timestamp(&TimestampInput::Signed(i64::MAX)), Ok(None));
    assert_eq!(read_timestamp(&TimestampInput::Unsigned(u64::MAX)), Ok(Some(-1)));
    assert_eq!(read_timestamp(&TimestampInput::Text("  ".to_string())), Ok(None));
    assert_eq!(read_timestamp(&TimestampInput::Text("2024-01-01T00:00:00Z".to_string())), Ok(Some(1_704_067_200)));
    assert_eq!(read_timestamp(&TimestampInput::Text("1704067200".to_string())), Ok(Some(1_704_067_200)));
    assert_eq!(read_timestamp(&TimestampInput::Text("9223372036854775807".to_string())), Err(()));
    assert_eq!(read_timestamp(&TimestampInput::Text("soon".to_string())), Err(()));
}
