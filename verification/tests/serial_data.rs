use at_realtime::smartrak_gtfs::handlers::{
    DecodedSerialData, EventData, EventType, LocationData, MessageData, RemoteData, SerialData, SmarTrakMessage,
};
use at_realtime::smartrak_gtfs::model::trip::TripInstance as CachedTrip;
use at_realtime::smartrak_gtfs::models::TripInstance;
use at_realtime::smartrak_gtfs::serial_data::{
    cached_needs_lookup, cached_serial_end, cached_serial_start, check_event, mark_serial_timestamp, check_newer, CachedSerialEnd, decoded_of, is_old, needs_nearest_lookup, serial_end, serial_event_valid, serial_start,
    serial_timestamp_key, trip_identifier, CachedSerialStart, SerialEnd, SerialRejection, SerialStart,
};
use at_realtime::smartrak_gtfs::SmarTrakError;

fn message(vehicle: Option<&str>, timestamp: &str, decoded: Option<DecodedSerialData>) -> SmarTrakMessage {
    SmarTrakMessage {
        event_type: EventType::SerialData,
        remote_data: vehicle.map(|v| RemoteData { external_id: Some(v.to_string()), remote_name: None }),
        message_data: MessageData { timestamp: timestamp.to_string() },
        location_data: LocationData::default(),
        event_data: EventData::default(),
        serial_data: Some(SerialData { decoded_serial_data: decoded }),
    }
}

fn decoded(trip_id: Option<&str>, trip_number: Option<&str>) -> DecodedSerialData {
    DecodedSerialData { trip_number: trip_number.map(str::to_string), trip_id: trip_id.map(str::to_string), line_id: None }
}

#[test]
fn event_checks() {
    let now = 1_704_067_200; // 2024-01-01T00:00:00Z
    let ok = check_event(&message(Some("v1"), "2024-01-01T00:10:00Z", None), now).unwrap();
    assert_eq!(ok, ("v1".to_string(), now + 600));

    match check_event(&message(None, "2024-01-01T00:00:00Z", None), now) {
        Err(SerialRejection::BadRequest(m)) => assert_eq!(m, "missing vehicle identifier"),
        _ => panic!("should be refused"),
    }
    match check_event(&message(Some("v1"), "yesterday", None), now) {
        Err(SerialRejection::BadRequest(m)) => assert!(m.starts_with("invalid timestamp: ")),
        _ => panic!("should be refused"),
    }
    match check_event(&message(Some("v1"), "2024-01-01T00:15:01Z", None), now) {
        Err(SerialRejection::Time(e)) => {
            assert_eq!(e, SmarTrakError::BadTime("future-dated serial data message".to_string()));
            assert_eq!(e.code(), "bad_time");
        }
        _ => panic!("should be refused"),
    }
}

#[test]
fn newer_checks() {
    assert!(check_newer(None, 10).is_ok());
    assert!(check_newer(Some(9), 10).is_ok());
    match check_newer(Some(10), 10) {
        Err(SerialRejection::Time(SmarTrakError::BadTime(m))) => assert_eq!(m, "outdated serial data message"),
        _ => panic!("should be refused"),
    }
    assert!(is_old(Some(10), 10));
    assert!(!is_old(Some(9), 10));
    assert!(!is_old(None, 10));
    assert_eq!(serial_timestamp_key("v1"), "smartrakGtfs:serialTimestamp:v1");
}

#[test]
fn decoded_checks() {
    let m = message(Some("v1"), "x", Some(decoded(Some("t"), None)));
    assert_eq!(decoded_of(&m).unwrap().trip_id.as_deref(), Some("t"));
    match decoded_of(&message(Some("v1"), "x", None)) {
        Err(SerialRejection::BadRequest(m)) => assert_eq!(m, "missing decoded serial data"),
        _ => panic!("should be refused"),
    }
    let mut none = message(Some("v1"), "x", None);
    none.serial_data = None;
    match decoded_of(&none) {
        Err(SerialRejection::BadRequest(m)) => assert_eq!(m, "missing serialData"),
        _ => panic!("should be refused"),
    }
}

fn instance(trip_id: &str, error: bool) -> TripInstance {
    TripInstance { trip_id: trip_id.to_string(), error, ..TripInstance::default() }
}

#[test]
fn serial_allocation_steps() {
    assert!(matches!(serial_start(&decoded(None, Some("n"))), SerialStart::Clear));
    match serial_start(&decoded(Some("t"), None)) {
        SerialStart::ReadPrevious(t) => assert_eq!(t, "t"),
        SerialStart::Clear => panic!("should read"),
    }
    assert!(!needs_nearest_lookup("t", None));
    assert!(needs_nearest_lookup("t", Some(None)));
    assert!(!needs_nearest_lookup("t", Some(Some(&instance("t", false)))));
    assert!(needs_nearest_lookup("t", Some(Some(&instance("u", false)))));

    assert!(matches!(serial_end(None, 1), SerialEnd::Clear));
    assert!(matches!(serial_end(Some(instance("t", true)), 1), SerialEnd::Clear));
    match serial_end(Some(instance("t", false)), 7) {
        SerialEnd::Save { trip, sign_on } => {
            assert_eq!(trip.trip_id, "t");
            assert_eq!(sign_on, 7);
        }
        SerialEnd::Clear => panic!("should save"),
    }
}

#[test]
fn validity_and_identifiers() {
    assert!(serial_event_valid(true, true, Some(1_900), 1_000, 900));
    assert!(!serial_event_valid(true, true, Some(1_901), 1_000, 900));
    assert!(!serial_event_valid(true, false, Some(1_000), 1_000, 900));
    assert!(!serial_event_valid(true, true, None, 1_000, 900));
    assert_eq!(trip_identifier(&decoded(Some(""), Some("n"))), Some("n"));
    assert_eq!(trip_identifier(&decoded(Some("t"), Some("n"))), Some("t"));
    assert_eq!(trip_identifier(&decoded(Some(""), Some(""))), None);
}

#[test]
fn cached_processor_steps() {
    let cached = CachedTrip { trip_id: "t".to_string(), ..CachedTrip::default() };
    assert!(!cached_needs_lookup("t", Some(&cached)));
    assert!(cached_needs_lookup("u", Some(&cached)));
    assert!(cached_needs_lookup("u", None));

    let failed = CachedTrip { error: true, ..CachedTrip::default() };
    assert!(matches!(cached_serial_end(true, Some(failed.clone()), 1), CachedSerialEnd::Clear));
    assert!(matches!(cached_serial_end(false, Some(failed), 1), CachedSerialEnd::Keep));
    assert!(matches!(cached_serial_end(false, None, 1), CachedSerialEnd::Keep));
    assert!(matches!(cached_serial_end(true, None, 1), CachedSerialEnd::Clear));
    match cached_serial_end(false, Some(cached), 9) {
        CachedSerialEnd::Save { trip, sign_on } => {
            assert_eq!(trip.trip_id, "t");
            assert_eq!(sign_on, 9);
        }
        _ => panic!("should save"),
    }
}

#[test]
fn cached_start_clears_without_trip() {
    match cached_serial_start(&decoded(None, None)) {
        CachedSerialStart::Clear => {}
        _ => panic!("should clear"),
    }
    match cached_serial_start(&decoded(Some(""), Some(""))) {
        CachedSerialStart::Clear => {}
        _ => panic!("should clear"),
    }
    match cached_serial_start(&decoded(Some(""), Some("1234"))) {
        CachedSerialStart::Lookup(id) => assert_eq!(id, "1234"),
        _ => panic!("should look up"),
    }
    match cached_serial_start(&decoded(Some("t-1"), Some("1234"))) {
        CachedSerialStart::Lookup(id) => assert_eq!(id, "t-1"),
        _ => panic!("should look up"),
    }
}

#[test]
fn cached_trip_marker_and_default() {
    assert!(!CachedTrip::default().has_error());
    let marker = CachedTrip::error_marker();
    assert!(marker.has_error());
    assert_eq!(marker.trip_id, "");
    assert!(marker.route_id.is_none());
    assert!(marker.remap("a", "b").has_error());
    assert!(!CachedTrip::default().remap("a", "b").has_error());
}

#[test]
fn serial_timestamp_write() {
    let w = mark_serial_timestamp("v9", Some(100), 101).unwrap();
    assert_eq!(w.key, "smartrakGtfs:serialTimestamp:v9");
    assert_eq!(w.value, 101);
    assert_eq!(w.json, serde_json::to_string(&101i64).unwrap());
    assert_eq!(w.ttl_secs, 86_400);
    let w = mark_serial_timestamp("v9", None, -5).unwrap();
    assert_eq!(w.json, "-5");
    match mark_serial_timestamp("v9", Some(101), 101) {
        Err(SerialRejection::Time(SmarTrakError::BadTime(m))) => assert_eq!(m, "outdated serial data message"),
        _ => panic!("should be refused"),
    }
}
