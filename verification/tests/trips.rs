use at_realtime::smartrak_gtfs::models::TripInstance;
use at_realtime::smartrak_gtfs::trip::{
    difference, error_trip, extract, nearest_dates, nearest_instance, parse_time, reply_outcome, select_instance,
    trip_timestamp, ReplyOutcome, TripJson,
};

fn trip(trip_id: &str, service_date: &str, start_time: &str) -> TripInstance {
    TripInstance {
        trip_id: trip_id.to_string(),
        route_id: "route".to_string(),
        service_date: service_date.to_string(),
        start_time: start_time.to_string(),
        end_time: String::new(),
        direction_id: None,
        is_added_trip: false,
        error: false,
    }
}

#[test]
fn parses_extended_hours() {
    let trip = TripInstance {
        trip_id: "trip".to_string(),
        route_id: "route".to_string(),
        service_date: "20240101".to_string(),
        start_time: "25:15:00".to_string(),
        end_time: String::new(),
        direction_id: None,
        is_added_trip: false,
        error: false,
    };
    let timestamp = trip_timestamp(&trip).unwrap();
    // 25:15 local time maps to 01:15 NZDT on the following day (UTC+13), which is
    // 12:15 UTC — 44_100 seconds from midnight.
    assert_eq!(timestamp % 86_400, 44_100);
}

#[test]
fn trip_timestamp_in_auckland() {
    // 2024-01-01 08:00 NZDT is 2023-12-31 19:00 UTC.
    assert_eq!(trip_timestamp(&trip("t", "20240101", "08:00:00")), Some(1_704_049_200));
    assert_eq!(trip_timestamp(&trip("t", "2024-01-01", "08:00:00")), None);
    assert_eq!(trip_timestamp(&trip("t", "20240101", "8h")), None);
}

#[test]
fn parse_time_fields() {
    assert_eq!(parse_time("25:15:00"), Some(90_900));
    assert_eq!(parse_time("1:2:3:extra"), Some(3_723));
    assert_eq!(parse_time("-1:00:00"), Some(-3_600));
    assert_eq!(parse_time("10:30"), None);
    assert_eq!(parse_time("aa:00:00"), None);
    assert_eq!(parse_time("9223372036854775807:00:00"), None);
}

#[test]
fn error_trip_is_marked() {
    let t = error_trip("20240102");
    assert!(t.error);
    assert_eq!(t.service_date, "20240102");
    assert_eq!(t.trip_id, "");
}

#[test]
fn select_by_start_time() {
    let trips = vec![trip("a", "20240101", "08:00:00"), trip("b", "20240101", "09:00:00"), trip("c", "20240101", "09:00:00")];
    assert_eq!(select_instance(trips.clone(), "09:00:00").map(|t| t.trip_id), Some("b".to_string()));
    assert_eq!(select_instance(trips, "10:00:00"), None);
    assert_eq!(select_instance(Vec::new(), "10:00:00"), None);

    let failed = vec![error_trip("20240101"), trip("b", "20240101", "09:00:00")];
    assert!(select_instance(failed, "09:00:00").unwrap().error);
}

#[test]
fn nearest_by_start() {
    // 2024-01-01 08:50 NZDT.
    let event = 1_704_052_200;
    let current = vec![trip("a", "20240101", "08:00:00"), trip("b", "20240101", "09:00:00"), trip("c", "20240101", "09:40:00")];
    assert_eq!(nearest_instance(current, None, event).map(|t| t.trip_id), Some("b".to_string()));

    let tie = vec![trip("a", "20240101", "08:40:00"), trip("b", "20240101", "09:00:00")];
    assert_eq!(nearest_instance(tie, None, event).map(|t| t.trip_id), Some("a".to_string()));

    assert_eq!(nearest_instance(Vec::new(), Some(Vec::new()), event), None);

    let previous = vec![error_trip("20231231")];
    let got = nearest_instance(vec![trip("a", "20240101", "08:00:00")], Some(previous), event).unwrap();
    assert!(got.error);
    assert_eq!(got.service_date, "20231231");

    assert_eq!(difference(event, &trip("x", "20240101", "09:00:00")), 600);
    assert_eq!(difference(event, &trip("x", "bad", "09:00:00")), 0);
}

#[test]
fn nearest_dates_before_four() {
    // 2024-01-01 02:00 NZDT.
    let dates = nearest_dates(1_704_027_600).unwrap();
    assert_eq!(dates.current, "20240101");
    assert_eq!(dates.previous, Some("20231231".to_string()));
    // 2024-01-01 10:00 NZDT.
    let dates = nearest_dates(1_704_056_400).unwrap();
    assert_eq!(dates.current, "20240101");
    assert_eq!(dates.previous, None);
}

#[test]
fn reply_status() {
    assert!(matches!(reply_outcome(404, "20240101"), ReplyOutcome::NoInstances));
    assert!(matches!(reply_outcome(200, "20240101"), ReplyOutcome::Decode));
    match reply_outcome(503, "20240101") {
        ReplyOutcome::Failed(t) => {
            assert!(t.error);
            assert_eq!(t.service_date, "20240101");
        }
        _ => panic!("should fail"),
    }
}

fn object(entries: Vec<(&str, TripJson)>, parsed: Result<TripInstance, String>) -> TripJson {
    TripJson::Object { entries: entries.into_iter().map(|(k, v)| (k.to_string(), v)).collect(), parsed }
}

#[test]
fn extract_shapes() {
    assert_eq!(extract(&TripJson::Null), Ok(Vec::new()));

    let items = vec![
        TripJson::Null,
        object(Vec::new(), Err("missing field".to_string())),
        object(vec![("tripId", TripJson::Other { parsed: Err("no".to_string()) })], Ok(trip("a", "20240101", "08:00:00"))),
    ];
    let array = TripJson::Array { items, parsed: Err("sequence".to_string()) };
    assert_eq!(extract(&array).map(|ts| ts.len()), Ok(1));

    let wrapped = object(vec![("data", TripJson::Null), ("tripInstances", array)], Err("map".to_string()));
    assert_eq!(extract(&wrapped).map(|ts| ts[0].trip_id.clone()), Ok("a".to_string()));

    let failing = TripJson::Array {
        items: vec![TripJson::Other { parsed: Err("invalid type: integer".to_string()) }],
        parsed: Err("sequence".to_string()),
    };
    assert_eq!(extract(&failing), Err("invalid type: integer".to_string()));

    assert_eq!(extract(&object(Vec::new(), Err("x".to_string()))), Ok(Vec::new()));
    let single = object(vec![("tripId", TripJson::Null)], Ok(trip("s", "20240101", "07:00:00")));
    assert_eq!(extract(&single).map(|ts| ts.len()), Ok(1));
}
