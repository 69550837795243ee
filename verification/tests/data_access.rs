use at_realtime::smartrak_gtfs::data_access::{
    block_cache_plan, cached_block, fleet_cache_plan, fleet_lookup, is_alpha_numeric, is_train_label,
    nearest_trip_instance, parse_trip_time, select_trip_instance, split_alpha_numeric, trips_cache_plan, CacheWrite,
    FleetLookup, Loaded, Ttl,
};
use at_realtime::smartrak_gtfs::model::trip::{BlockInstance, TripInstance};

fn trip(trip_id: &str, service_date: &str, start_time: &str) -> TripInstance {
    TripInstance {
        trip_id: trip_id.to_string(),
        route_id: None,
        service_date: service_date.to_string(),
        start_time: start_time.to_string(),
        end_time: None,
        direction_id: None,
        is_added_trip: None,
        error: false,
    }
}

#[test]
fn alpha_numeric_identifiers() {
    assert!(is_alpha_numeric("AMP123"));
    assert!(is_alpha_numeric("123"));
    assert!(!is_alpha_numeric("AMP"));
    assert!(!is_alpha_numeric("AM1P2"));
    assert!(!is_alpha_numeric("am123"));
    assert!(!is_alpha_numeric(""));
    assert_eq!(split_alpha_numeric("AMP123"), ("AMP".to_string(), "123".to_string()));
    assert_eq!(split_alpha_numeric("ABC"), ("ABC".to_string(), String::new()));
}

#[test]
fn train_labels() {
    assert!(is_train_label("AMP        123"));
    assert!(!is_train_label("AMP 123"));
    assert!(!is_train_label("AMP1234567890A"));
}

#[test]
fn lookups() {
    match fleet_lookup("AM123") {
        FleetLookup::ByLabel(l) => {
            assert_eq!(l, "AMP        123");
            assert_eq!(l.len(), 14);
        }
        FleetLookup::ById(_) => panic!("should be a label"),
    }
    match fleet_lookup("ABCDEFGHIJKLMNO1") {
        FleetLookup::ByLabel(l) => assert_eq!(l, "ABCDEFGHIJKLMNO1"),
        FleetLookup::ById(_) => panic!("should be a label"),
    }
    match fleet_lookup("AMP        123") {
        FleetLookup::ByLabel(l) => assert_eq!(l, "AMP        123"),
        FleetLookup::ById(_) => panic!("should be a label"),
    }
    match fleet_lookup("bus-7") {
        FleetLookup::ById(i) => assert_eq!(i, "bus-7"),
        FleetLookup::ByLabel(_) => panic!("should be an id"),
    }
}

#[test]
fn cache_plans() {
    assert_eq!(fleet_cache_plan(Loaded::Found(7)), (CacheWrite::Value(Ttl::Success), Some(7)));
    assert_eq!(fleet_cache_plan::<i32>(Loaded::Missing), (CacheWrite::Empty(Ttl::Success), None));
    assert_eq!(fleet_cache_plan::<i32>(Loaded::Failed), (CacheWrite::Empty(Ttl::Failure), None));

    let (ttl, trips) = trips_cache_plan(None);
    assert_eq!(ttl, Ttl::Failure);
    assert_eq!(trips.len(), 1);
    assert!(trips[0].error);
    let (ttl, trips) = trips_cache_plan(Some(vec![trip("a", "20240101", "08:00:00")]));
    assert_eq!(ttl, Ttl::Success);
    assert_eq!(trips.len(), 1);

    let empty = BlockInstance::default();
    assert!(cached_block(empty).is_none());
    let failed = BlockInstance { error: true, ..BlockInstance::default() };
    assert!(cached_block(failed).is_some());
    let (write, block) = block_cache_plan(Loaded::Failed);
    assert_eq!(write, CacheWrite::Value(Ttl::Failure));
    assert!(block.unwrap().error);
    let (write, block) = block_cache_plan(Loaded::Missing);
    assert_eq!(write, CacheWrite::Empty(Ttl::Success));
    assert!(block.is_none());
}

#[test]
fn start_time_selection() {
    let trips = vec![trip("a", "20240101", "08:00:00"), trip("b", "20240101", "09:00:00")];
    assert_eq!(select_trip_instance(trips, "09:00:00").map(|t| t.trip_id), Some("b".to_string()));
    let failed = vec![TripInstance::error_marker(), trip("b", "20240101", "09:00:00")];
    assert_eq!(select_trip_instance(failed, "09:00:00").map(|t| t.trip_id), Some("b".to_string()));
    let failed = vec![TripInstance::error_marker()];
    assert!(select_trip_instance(failed, "09:00:00").unwrap().error);
    assert!(select_trip_instance(vec![trip("a", "20240101", "08:00:00")], "07:00:00").is_none());
}

#[test]
fn trip_times() {
    // 2024-01-01 00:00 NZDT plus 8 hours.
    assert_eq!(parse_trip_time("Pacific/Auckland", "20240101", "08:00:00"), Some(1_704_049_200));
    assert_eq!(parse_trip_time("UTC", "20240101", "25:00:00"), Some(1_704_157_200));
    assert_eq!(parse_trip_time("Pacific/Auckland", "2024011", "08:00:00"), None);
    assert_eq!(parse_trip_time("Pacific/Auckland", "20241301", "08:00:00"), None);
    assert_eq!(parse_trip_time("Nowhere/Else", "20240101", "08:00:00"), None);
    assert_eq!(parse_trip_time("Pacific/Auckland", "20240101", "08:00"), None);
}

#[test]
fn nearest_with_unknown_starts() {
    let event = 1_704_052_200;
    let trips = vec![trip("bad", "2024", "08:50:00"), trip("a", "20240101", "09:30:00")];
    let got = nearest_trip_instance("Pacific/Auckland", trips, None, event).unwrap();
    assert_eq!(got.trip_id, "a");
}

#[test]
fn cached_block_default_marks_no_failure() {
    assert!(!BlockInstance::default().has_error());
    assert!(BlockInstance { error: true, ..BlockInstance::default() }.has_error());
}
