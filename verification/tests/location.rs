use at_realtime::smartrak_gtfs::block_mgt::BlockInstance;
use at_realtime::smartrak_gtfs::handlers::{EventData, EventType, LocationData, MessageData, RemoteData, SmarTrakMessage};
use at_realtime::smartrak_gtfs::location::{
    allocation_end, allocation_start, current_trip, location_kind, location_subject, location_vehicle, needs_trip_lookup, occupancy_key,
    sign_on_key, time_to_timestamp, trip_expired, trip_key, AllocationEnd, AllocationStart, CurrentTrip, LocationKind,
};
use at_realtime::smartrak_gtfs::error::Error as GtfsError;
use at_realtime::smartrak_gtfs::models::{TripDescriptor, TripInstance};

fn instance(trip_id: &str, start: &str, end: &str) -> TripInstance {
    TripInstance {
        trip_id: trip_id.to_string(),
        route_id: "r".to_string(),
        service_date: "20240101".to_string(),
        start_time: start.to_string(),
        end_time: end.to_string(),
        direction_id: Some(1),
        is_added_trip: false,
        error: false,
    }
}

fn block(trip_id: &str, vehicles: &[&str], error: bool) -> BlockInstance {
    BlockInstance {
        trip_id: trip_id.to_string(),
        start_time: "08:00:00".to_string(),
        service_date: "20240101".to_string(),
        vehicle_ids: vehicles.iter().map(|v| v.to_string()).collect(),
        error,
    }
}

#[test]
fn state_keys() {
    assert_eq!(trip_key("v1"), "smartrakGtfs:trip:vehicle:v1");
    assert_eq!(sign_on_key("v1"), "smartrakGtfs:vehicle:signOn:v1");
}

#[test]
fn location_gate() {
    let mut message = SmarTrakMessage {
        event_type: EventType::Location,
        remote_data: Some(RemoteData { external_id: None, remote_name: Some("bus".to_string()) }),
        message_data: MessageData { timestamp: "2024-01-01T00:00:00Z".to_string() },
        location_data: LocationData::default(),
        event_data: EventData::default(),
        serial_data: None,
    };
    assert_eq!(location_vehicle(&message), Some("bus"));
    message.location_data.negative_accuracy = true;
    assert_eq!(location_vehicle(&message), None);
    message.location_data.negative_accuracy = false;
    message.event_type = EventType::SerialData;
    assert_eq!(location_vehicle(&message), None);
}

#[test]
fn allocation_steps() {
    assert_eq!(allocation_start("v1", &None), AllocationStart::Clear);
    assert_eq!(allocation_start("v1", &Some(block("t", &["v1"], true))), AllocationStart::Keep);
    assert_eq!(allocation_start("v1", &Some(block("t", &["v2", "v1"], false))), AllocationStart::Clear);
    assert_eq!(allocation_start("v1", &Some(block("t", &[], false))), AllocationStart::Clear);
    assert_eq!(allocation_start("v1", &Some(block("t", &["v1"], false))), AllocationStart::ReadPrevious);

    let alloc = block("t", &["v1"], false);
    assert!(!needs_trip_lookup(&alloc, Some(&instance("t", "08:00:00", "09:00:00"))));
    assert!(needs_trip_lookup(&alloc, Some(&instance("t", "08:30:00", "09:00:00"))));
    assert!(needs_trip_lookup(&alloc, None));

    assert!(matches!(allocation_end(None, 5), AllocationEnd::Clear));
    let mut failed = instance("t", "08:00:00", "09:00:00");
    failed.error = true;
    assert!(matches!(allocation_end(Some(failed), 5), AllocationEnd::Keep));
    match allocation_end(Some(instance("t", "08:00:00", "09:00:00")), 5) {
        AllocationEnd::Save { trip, sign_on } => {
            assert_eq!(trip.trip_id, "t");
            assert_eq!(sign_on, 5);
        }
        _ => panic!("should save"),
    }
}

#[test]
fn trip_times_and_expiry() {
    assert_eq!(time_to_timestamp("20240101", "08:00:00"), Some(1_704_049_200));
    assert_eq!(time_to_timestamp("20240101", "08:00"), None);
    assert_eq!(time_to_timestamp("20240101", "1:2:3:4"), None);
    assert_eq!(time_to_timestamp("", "08:00:00"), None);

    assert!(!trip_expired(100, None, Some(0), Some(10), 5));
    assert!(!trip_expired(100, Some(85), Some(0), Some(10), 5));
    assert!(trip_expired(100, Some(84), Some(0), Some(10), 5));
    assert!(!trip_expired(i64::MAX, Some(i64::MIN), None, Some(10), 5));

    // Signed on at 08:00 NZDT for a trip of one hour, with an hour of slack.
    let sign_on = 1_704_049_200;
    let on_time = current_trip(Some(instance("t", "08:00:00", "09:00:00")), Some(sign_on), sign_on + 7_000, 3_600);
    assert!(matches!(on_time, CurrentTrip::On(_)));
    let late = current_trip(Some(instance("t", "08:00:00", "09:00:00")), Some(sign_on), sign_on + 7_201, 3_600);
    assert!(matches!(late, CurrentTrip::Expired));
    assert!(matches!(current_trip(None, Some(sign_on), sign_on, 3_600), CurrentTrip::NoTrip));
}

fn descriptor(start_date: Option<&str>, start_time: Option<&str>) -> TripDescriptor {
    TripDescriptor {
        trip_id: "t".to_string(),
        route_id: "r".to_string(),
        start_time: start_time.map(str::to_string),
        start_date: start_date.map(str::to_string),
        direction_id: None,
        schedule_relationship: None,
    }
}

#[test]
fn location_kinds() {
    let d = descriptor(Some("20240101"), Some("08:00:00"));
    assert!(matches!(location_kind(false, true, true, Some(d.clone())), LocationKind::DeadReckoning(_)));
    assert!(matches!(location_kind(true, true, true, Some(d.clone())), LocationKind::VehiclePosition(Some(_))));
    assert!(matches!(location_kind(false, false, false, Some(d)), LocationKind::VehiclePosition(Some(_))));
    assert!(matches!(location_kind(false, false, true, None), LocationKind::VehiclePosition(None)));
}

#[test]
fn occupancy_keys() {
    assert_eq!(
        occupancy_key("v1", &descriptor(Some("20240101"), Some("08:00:00"))),
        Some("smartrakGtfs:occupancyStatus:v1:t:20240101:08:00:00".to_string())
    );
    assert_eq!(occupancy_key("v1", &descriptor(None, Some("08:00:00"))), None);
}

#[test]
fn location_subject_errors() {
    let mut message = SmarTrakMessage {
        event_type: EventType::Location,
        remote_data: Some(RemoteData { external_id: Some("v7".to_string()), remote_name: None }),
        message_data: MessageData { timestamp: "2024-01-01T00:00:10Z".to_string() },
        location_data: LocationData::default(),
        event_data: EventData::default(),
        serial_data: None,
    };
    assert_eq!(location_subject(&message), Ok(("v7".to_string(), 1_704_067_210)));
    message.message_data.timestamp = "not a time".to_string();
    assert_eq!(location_subject(&message), Err(GtfsError::ProcessingError("not a time".to_string())));
    message.remote_data = None;
    assert_eq!(
        location_subject(&message),
        Err(GtfsError::ProcessingError("remoteData.externalId ".to_string()))
    );
}

#[test]
fn empty_block_marks_no_failure() {
    let b = BlockInstance::default();
    assert!(!b.has_error());
    assert!(b.trip_id.is_empty() && b.vehicle_ids.is_empty());
    assert!(block("t", &[], true).has_error());
}
