use at_realtime::smartrak_gtfs::god_mode::{is_enabled, preprocess, reset, set_trip, GodModeState};
use at_realtime::smartrak_gtfs::handlers::{
    DecodedSerialData, EventData, EventType, LocationData, MessageData, RemoteData, ResetRequest, ResetScope,
    SerialData, SetTripRequest, SmarTrakMessage,
};
use at_realtime::smartrak_gtfs::rest::{god_mode_reset, god_mode_set_trip, ApiResponse, GodModeOutcome};

fn serial_message(vehicle: Option<&str>, decoded: Option<DecodedSerialData>) -> SmarTrakMessage {
    SmarTrakMessage {
        event_type: EventType::SerialData,
        remote_data: Some(RemoteData { external_id: vehicle.map(str::to_string), remote_name: None }),
        message_data: MessageData { timestamp: "2024-01-01T00:00:00Z".to_string() },
        location_data: LocationData::default(),
        event_data: EventData::default(),
        serial_data: Some(SerialData { decoded_serial_data: decoded }),
    }
}

fn decoded() -> DecodedSerialData {
    DecodedSerialData {
        trip_number: Some("n1".to_string()),
        trip_id: Some("t1".to_string()),
        line_id: Some("l1".to_string()),
    }
}

fn decoded_of(message: &SmarTrakMessage) -> DecodedSerialData {
    message.serial_data.clone().unwrap().decoded_serial_data.unwrap()
}

#[test]
fn set_then_read_override() {
    let mut state = GodModeState::new();
    state.set_vehicle_to_trip("v1", "trip-a");
    assert_eq!(state.override_for("v1"), Some("trip-a"));
    state.set_vehicle_to_trip("v1", "trip-b");
    assert_eq!(state.override_for("v1"), Some("trip-b"));
    assert_eq!(state.entries().len(), 1);
    assert_eq!(state.override_for("v2"), None);
}

#[test]
fn reset_clears_override() {
    let mut state = GodModeState::new();
    state.set_vehicle_to_trip("v1", "trip-a");
    state.set_vehicle_to_trip("v2", "trip-b");
    state.reset_vehicle("v1");
    assert_eq!(state.override_for("v1"), None);
    assert_eq!(state.override_for("v2"), Some("trip-b"));
    state.reset_all();
    assert_eq!(state.override_for("v2"), None);
    assert!(state.entries().is_empty());
}

#[test]
fn from_pairs_later_wins() {
    let state = GodModeState::from_pairs(vec![
        ("v1".to_string(), "a".to_string()),
        ("v1".to_string(), "b".to_string()),
        ("v2".to_string(), "c".to_string()),
    ]);
    assert_eq!(state.override_for("v1"), Some("b"));
    assert_eq!(state.override_for("v2"), Some("c"));
    assert_eq!(state.entries().len(), 2);
}

#[test]
fn preprocess_applies_override() {
    let mut state = GodModeState::new();
    state.set_vehicle_to_trip("v1", "trip-x");
    let mut message = serial_message(Some("v1"), Some(decoded()));
    preprocess(&state, &mut message);
    let d = decoded_of(&message);
    assert_eq!(d.trip_id.as_deref(), Some("trip-x"));
    assert_eq!(d.trip_number.as_deref(), Some("trip-x"));
    assert_eq!(d.line_id, None);
}

#[test]
fn preprocess_empty_clears_trip() {
    let mut state = GodModeState::new();
    state.set_vehicle_to_trip("v1", "empty");
    let mut message = serial_message(Some("v1"), Some(decoded()));
    preprocess(&state, &mut message);
    let d = decoded_of(&message);
    assert_eq!(d.trip_id, None);
    assert_eq!(d.trip_number, None);
    assert_eq!(d.line_id, None);
}

#[test]
fn preprocess_leaves_others() {
    let mut state = GodModeState::new();
    state.set_vehicle_to_trip("v1", "trip-x");
    let mut message = serial_message(Some("v2"), Some(decoded()));
    preprocess(&state, &mut message);
    assert_eq!(decoded_of(&message).trip_id.as_deref(), Some("t1"));

    let mut location = serial_message(Some("v1"), Some(decoded()));
    location.event_type = EventType::Location;
    preprocess(&state, &mut location);
    assert_eq!(decoded_of(&location).line_id.as_deref(), Some("l1"));

    let mut nothing = serial_message(Some("v1"), None);
    preprocess(&state, &mut nothing);
    assert!(nothing.serial_data.unwrap().decoded_serial_data.is_none());
}

#[test]
fn enabled_values() {
    assert!(is_enabled(Some(" TRUE ")));
    assert!(is_enabled(Some("1")));
    assert!(is_enabled(Some("Yes")));
    assert!(is_enabled(Some("on")));
    assert!(!is_enabled(Some("off")));
    assert!(!is_enabled(Some("")));
    assert!(!is_enabled(None));
}

#[test]
fn set_trip_and_reset_requests() {
    let mut state = GodModeState::new();
    let refused = set_trip(false, &mut state, SetTripRequest("v1".to_string(), "t".to_string()));
    assert_eq!(refused.unwrap_err(), "God mode not enabled");
    assert_eq!(state.override_for("v1"), None);

    let reply = set_trip(true, &mut state, SetTripRequest("v1".to_string(), "t".to_string())).unwrap();
    assert_eq!(reply.message, "Ok");
    assert_eq!(reply.process, 0);
    assert_eq!(state.override_for("v1"), Some("t"));

    assert!(matches!(ResetRequest("all".to_string()).scope(), ResetScope::All));
    let scope = ResetRequest("v1".to_string()).scope();
    let reply = reset(true, &mut state, scope).unwrap();
    assert_eq!(reply.message, "Ok");
    assert_eq!(state.override_for("v1"), None);
    assert!(reset(false, &mut state, ResetScope::All).is_err());
}

#[test]
fn rest_god_mode_endpoints() {
    let mut disabled: Option<GodModeState> = None;
    match god_mode_set_trip(&mut disabled, "v1", "t") {
        GodModeOutcome::Disabled(r) => assert_eq!(r.message, "Ops..."),
        GodModeOutcome::Enabled(_) => panic!("should be disabled"),
    }
    let mut enabled = Some(GodModeState::new());
    match god_mode_set_trip(&mut enabled, "v1", "t") {
        GodModeOutcome::Enabled(r) => assert_eq!(r.message, "Ok"),
        GodModeOutcome::Disabled(_) => panic!("should be enabled"),
    }
    assert_eq!(enabled.as_ref().unwrap().override_for("v1"), Some("t"));
    god_mode_reset(&mut enabled, "all");
    assert_eq!(enabled.as_ref().unwrap().override_for("v1"), None);
    assert_eq!(ApiResponse::ok().process, 0);
    assert_eq!(ApiResponse::not_found().message, "Ops...");
}
