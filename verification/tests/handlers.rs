use at_realtime::r9k_position_adapter::EventType as AdapterEventType;
use at_realtime::smartrak_gtfs::handlers::{caf_tag_allows, train_tag_allows,
    reset_reply, set_trip_reply, sign_on_to_string, EventData, EventType, LocationData, MessageData, OccupancyAction,
    PassengerCountMessage, RemoteData, SignOnValue, SmarTrakMessage, Trip, Vehicle, OCCUPANCY_STATUS_TTL,
};

fn sign_on_value(bytes: Option<Vec<u8>>) -> Option<SignOnValue> {
    let value: serde_json::Value = serde_json::from_slice(&bytes?).ok()?;
    Some(match value {
        serde_json::Value::Null => SignOnValue::Null,
        serde_json::Value::String(s) => SignOnValue::Text(s),
        serde_json::Value::Number(n) => match n.as_i64() {
            Some(i) => SignOnValue::Integer(i),
            None => SignOnValue::OtherNumber,
        },
        other => SignOnValue::Other(other.to_string()),
    })
}

#[test]
fn converts_numeric_sign_on() {
    let value = serde_json::to_vec(&1234_i64).expect("serialize");
    assert_eq!(sign_on_to_string(sign_on_value(Some(value))), Some("1234".to_string()));
}

#[test]
fn ignores_null_sign_on() {
    let value = serde_json::to_vec(&serde_json::Value::Null).expect("serialize");
    assert_eq!(sign_on_to_string(sign_on_value(Some(value))), None);
}

#[test]
fn sign_on_other_values() {
    let text = serde_json::to_vec(&"08:00").expect("serialize");
    assert_eq!(sign_on_to_string(sign_on_value(Some(text))), Some("08:00".to_string()));
    let float = serde_json::to_vec(&1.5_f64).expect("serialize");
    assert_eq!(sign_on_to_string(sign_on_value(Some(float))), None);
    let list = serde_json::to_vec(&vec![1, 2]).expect("serialize");
    assert_eq!(sign_on_to_string(sign_on_value(Some(list))), Some("[1,2]".to_string()));
    assert_eq!(sign_on_to_string(sign_on_value(None)), None);
    assert_eq!(sign_on_to_string(Some(SignOnValue::Integer(-5))), Some("-5".to_string()));
}

fn message(external_id: Option<&str>, remote_name: Option<&str>, timestamp: &str) -> SmarTrakMessage {
    SmarTrakMessage {
        event_type: EventType::Location,
        remote_data: Some(RemoteData {
            external_id: external_id.map(str::to_string),
            remote_name: remote_name.map(str::to_string),
        }),
        message_data: MessageData { timestamp: timestamp.to_string() },
        location_data: LocationData::default(),
        event_data: EventData::default(),
        serial_data: None,
    }
}

#[test]
fn message_vehicle_and_time() {
    assert_eq!(message(Some("ext"), Some("name"), "").vehicle_id(), Some("ext"));
    assert_eq!(message(None, Some("name"), "").vehicle_id(), Some("name"));
    assert_eq!(message(Some(""), Some("name"), "").vehicle_id(), Some(""));
    assert_eq!(message(Some("v"), None, "2024-01-01T13:00:00+13:00").timestamp(), Ok(1_704_067_200));
    let err = message(Some("v"), None, "not a time").timestamp().unwrap_err();
    assert!(err.starts_with("invalid timestamp: "));
}

#[test]
fn occupancy_actions() {
    let mut count = PassengerCountMessage {
        occupancy_status: Some("FULL".to_string()),
        vehicle: Vehicle { id: "v1".to_string() },
        trip: Trip { trip_id: "t".to_string(), start_date: "20240101".to_string(), start_time: "08:00:00".to_string() },
        timestamp: 0,
    };
    assert_eq!(count.occupancy_key(), "smartrakGtfs:occupancyStatus:v1:t:20240101:08:00:00");
    match count.occupancy_action() {
        OccupancyAction::Store { key, status, ttl } => {
            assert_eq!(key, "smartrakGtfs:occupancyStatus:v1:t:20240101:08:00:00");
            assert_eq!(status, "FULL");
            assert_eq!(ttl, OCCUPANCY_STATUS_TTL);
            assert_eq!(ttl, 10_800);
        }
        OccupancyAction::Remove { .. } => panic!("should store"),
    }
    count.occupancy_status = None;
    assert!(matches!(count.occupancy_action(), OccupancyAction::Remove { .. }));
}

#[test]
fn replies() {
    assert_eq!(set_trip_reply().message, "Ok");
    assert_eq!(reset_reply().process, 0);
}

#[test]
fn avl_tags() {
    assert!(caf_tag_allows(None));
    assert!(caf_tag_allows(Some("CAF")));
    assert!(!caf_tag_allows(Some("smartrak")));
    assert!(train_tag_allows(Some("SmarTrak")));
    assert!(!train_tag_allows(Some("caf")));
    assert!(train_tag_allows(None));
}

#[test]
fn adapter_event_codes() {
    assert_eq!(AdapterEventType::Location.code(), 0);
    assert_eq!(AdapterEventType::SerialData.code(), 1);
    assert_eq!(AdapterEventType::default(), AdapterEventType::Location);
}
