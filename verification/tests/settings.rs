use at_realtime::smartrak_gtfs::config::{bool_setting, int_setting, list_setting, Keys, Topics};

#[test]
fn list_settings() {
    assert_eq!(list_setting(" a , b,,c ,"), vec!["a".to_string(), "b".to_string(), "c".to_string()]);
    assert!(list_setting("").is_empty());
    assert!(list_setting(" , ").is_empty());
}

#[test]
fn scalar_settings() {
    assert!(bool_setting("TRUE"));
    assert!(bool_setting("yes"));
    assert!(bool_setting("1"));
    assert!(!bool_setting(" true"));
    assert_eq!(int_setting(Some("3600"), 7), 3600);
    assert_eq!(int_setting(Some("-5"), 7), -5);
    assert_eq!(int_setting(Some("1h"), 7), 7);
    assert_eq!(int_setting(None, 7), 7);
}

#[test]
fn configured_state_keys() {
    let keys = Keys::defaults();
    assert_eq!(keys.trip_key("v1"), "smartrakGtfs:trip:vehicle:v1");
    assert_eq!(keys.sign_on_key("v1"), "smartrakGtfs:vehicle:signOn:v1");
    assert_eq!(keys.passenger_count_key("v", "t", "d", "s"), "smartrakGtfs:passengerCountEvent:v:t:d:s");
    assert_eq!(keys.fleet_key_by_label("AM 1"), "smartrakGtfs:fleet:label:AM 1");
    assert_eq!(keys.fleet_key_by_id("59"), "smartrakGtfs:fleet:vehicleId:59");
    assert_eq!(keys.fleet_capacity_key("59", "STH"), "smartrakGtfs:fleet:capacityBasedOnRouteId:59:STH");
    assert_eq!(keys.block_key("59"), "smartrakGtfs:blockManagement:59");
    assert_eq!(keys.trip_mgt_key("t1", "20240101"), "smartrakGtfs:tripManagement:t1:20240101");
}

#[test]
fn topic_markers() {
    let topics = Topics {
        passenger_count_markers: vec!["passenger".to_string()],
        caf_markers: vec!["caf".to_string()],
        smartrak_markers: vec!["bus-avl".to_string(), "train-avl".to_string()],
        passthrough_markers: Vec::new(),
        vehicle_position: None,
        dead_reckoning: None,
    };
    assert!(topics.matches_passenger_topic("realtime-passenger-count.v1"));
    assert!(topics.matches_smartrak_topic("realtime-smartrak-train-avl.v1"));
    assert!(!topics.matches_caf_topic("realtime-smartrak-train-avl.v1"));
    assert!(!topics.matches_passthrough_topic("anything"));
}
