use at_realtime::smartrak_gtfs::models::{VehicleCapacity, VehicleInfo, VehicleType};
use at_realtime::smartrak_gtfs::workflow::should_process_topic;

fn vehicle_with_tag(tag: Option<&str>) -> VehicleInfo {
    VehicleInfo {
        id: "veh".to_string(),
        label: None,
        registration: None,
        capacity: VehicleCapacity::default(),
        vehicle_type: VehicleType::default(),
        tag: tag.map(std::string::ToString::to_string),
    }
}

#[test]
fn allows_passenger_count_topic() {
    let vehicle = vehicle_with_tag(None);
    assert!(should_process_topic("realtime-passenger-count.v1", &vehicle));
}

#[test]
fn allows_r9k_topic_without_tag() {
    let vehicle = vehicle_with_tag(None);
    assert!(should_process_topic("realtime-r9k-to-smartrak.v1", &vehicle));
}

#[test]
fn requires_smartrak_tag_for_bus_and_train_topics() {
    let no_tag = vehicle_with_tag(None);
    assert!(!should_process_topic("realtime-smartrak-bus-avl.v1", &no_tag));

    let smartrak_tag = vehicle_with_tag(Some("SmArTrAk"));
    assert!(should_process_topic("realtime-smartrak-train-avl.v1", &smartrak_tag));
}

#[test]
fn requires_caf_tag_for_caf_topic() {
    let non_caf = vehicle_with_tag(Some("smartrak"));
    assert!(!should_process_topic("realtime-caf-avl.v1", &non_caf));

    let caf_tag = vehicle_with_tag(Some("CAF"));
    assert!(should_process_topic("realtime-caf-avl.v1", &caf_tag));
}

#[test]
fn rejects_unknown_topics() {
    let vehicle = vehicle_with_tag(Some("smartrak"));
    assert!(!should_process_topic("realtime-unknown-topic", &vehicle));
}

#[test]
fn topic_case_is_ignored() {
    let vehicle = vehicle_with_tag(Some("caf"));
    assert!(should_process_topic("REALTIME-CAF-AVL.V1", &vehicle));
}
