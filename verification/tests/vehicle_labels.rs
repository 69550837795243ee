use at_realtime::smartrak_gtfs::block_mgt::{allocation_uri, vehicles_uri, VehicleIdentifier};
use at_realtime::smartrak_gtfs::fleet::{maybe_train_label, vehicle_query};

#[test]
fn block_mgt_am_label() {
    let identifier: VehicleIdentifier = "AM123".parse().expect("valid label");
    assert_eq!(identifier, VehicleIdentifier::Label("AM         123".to_string()));
    let VehicleIdentifier::Label(s) = identifier else {
        panic!("Expected VehicleIdentifier::Label");
    };
    assert_eq!(s.len(), 14);
}

#[test]
fn block_mgt_amp_label() {
    let identifier: VehicleIdentifier = "AMP123".parse().expect("valid label");
    assert_eq!(identifier, VehicleIdentifier::Label("AMP        123".to_string()));
    let VehicleIdentifier::Label(s) = identifier else {
        panic!("Expected VehicleIdentifier::Label");
    };
    assert_eq!(s.len(), 14);
}

#[test]
fn block_mgt_already_padded() {
    let identifier: VehicleIdentifier = "AMP        123".parse().expect("valid label");
    assert_eq!(identifier, VehicleIdentifier::Label("AMP        123".to_string()));
    let VehicleIdentifier::Label(s) = identifier else {
        panic!("Expected VehicleIdentifier::Label");
    };
    assert_eq!(s.len(), 14);
}

#[test]
fn block_mgt_invalid_label() {
    assert_eq!("TRAIN".parse::<VehicleIdentifier>().unwrap(), VehicleIdentifier::Id("TRAIN".to_string()));
}

#[test]
fn fleet_am_label() {
    let got = maybe_train_label("AM123").expect("label should be padded");
    assert_eq!(got, "AM         123");
    assert_eq!(got.len(), 14);
}

#[test]
fn fleet_amp_label() {
    let got = maybe_train_label("AMP123").expect("label should be padded");
    assert_eq!(got, "AMP        123");
    assert_eq!(got.len(), 14);
}

#[test]
fn fleet_already_padded() {
    let got = maybe_train_label("AMP        123").expect("label should be padded");
    assert_eq!(got, "AMP        123");
    assert_eq!(got.len(), 14);
}

#[test]
fn fleet_invalid_label() {
    assert_eq!(maybe_train_label("TRAIN"), None);
    assert_eq!(maybe_train_label(""), None);
}

#[test]
fn queries_are_percent_encoded() {
    assert_eq!(VehicleIdentifier::parse("AM12").to_query(), "label=AM%20%20%20%20%20%20%20%20%20%2012");
    assert_eq!(VehicleIdentifier::parse("bus 7/a").to_query(), "id=bus%207%2Fa");
    assert_eq!(vehicle_query("AMP1"), "label=AMP%20%20%20%20%20%20%20%20%20%201");
    assert_eq!(vehicle_query("x&y"), "id=x%26y");
}

#[test]
fn request_uris() {
    assert_eq!(
        vehicles_uri("https://fleet.example//", &VehicleIdentifier::Id("42".to_string())),
        "https://fleet.example/vehicles?id=42"
    );
    assert_eq!(
        allocation_uri("https://blocks.example", "59", -3),
        "https://blocks.example/allocations/vehicles/59?currentTrip=true&siblings=true&nowUnixTimeSeconds=-3"
    );
}

#[test]
fn labels_read_again_unchanged() {
    for text in ["AM123", "AMP45", "AM", "AMP", "AMXYZ1234567890123"] {
        let VehicleIdentifier::Label(label) = VehicleIdentifier::parse(text) else { panic!("should be a label") };
        assert_eq!(label.chars().count(), text.chars().count().max(14));
        assert_eq!(VehicleIdentifier::parse(&label), VehicleIdentifier::Label(label.clone()));
    }
    assert_eq!(VehicleIdentifier::parse("A123"), VehicleIdentifier::Id("A123".to_string()));
    assert_eq!(VehicleIdentifier::parse("XAM1"), VehicleIdentifier::Id("XAM1".to_string()));
}
