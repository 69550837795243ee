use at_realtime::r9k_http::{handle_message, R9kResponse};
use at_realtime::r9k_position::error::Error;
use at_realtime::r9k_position::r9k::{
    parse_created_date, Change, ChangeType, CivilDate, Direction, R9kMessage, StopType, TrainType, TrainUpdate,
};
use at_realtime::r9k_position::smartrak::{external_id_of, external_ids, EventPlan};
use at_realtime::r9k_position::stops::{departs_elsewhere, station_stop_code};

fn change(change_type: ChangeType, station: u32, departed: Option<i32>, arrived: Option<i32>) -> Change {
    Change {
        change_type,
        station,
        entry_id: String::new(),
        arrival_time: 0,
        actual_arrival_time: arrived.unwrap_or(-1),
        has_arrived: arrived.is_some(),
        arrival_delay: 0,
        departure_time: 0,
        actual_departure_time: departed.unwrap_or(-1),
        has_departed: departed.is_some(),
        departure_delay: 0,
        detention_time: 0,
        detention_duration: 0,
        platform: String::new(),
        exit_line: String::new(),
        train_direction: Direction::Right,
        stop_type: StopType::Original,
        parity: String::new(),
    }
}

fn update(changes: Vec<Change>) -> TrainUpdate {
    TrainUpdate {
        even_train_id: Some("1234".to_string()),
        odd_train_id: Some("1235".to_string()),
        created_date: CivilDate { year: 2025, month: 10, day: 7 },
        registration_number: String::new(),
        train_type: TrainType::Metro,
        train_type_code: String::new(),
        full_train: None,
        source: String::new(),
        changes,
    }
}

#[test]
fn validation_windows() {
    let midnight = Some(1_759_748_400);
    let u = update(vec![change(ChangeType::ArrivedAtStation, 0, None, Some(36_000))]);
    let event = 1_759_748_400 + 36_000;
    assert_eq!(u.validate_at(midnight, event + 60), Ok(()));
    assert_eq!(u.validate_at(midnight, event - 30), Ok(()));
    assert_eq!(
        u.validate_at(midnight, event + 61),
        Err(Error::Outdated("message delayed by 61 seconds".to_string()))
    );
    assert_eq!(
        u.validate_at(midnight, event - 31),
        Err(Error::WrongTime("message ahead by -31 seconds".to_string()))
    );
    assert_eq!(
        u.validate_at(None, event),
        Err(Error::WrongTime("invalid local time: 2025-10-07 00:00:00".to_string()))
    );
}

#[test]
fn validation_needs_actual_times() {
    assert_eq!(update(Vec::new()).validate_at(Some(0), 0), Err(Error::NoUpdate));
    assert_eq!(update(Vec::new()).validate(), Err(Error::NoUpdate));
    let none = update(vec![change(ChangeType::ExitedStation, 0, None, None)]);
    assert_eq!(none.validate_at(Some(0), 0), Err(Error::NoActualUpdate));
    let zero = update(vec![change(ChangeType::ExitedStation, 0, Some(0), Some(10))]);
    assert_eq!(zero.validate_at(Some(0), 0), Err(Error::NoActualUpdate));
}

#[test]
fn train_ids() {
    let mut u = update(Vec::new());
    assert_eq!(u.train_id(), "1234");
    u.even_train_id = None;
    assert_eq!(u.train_id(), "1235");
    u.odd_train_id = None;
    assert_eq!(u.train_id(), "");
}

#[test]
fn event_plans() {
    let arrival = update(vec![change(ChangeType::ArrivedAtStation, 19, None, Some(1))]);
    assert_eq!(
        arrival.plan_events(),
        EventPlan::Locate { stop_code: "9218".to_string(), is_arrival: true, train_id: "1234".to_string() }
    );
    let departure = update(vec![change(ChangeType::ExitedStation, 40, Some(1), None)]);
    assert_eq!(
        departure.plan_events(),
        EventPlan::Locate { stop_code: "134".to_string(), is_arrival: false, train_id: "1234".to_string() }
    );
    let detained = update(vec![change(ChangeType::DetainedAtStation, 0, Some(1), None)]);
    assert_eq!(detained.plan_events(), EventPlan::NotRelevant);
    let elsewhere = update(vec![change(ChangeType::ArrivedAtStation, 7, None, Some(1))]);
    assert_eq!(elsewhere.plan_events(), EventPlan::NotActiveStation);
}

#[test]
fn stops_and_vehicles() {
    assert_eq!(station_stop_code(0), Some("133"));
    assert_eq!(station_stop_code(1), None);
    assert!(departs_elsewhere("9218"));
    assert!(!departs_elsewhere("100"));
    assert_eq!(external_id_of("AMP        123"), "AMP123");
    assert_eq!(external_ids(&vec!["AM 1".to_string(), "X".to_string()]), vec!["AM1".to_string(), "X".to_string()]);
}

#[test]
fn change_type_codes() {
    assert_eq!(ChangeType::ReachedFinalDestination.code(), 2);
    assert_eq!(ChangeType::from_code(11), Some(ChangeType::ScheduleChange));
    assert_eq!(ChangeType::from_code(12), None);
    assert!(ChangeType::ExitedFirstStation.is_relevant());
    assert!(!ChangeType::PlatformChange.is_relevant());
    assert!(ChangeType::ReachedFinalDestination.is_arrival());
}

#[test]
fn http_replies() {
    let message = R9kMessage { train_update: update(vec![change(ChangeType::ExitedStation, 0, Some(1), None)]) };
    assert!(matches!(handle_message(&message), R9kResponse::Accepted { .. }));
}

#[test]
fn decimal_text_reads_back() {
    use_decimal_round_trip(0);
    use_decimal_round_trip(-42);
    use_decimal_round_trip(i64::MIN);
    use_decimal_round_trip(i64::MAX);
}

fn use_decimal_round_trip(n: i64) {
    let text = at_realtime::decimal::i64_to_string(n);
    assert_eq!(text, n.to_string());
    assert_eq!(at_realtime::decimal::parse_i64(&text), Some(n));
}

#[test]
fn created_date_is_read_day_first() {
    assert_eq!(parse_created_date("07/10/2025"), Ok(CivilDate { year: 2025, month: 10, day: 7 }));
    assert_eq!(parse_created_date("29/02/2024"), Ok(CivilDate { year: 2024, month: 2, day: 29 }));
    assert!(parse_created_date("29/02/2025").is_err());
    assert!(parse_created_date("2025-10-07").is_err());
    assert!(parse_created_date("").is_err());
}

#[test]
fn invalid_local_time_texts() {
    let changes = vec![change(ChangeType::ArrivedAtStation, 0, None, Some(36_000))];
    let mut u = update(changes);
    u.created_date = CivilDate { year: 12, month: 3, day: 4 };
    assert_eq!(u.validate_at(None, 0), Err(Error::WrongTime("invalid local time: 0012-03-04 00:00:00".to_string())));
    u.created_date = CivilDate { year: -5, month: 1, day: 2 };
    assert_eq!(u.validate_at(None, 0), Err(Error::WrongTime("invalid local time: -0005-01-02 00:00:00".to_string())));
    u.created_date = CivilDate { year: 12345, month: 12, day: 31 };
    assert_eq!(u.validate_at(None, 0), Err(Error::WrongTime("invalid local time: +12345-12-31 00:00:00".to_string())));
    u.created_date = CivilDate { year: 2025, month: 2, day: 30 };
    assert_eq!(u.validate_at(None, 0), Err(Error::WrongTime("invalid local time: 1970-01-01 00:00:00".to_string())));
}

#[test]
fn train_types_by_text() {
    assert_eq!(TrainType::from_text("METRO"), Some(TrainType::Metro));
    assert_eq!(TrainType::from_text("EXMETRO"), Some(TrainType::Exmetro));
    assert_eq!(TrainType::from_text("FREIGHT"), Some(TrainType::Freight));
    assert_eq!(TrainType::from_text("metro"), None);
    assert_eq!(TrainType::from_text(""), None);
}
