use at_realtime::smartrak_gtfs::service::{MessageBuilder, MessageRouting, ProcessingOutcome, ProducedMessage};
use at_realtime::smartrak_gtfs::workflow::{outcome_of, SerializedMessage, WorkflowOutcome};

#[test]
fn serializes_to_topics() {
    let builder = MessageBuilder::new("vp".to_string(), "dr".to_string());
    let out = builder.serialize(vec![
        ProducedMessage::VehiclePosition { topic: String::new(), payload: "{\"a\":1}".to_string(), key: "k1".to_string() },
        ProducedMessage::DeadReckoning { topic: "custom".to_string(), payload: "é".to_string(), key: "k2".to_string() },
        ProducedMessage::DeadReckoning { topic: String::new(), payload: String::new(), key: "k3".to_string() },
    ]);
    assert_eq!(out.len(), 3);
    assert_eq!(out[0], SerializedMessage::new("vp".to_string(), "k1".to_string(), b"{\"a\":1}".to_vec()));
    assert_eq!(out[1].topic, "custom");
    assert_eq!(out[1].payload, vec![0xc3, 0xa9]);
    assert_eq!(out[2].topic, "dr");
}

#[test]
fn routing_and_outcomes() {
    let routing = MessageRouting::from_topic("passengers".to_string());
    assert!(routing.is_passenger("passengers"));
    assert!(!routing.is_passenger("passengers.v2"));

    let skipped = ProcessingOutcome::of_produced(Vec::new());
    assert!(skipped.skipped);
    let produced = ProcessingOutcome::of_produced(vec![SerializedMessage::new("t".to_string(), "k".to_string(), vec![1])]);
    assert!(!produced.skipped);
    assert_eq!(produced.produced.len(), 1);
    assert_eq!(ProcessingOutcome::passenger().passenger_updates, 1);
    assert_eq!(ProcessingOutcome::empty().passenger_updates, 0);

    assert!(matches!(outcome_of(Vec::new()), WorkflowOutcome::NoOp));
    assert!(matches!(outcome_of(vec![SerializedMessage::new("t".to_string(), "k".to_string(), vec![])]), WorkflowOutcome::Messages(_)));
}
