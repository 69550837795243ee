//! Topic routing of incoming SmarTrak payloads.

use vstd::prelude::*;
use crate::smartrak_gtfs::models::VehicleInfo;
use crate::smartrak_gtfs::model::events::EventType;
use crate::text::{ascii_lowercase, chars_contain, seq_contains, to_ascii_lowercase, to_chars};

verus! {

/// Whether the vehicle's events on `topic` are processed: passenger count
/// and R9K topics always; the CAF topic only for vehicles tagged `caf`;
/// the SmarTrak bus and train topics only for vehicles tagged `smartrak`;
/// nothing else. Topic and tag are compared without ASCII case.
pub open spec fn topic_allows(topic: Seq<char>, tag: Option<Seq<char>>) -> bool {
    let t = ascii_lowercase(topic);
    let lowered = match tag {
        Some(x) => Some(ascii_lowercase(x)),
        None => None,
    };
    if seq_contains(t, "realtime-passenger-count"@) {
        true
    } else if seq_contains(t, "realtime-caf-avl"@) {
        lowered == Some("caf"@)
    } else if seq_contains(t, "realtime-r9k-to-smartrak"@) {
        true
    } else if seq_contains(t, "realtime-smartrak-bus-avl"@) || seq_contains(t, "realtime-smartrak-train-avl"@) {
        lowered == Some("smartrak"@)
    } else {
        false
    }
}

fn lowered_contains(topic: &Vec<char>, marker: &str) -> (r: bool)
    ensures
        r == seq_contains(topic@, marker@),
{
    let m = to_chars(marker);
    chars_contain(topic, &m)
}

/// Whether the vehicle's events on `topic` are processed.
pub fn should_process_topic(topic: &str, vehicle: &VehicleInfo) -> (r: bool)
    ensures
        r == topic_allows(topic@, crate::text::opt_view(vehicle.tag)),
{
    let lowered = to_ascii_lowercase(topic);
    let t = to_chars(lowered.as_str());
    let tag: Option<String> = match &vehicle.tag {
        Some(x) => Some(to_ascii_lowercase(x.as_str())),
        None => None,
    };
    let tag_is = |expected: &str| -> (b: bool)
        ensures
            b == (match tag { Some(x) => x@ == expected@, None => false }),
        {
            match &tag {
                Some(x) => crate::text::str_eq(x.as_str(), expected),
                None => false,
            }
        };
    if lowered_contains(&t, "realtime-passenger-count") {
        return true;
    }
    if lowered_contains(&t, "realtime-caf-avl") {
        return tag_is("caf");
    }
    if lowered_contains(&t, "realtime-r9k-to-smartrak") {
        return true;
    }
    if lowered_contains(&t, "realtime-smartrak-bus-avl") || lowered_contains(&t, "realtime-smartrak-train-avl") {
        return tag_is("smartrak");
    }
    false
}

/// A serialized message ready for publication.
#[derive(Clone, Debug, PartialEq, Eq)]
pub struct SerializedMessage {
    pub topic: String,
    pub key: String,
    pub payload: Vec<u8>,
}

impl SerializedMessage {
    /// A message for a topic, with its key and payload.
    pub fn new(topic: String, key: String, payload: Vec<u8>) -> (r: SerializedMessage)
        ensures
            r.topic == topic,
            r.key == key,
            r.payload == payload,
    {
        SerializedMessage { topic, key, payload }
    }
}

/// Outcome of processing a payload.
#[derive(Clone, Debug)]
pub enum WorkflowOutcome {
    /// Nothing to publish.
    NoOp,
    /// Messages to publish.
    Messages(Vec<SerializedMessage>),
}

/// The outcome for the messages produced: nothing to publish when there
/// are none.
pub fn outcome_of(messages: Vec<SerializedMessage>) -> (r: WorkflowOutcome)
    ensures
        messages.len() == 0 ==> r is NoOp,
        messages.len() > 0 ==> r == WorkflowOutcome::Messages(messages),
{
    if messages.len() == 0 {
        WorkflowOutcome::NoOp
    } else {
        WorkflowOutcome::Messages(messages)
    }
}


/// What a payload on a topic is processed as.
#[derive(Clone, Copy, Debug, PartialEq, Eq, Structural)]
pub enum Route {
    /// A passenger count, stored for later vehicle positions.
    PassengerCount,
    /// Serial data: God Mode, then the trip allocation.
    SerialData,
    /// A location event.
    Location,
    /// Nothing is done.
    Ignore,
}

/// Payloads on a topic that names passenger counts are passenger counts;
/// other payloads are SmarTrak events, processed by their type.
pub open spec fn route_spec(topic: Seq<char>, event_type: EventType) -> Route {
    if seq_contains(topic, "realtime-passenger-count"@) {
        Route::PassengerCount
    } else {
        match event_type {
            EventType::SerialData => Route::SerialData,
            EventType::Location => Route::Location,
            EventType::Unknown => Route::Ignore,
        }
    }
}

/// Whether payloads on the topic are passenger counts.
pub fn is_passenger_topic(topic: &str) -> (r: bool)
    ensures
        r == seq_contains(topic@, "realtime-passenger-count"@),
{
    crate::text::contains(topic, "realtime-passenger-count")
}

/// How a SmarTrak event on a topic that is not a passenger count topic is
/// processed.
pub fn route(topic: &str, event_type: EventType) -> (r: Route)
    ensures
        r == route_spec(topic@, event_type),
{
    if is_passenger_topic(topic) {
        return Route::PassengerCount;
    }
    match event_type {
        EventType::SerialData => Route::SerialData,
        EventType::Location => Route::Location,
        EventType::Unknown => Route::Ignore,
    }
}


/// A payload on a passenger count topic is a passenger count; on any other
/// topic a location event is processed as a location, serial data as
/// serial data, and an event of unknown type is ignored.
pub proof fn route_by_type(topic: Seq<char>, event_type: EventType)
    ensures
        seq_contains(topic, "realtime-passenger-count"@) ==> route_spec(topic, event_type) == Route::PassengerCount,
        !seq_contains(topic, "realtime-passenger-count"@) ==> {
            &&& event_type is Location ==> route_spec(topic, event_type) == Route::Location
            &&& event_type is SerialData ==> route_spec(topic, event_type) == Route::SerialData
            &&& event_type is Unknown ==> route_spec(topic, event_type) == Route::Ignore
        },
{
}


/// Passenger count and R9K topics are always processed; the CAF topic only
/// for vehicles tagged `caf` and the SmarTrak bus and train topics only for
/// vehicles tagged `smartrak` (in any ASCII case); a topic with none of
/// these markers never is.
pub proof fn topics_processed(topic: Seq<char>, tag: Option<Seq<char>>)
    ensures
        seq_contains(ascii_lowercase(topic), "realtime-passenger-count"@) ==> topic_allows(topic, tag),
        seq_contains(ascii_lowercase(topic), "realtime-r9k-to-smartrak"@)
            && !seq_contains(ascii_lowercase(topic), "realtime-caf-avl"@) ==> topic_allows(topic, tag),
        tag is None && !seq_contains(ascii_lowercase(topic), "realtime-passenger-count"@)
            && !seq_contains(ascii_lowercase(topic), "realtime-r9k-to-smartrak"@) ==> !topic_allows(topic, tag),
        !seq_contains(ascii_lowercase(topic), "realtime-passenger-count"@)
            && !seq_contains(ascii_lowercase(topic), "realtime-caf-avl"@)
            && !seq_contains(ascii_lowercase(topic), "realtime-r9k-to-smartrak"@)
            && !seq_contains(ascii_lowercase(topic), "realtime-smartrak-bus-avl"@)
            && !seq_contains(ascii_lowercase(topic), "realtime-smartrak-train-avl"@) ==> !topic_allows(topic, tag),
        seq_contains(ascii_lowercase(topic), "realtime-caf-avl"@)
            && !seq_contains(ascii_lowercase(topic), "realtime-passenger-count"@)
            ==> (topic_allows(topic, tag) <==> tag is Some && ascii_lowercase(tag.unwrap()) == "caf"@),
{
}

} // verus!
