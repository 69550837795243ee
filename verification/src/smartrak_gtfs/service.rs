//! Routing of Kafka records and the messages that processing them produces.

use vstd::prelude::*;
use vstd::string::StrSliceExecFns;
use vstd::utf8::encode_utf8;
use crate::smartrak_gtfs::workflow::SerializedMessage;
use crate::text::str_eq;

verus! {

/// A message produced by processing an event, before serialization.
#[derive(Clone, Debug)]
pub enum ProducedMessage {
    VehiclePosition { topic: String, payload: String, key: String },
    DeadReckoning { topic: String, payload: String, key: String },
}

/// Outcome of processing an incoming Kafka record.
#[derive(Debug)]
pub struct ProcessingOutcome {
    pub produced: Vec<SerializedMessage>,
    pub passenger_updates: usize,
    pub skipped: bool,
}

impl ProcessingOutcome {
    /// Nothing produced, nothing updated, nothing skipped.
    pub fn empty() -> (r: ProcessingOutcome)
        ensures
            r.produced@.len() == 0,
            r.passenger_updates == 0,
            !r.skipped,
    {
        ProcessingOutcome { produced: Vec::new(), passenger_updates: 0, skipped: false }
    }

    /// The outcome of a passenger count record: one update.
    pub fn passenger() -> (r: ProcessingOutcome)
        ensures
            r.produced@.len() == 0,
            r.passenger_updates == 1,
            !r.skipped,
    {
        ProcessingOutcome { produced: Vec::new(), passenger_updates: 1, skipped: false }
    }

    /// The outcome of a SmarTrak record: skipped when it produced nothing,
    /// else the messages it produced.
    pub fn of_produced(produced: Vec<SerializedMessage>) -> (r: ProcessingOutcome)
        ensures
            produced@.len() == 0 ==> r.skipped && r.produced@.len() == 0,
            produced@.len() > 0 ==> !r.skipped && r.produced@ == produced@,
            r.passenger_updates == 0,
    {
        if produced.len() == 0 {
            ProcessingOutcome { produced: Vec::new(), passenger_updates: 0, skipped: true }
        } else {
            ProcessingOutcome { produced, passenger_updates: 0, skipped: false }
        }
    }
}

/// Which records carry passenger counts.
#[derive(Clone, Debug)]
pub struct MessageRouting {
    pub passenger_topic: String,
}

impl MessageRouting {
    /// Routing with the configured passenger count topic.
    pub fn from_topic(passenger_topic: String) -> (r: MessageRouting)
        ensures
            r.passenger_topic == passenger_topic,
    {
        MessageRouting { passenger_topic }
    }

    /// A record carries passenger counts when its topic is exactly the
    /// passenger count topic.
    pub fn is_passenger(&self, topic: &str) -> (r: bool)
        ensures
            r == (self.passenger_topic@ == topic@),
    {
        str_eq(self.passenger_topic.as_str(), topic)
    }
}

/// Serializes produced messages for their topics.
#[derive(Clone, Debug)]
pub struct MessageBuilder {
    pub vp_topic: String,
    pub dr_topic: String,
}

/// The message a produced message is published as: its topic, or the
/// configured topic of its kind when it names none; its key; its payload as
/// UTF-8 bytes.
pub open spec fn published(b: MessageBuilder, m: ProducedMessage, s: SerializedMessage) -> bool {
    match m {
        ProducedMessage::VehiclePosition { topic, payload, key } => {
            &&& s.topic@ == (if topic@.len() == 0 { b.vp_topic@ } else { topic@ })
            &&& s.key@ == key@
            &&& s.payload@ == encode_utf8(payload@)
        },
        ProducedMessage::DeadReckoning { topic, payload, key } => {
            &&& s.topic@ == (if topic@.len() == 0 { b.dr_topic@ } else { topic@ })
            &&& s.key@ == key@
            &&& s.payload@ == encode_utf8(payload@)
        },
    }
}

impl MessageBuilder {
    /// A builder with the configured vehicle position and dead-reckoning
    /// topics.
    pub fn new(vp_topic: String, dr_topic: String) -> (r: MessageBuilder)
        ensures
            r.vp_topic == vp_topic,
            r.dr_topic == dr_topic,
    {
        MessageBuilder { vp_topic, dr_topic }
    }

    fn publish(&self, message: &ProducedMessage) -> (r: SerializedMessage)
        ensures
            published(*self, *message, r),
    {
        match message {
            ProducedMessage::VehiclePosition { topic, payload, key } => {
                let resolved = if topic.as_str().is_empty() { self.vp_topic.clone() } else { topic.clone() };
                SerializedMessage::new(resolved, key.clone(), payload.as_str().as_bytes_vec())
            },
            ProducedMessage::DeadReckoning { topic, payload, key } => {
                let resolved = if topic.as_str().is_empty() { self.dr_topic.clone() } else { topic.clone() };
                SerializedMessage::new(resolved, key.clone(), payload.as_str().as_bytes_vec())
            },
        }
    }

    /// Serializes the messages, in order.
    pub fn serialize(&self, messages: Vec<ProducedMessage>) -> (r: Vec<SerializedMessage>)
        ensures
            r@.len() == messages@.len(),
            forall|i: int| 0 <= i < r@.len() ==> published(*self, messages@[i], #[trigger] r@[i]),
    {
        let n = messages.len();
        let mut out: Vec<SerializedMessage> = Vec::new();
        let mut i: usize = 0;
        while i < n
            invariant
                n == messages@.len(),
                0 <= i <= n,
                out@.len() == i,
                forall|j: int| 0 <= j < i ==> published(*self, messages@[j], #[trigger] out@[j]),
            decreases n - i,
        {
            let m = self.publish(&messages[i]);
            out.push(m);
            i = i + 1;
        }
        out
    }
}

} // verus!
