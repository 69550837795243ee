//! Records of the R9K position adapter: the keys it fetches source data by,
//! and the parts of SmarTrak events it reads that hold no coordinates.

use vstd::prelude::*;

verus! {

/// SmarTrak event type.
#[derive(Clone, Copy, Debug, Default, PartialEq, Eq, Structural)]
pub enum EventType {
    /// Location event.
    #[default]
    Location,
    /// Serial data event.
    SerialData,
}

impl EventType {
    /// The number an event type is written as.
    pub fn code(&self) -> (r: u8)
        ensures
            r == match self { EventType::Location => 0u8, EventType::SerialData => 1u8 },
    {
        match self {
            EventType::Location => 0,
            EventType::SerialData => 1,
        }
    }
}

/// Key for caching and fetching source data.
#[derive(Clone, Debug, PartialEq, Eq)]
pub enum Key {
    /// Stop information of a stop code.
    StopInfo(String),
    /// Block Management data of a train.
    BlockMgt(String),
}

/// Remote data associated with an event.
#[derive(Clone, Debug, Default)]
pub struct RemoteData {
    pub remote_id: u64,
    pub remote_name: String,
    pub external_id: String,
}

/// Serial data associated with an event.
#[derive(Clone, Debug, Default)]
pub struct SerialData {
    pub source: u64,
    pub serial_bytes: String,
    pub decoded: Option<DecodedSerialData>,
}

/// Decoded serial data of an event.
#[derive(Clone, Debug, Default)]
pub struct DecodedSerialData {
    pub line_id: String,
    pub trip_number: String,
    pub start_at: String,
    pub passengers_number: u32,
    pub driver_id: String,
    pub trip_active: bool,
    pub trip_ended: bool,
    pub has_trip_ended_flag: bool,
    pub tag_ons: u32,
    pub tag_offs: u32,
    pub cash_fares: u32,
}

} // verus!
