//! Parts of SmarTrak events and passenger count events.

use vstd::prelude::*;
use crate::text::{opt_view, trim, trim_spec};
use crate::decimal::{parse_i64, parse_i64_spec};
use crate::smartrak_gtfs::handlers::{parse_rfc3339, rfc3339_seconds};

verus! {

/// SmarTrak event type.
#[derive(Clone, Copy, Debug, Default, PartialEq, Eq, Structural)]
pub enum EventType {
    #[default]
    Location,
    SerialData,
    Unknown,
}

/// Remote data of an event.
#[derive(Clone, Debug, Default)]
pub struct RemoteData {
    pub remote_id: Option<u64>,
    pub remote_name: Option<String>,
    pub external_id: Option<String>,
}

/// Serial data of an event.
#[derive(Clone, Debug, Default)]
pub struct SerialData {
    pub source: Option<u64>,
    pub serial_bytes: Option<String>,
    pub decoded_serial_data: Option<DecodedSerialData>,
}

/// Decoded serial data of an event.
#[derive(Clone, Debug, Default)]
pub struct DecodedSerialData {
    pub line_id: Option<String>,
    pub trip_number: Option<String>,
    pub trip_id: Option<String>,
    pub start_at: Option<String>,
    pub passengers_number: Option<u32>,
    pub driver_id: Option<String>,
    pub trip_active: Option<bool>,
    pub trip_ended: Option<bool>,
    pub has_trip_ended_flag: Option<bool>,
    pub tag_ons: Option<u32>,
    pub tag_offs: Option<u32>,
    pub cash_fares: Option<u32>,
}

/// Passenger count event.
#[derive(Clone, Debug, Default)]
pub struct PassengerCountEvent {
    pub occupancy_status: Option<String>,
    pub vehicle: PassengerVehicle,
    pub trip: PassengerTrip,
    pub timestamp: Option<i64>,
}

/// Vehicle of a passenger count event.
#[derive(Clone, Debug, Default)]
pub struct PassengerVehicle {
    pub id: String,
}

/// Trip of a passenger count event.
#[derive(Clone, Debug, Default)]
pub struct PassengerTrip {
    pub trip_id: String,
    pub route_id: String,
    pub start_date: String,
    pub start_time: String,
}

/// A present, non-empty string.
pub open spec fn filled(o: Option<String>) -> Option<Seq<char>> {
    match o {
        Some(s) => if s@.len() > 0 { Some(s@) } else { None },
        None => None,
    }
}

impl RemoteData {
    /// The best effort vehicle identifier: the external ID when present
    /// and not empty, else the remote name.
    pub fn vehicle_id_or_label(&self) -> (r: Option<&str>)
        ensures
            match r {
                Some(s) => match filled(self.external_id) {
                    Some(e) => s@ == e,
                    None => opt_view(self.remote_name) == Some(s@),
                },
                None => filled(self.external_id) is None && self.remote_name is None,
            },
    {
        if let Some(id) = &self.external_id {
            if !id.as_str().is_empty() {
                return Some(id.as_str());
            }
        }
        match &self.remote_name {
            Some(n) => Some(n.as_str()),
            None => None,
        }
    }
}

impl DecodedSerialData {
    /// The trip identifier: the trip ID when present and not empty, else
    /// the trip number when present and not empty.
    pub fn trip_identifier(&self) -> (r: Option<&str>)
        ensures
            match r {
                Some(s) => match filled(self.trip_id) {
                    Some(t) => s@ == t,
                    None => filled(self.trip_number) == Some(s@),
                },
                None => filled(self.trip_id) is None && filled(self.trip_number) is None,
            },
    {
        if let Some(id) = &self.trip_id {
            if !id.as_str().is_empty() {
                return Some(id.as_str());
            }
        }
        if let Some(n) = &self.trip_number {
            if !n.as_str().is_empty() {
                return Some(n.as_str());
            }
        }
        None
    }
}


/// The earliest Unix time chrono can hold (January 1, 262144 BCE).
pub const MIN_UTC_SECONDS: i64 = -8334601228800;

/// The latest Unix time chrono can hold (December 31, 262142 CE,
/// 23:59:59).
pub const MAX_UTC_SECONDS: i64 = 8210266876799;

/// `Utc.timestamp_opt(secs, 0).single()`: the time when chrono can hold it.
pub open spec fn utc_seconds_spec(secs: i64) -> Option<i64> {
    if MIN_UTC_SECONDS <= secs <= MAX_UTC_SECONDS { Some(secs) } else { None }
}

/// The UTC time of a Unix time, when chrono can hold it.
pub fn utc_seconds(secs: i64) -> (r: Option<i64>)
    ensures
        r == utc_seconds_spec(secs),
{
    if MIN_UTC_SECONDS <= secs && secs <= MAX_UTC_SECONDS { Some(secs) } else { None }
}

/// When a SmarTrak event was sent.
#[derive(Clone, Copy, Debug, Default)]
pub struct MessageData {
    /// Unix time.
    pub timestamp: Option<i64>,
    pub message_id: Option<u64>,
}

/// An event's timestamp as it comes in the JSON: absent or `null`, an
/// integer, or a string. (A floating-point number is read by truncating it
/// to an `i64`.)
#[derive(Clone, Debug)]
pub enum TimestampInput {
    Absent,
    Signed(i64),
    Unsigned(u64),
    Text(String),
}

/// The time a timestamp input stands for: nothing when absent; an integer as
/// Unix seconds (an unsigned one taken as `i64` bit for bit), nothing when
/// chrono cannot hold it; a string that is blank after trimming is nothing,
/// else an RFC 3339 date-time, else Unix seconds in decimal that chrono can
/// hold; any other string is refused (`Err`).
pub open spec fn timestamp_input_spec(input: TimestampInput) -> Result<Option<i64>, ()> {
    match input {
        TimestampInput::Absent => Ok(None),
        TimestampInput::Signed(v) => Ok(utc_seconds_spec(v)),
        TimestampInput::Unsigned(v) => Ok(utc_seconds_spec(v as i64)),
        TimestampInput::Text(s) => {
            if trim_spec(s@).len() == 0 {
                Ok(None)
            } else if rfc3339_seconds(s@) is Some {
                Ok(rfc3339_seconds(s@))
            } else {
                match parse_i64_spec(s@) {
                    Some(secs) if utc_seconds_spec(secs) is Some => Ok(utc_seconds_spec(secs)),
                    _ => Err(()),
                }
            }
        },
    }
}

/// Reads an event's timestamp.
pub fn read_timestamp(input: &TimestampInput) -> (r: Result<Option<i64>, ()>)
    ensures
        r == timestamp_input_spec(*input),
{
    match input {
        TimestampInput::Absent => Ok(None),
        TimestampInput::Signed(v) => Ok(utc_seconds(*v)),
        TimestampInput::Unsigned(v) => Ok(utc_seconds(*v as i64)),
        TimestampInput::Text(s) => {
            if trim(s.as_str()).as_str().is_empty() {
                return Ok(None);
            }
            if let Ok(t) = parse_rfc3339(s.as_str()) {
                return Ok(Some(t));
            }
            if let Some(secs) = parse_i64(s.as_str()) {
                if let Some(t) = utc_seconds(secs) {
                    return Ok(Some(t));
                }
            }
            Err(())
        },
    }
}

} // verus!
