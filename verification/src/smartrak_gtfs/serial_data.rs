//! Serial data events: a driver signing a vehicle on to a trip.
//!
//! The checks on an event, and each step of putting the vehicle on the
//! trip, are decisions on what the application read; the application
//! performs what they answer.

use vstd::prelude::*;
use crate::smartrak_gtfs::SmarTrakError;
use crate::smartrak_gtfs::handlers::{DecodedSerialData, SmarTrakMessage, message_vehicle, rfc3339_seconds};
use crate::smartrak_gtfs::models::TripInstance;
use crate::smartrak_gtfs::model::trip::TripInstance as CachedTrip;
use crate::text::str_eq;
use crate::decimal::{i64_to_string, int_decimal};

verus! {

/// How far ahead of the clock a serial data event may be, in seconds.
pub const SERIAL_DATA_THRESHOLD: i64 = 900;

/// How long a trip set from serial data is kept, in seconds (four hours).
pub const TTL_TRIP_SERIAL_SECS: u64 = 14400;

/// How long a sign-on time is kept, in seconds (a day).
pub const TTL_SIGN_ON_SECS: u64 = 86400;

/// How long the time of a vehicle's latest serial data is kept, in seconds
/// (a day).
pub const TTL_SERIAL_TIMESTAMP_SECS: u64 = 86400;

/// The state key of the time of a vehicle's latest serial data.
pub fn serial_timestamp_key(vehicle_id: &str) -> (r: String)
    ensures
        r@ == "smartrakGtfs:serialTimestamp:"@ + vehicle_id@,
{
    String::from_str("smartrakGtfs:serialTimestamp:").concat(vehicle_id)
}

/// Why a serial data event is refused.
#[derive(Clone, Debug)]
pub enum SerialRejection {
    /// The event is malformed.
    BadRequest(String),
    /// The event's time is not acceptable.
    Time(SmarTrakError),
}

/// An event more than `threshold` seconds ahead of `now` is future-dated.
pub open spec fn future_dated(timestamp: i64, now: i64, threshold: i64) -> bool {
    timestamp > now + threshold
}

/// Checks a serial data event before anything is stored: it must name a
/// vehicle and carry an RFC 3339 time no more than 900 seconds ahead of
/// `now`. Answers the vehicle and the event's Unix time.
pub fn check_event(message: &SmarTrakMessage, now: i64) -> (r: Result<(String, i64), SerialRejection>)
    ensures
        match message_vehicle(*message) {
            None => r matches Err(SerialRejection::BadRequest(m)) && m@ == "missing vehicle identifier"@,
            Some(v) => match rfc3339_seconds(message.message_data.timestamp@) {
                None => r matches Err(SerialRejection::BadRequest(m)) && "invalid timestamp: "@.is_prefix_of(m@),
                Some(ts) => if future_dated(ts, now, SERIAL_DATA_THRESHOLD) {
                    r matches Err(SerialRejection::Time(SmarTrakError::BadTime(m)))
                        && m@ == "future-dated serial data message"@
                } else {
                    r matches Ok((id, t)) && id@ == v && t == ts
                },
            },
        },
{
    let vehicle_id = match message.vehicle_id() {
        Some(v) => String::from_str(v),
        None => return Err(SerialRejection::BadRequest(String::from_str("missing vehicle identifier"))),
    };
    let timestamp = match message.timestamp() {
        Ok(t) => t,
        Err(e) => return Err(SerialRejection::BadRequest(e)),
    };
    if (timestamp as i128) > (now as i128) + (SERIAL_DATA_THRESHOLD as i128) {
        return Err(SerialRejection::Time(SmarTrakError::BadTime(String::from_str("future-dated serial data message"))));
    }
    Ok((vehicle_id, timestamp))
}

/// An event is outdated when the vehicle's stored serial data time is not
/// earlier than the event's.
pub open spec fn outdated(previous: Option<i64>, timestamp: i64) -> bool {
    match previous {
        Some(p) => p >= timestamp,
        None => false,
    }
}

/// Checks the event's time against the vehicle's stored serial data time:
/// an event that is not newer is refused; a newer one's time is to be
/// stored (for a day).
pub fn check_newer(previous: Option<i64>, timestamp: i64) -> (r: Result<(), SerialRejection>)
    ensures
        outdated(previous, timestamp) ==> (r matches Err(SerialRejection::Time(SmarTrakError::BadTime(m)))
            && m@ == "outdated serial data message"@),
        !outdated(previous, timestamp) ==> r is Ok,
{
    match previous {
        Some(p) => if p >= timestamp {
            Err(SerialRejection::Time(SmarTrakError::BadTime(String::from_str("outdated serial data message"))))
        } else {
            Ok(())
        },
        None => Ok(()),
    }
}

/// A vehicle's serial data time as it is to be stored: under `key`, the
/// JSON text of the time, kept for `ttl_secs` seconds.
#[derive(Clone, Debug)]
pub struct TimestampWrite {
    pub key: String,
    pub value: i64,
    pub json: String,
    pub ttl_secs: u64,
}

/// Marks a vehicle's serial data time: an event not newer than the stored
/// time is refused as outdated and nothing is written; otherwise the
/// event's time is written under the vehicle's serial timestamp key, for a
/// day.
pub fn mark_serial_timestamp(vehicle_id: &str, previous: Option<i64>, timestamp: i64) -> (r: Result<TimestampWrite, SerialRejection>)
    ensures
        outdated(previous, timestamp) ==> (r matches Err(SerialRejection::Time(SmarTrakError::BadTime(m)))
            && m@ == "outdated serial data message"@),
        !outdated(previous, timestamp) ==> (r matches Ok(w)
            && w.key@ == "smartrakGtfs:serialTimestamp:"@ + vehicle_id@
            && w.value == timestamp
            && w.json@ == int_decimal(timestamp as int)
            && w.ttl_secs == TTL_SERIAL_TIMESTAMP_SECS),
{
    match check_newer(previous, timestamp) {
        Err(e) => Err(e),
        Ok(()) => Ok(TimestampWrite {
            key: serial_timestamp_key(vehicle_id),
            value: timestamp,
            json: i64_to_string(timestamp),
            ttl_secs: TTL_SERIAL_TIMESTAMP_SECS,
        }),
    }
}

/// The decoded serial data of an event: a bad request when the event has no
/// serial data or none decoded.
pub fn decoded_of(message: &SmarTrakMessage) -> (r: Result<&DecodedSerialData, SerialRejection>)
    ensures
        match message.serial_data {
            None => r matches Err(SerialRejection::BadRequest(m)) && m@ == "missing serialData"@,
            Some(sd) => match sd.decoded_serial_data {
                None => r matches Err(SerialRejection::BadRequest(m)) && m@ == "missing decoded serial data"@,
                Some(d) => r == Ok::<&DecodedSerialData, SerialRejection>(&d),
            },
        },
{
    match &message.serial_data {
        None => Err(SerialRejection::BadRequest(String::from_str("missing serialData"))),
        Some(sd) => match &sd.decoded_serial_data {
            None => Err(SerialRejection::BadRequest(String::from_str("missing decoded serial data"))),
            Some(d) => Ok(d),
        },
    }
}

/// The first step of putting a vehicle on the trip its serial data names.
#[derive(Clone, Debug)]
pub enum SerialStart {
    /// No trip: forget the vehicle's trip, sign-on time and serial data
    /// time.
    Clear,
    /// Read the vehicle's current trip and compare it with this trip.
    ReadPrevious(String),
}

/// The first step: without a trip ID the vehicle's state is cleared.
pub fn serial_start(decoded: &DecodedSerialData) -> (r: SerialStart)
    ensures
        match decoded.trip_id {
            None => r is Clear,
            Some(t) => r matches SerialStart::ReadPrevious(id) && id@ == t@,
        },
{
    match &decoded.trip_id {
        None => SerialStart::Clear,
        Some(t) => SerialStart::ReadPrevious(t.clone()),
    }
}

/// Whether the nearest instance of the trip is still to be looked up: not
/// when nothing is stored for the vehicle, nor when the stored trip is this
/// trip. `stored` is `None` when nothing is stored, `Some(None)` when what is
/// stored is no trip instance.
pub fn needs_nearest_lookup(trip_id: &str, stored: Option<Option<&TripInstance>>) -> (r: bool)
    ensures
        r == match stored {
            None => false,
            Some(None) => true,
            Some(Some(t)) => t.trip_id@ != trip_id@,
        },
{
    match stored {
        None => false,
        Some(None) => true,
        Some(Some(t)) => !str_eq(t.trip_id.as_str(), trip_id),
    }
}

/// The last step of putting a vehicle on a trip from serial data.
#[derive(Clone, Debug)]
pub enum SerialEnd {
    /// Forget the vehicle's trip, sign-on time and serial data time.
    Clear,
    /// Store the trip (for four hours) and the sign-on time (for a day).
    Save { trip: TripInstance, sign_on: i64 },
}

/// The last step, given the nearest instance of the trip: an instance that
/// is no failure marker is saved with the event's time as the sign-on time;
/// otherwise the vehicle's state is cleared.
pub fn serial_end(nearest: Option<TripInstance>, event_ts: i64) -> (r: SerialEnd)
    ensures
        match nearest {
            Some(t) => if t.error { r is Clear } else { r == (SerialEnd::Save { trip: t, sign_on: event_ts }) },
            None => r is Clear,
        },
{
    match nearest {
        Some(t) => if t.error { SerialEnd::Clear } else { SerialEnd::Save { trip: t, sign_on: event_ts } },
        None => SerialEnd::Clear,
    }
}

/// A serial data event is worth processing when it names a vehicle (by
/// external ID), carries decoded serial data and a time, and is no more than
/// `threshold` seconds ahead of `now`.
pub open spec fn serial_event_valid_spec(has_vehicle: bool, has_decoded: bool, timestamp: Option<i64>, now: i64, threshold: i64) -> bool {
    has_vehicle && has_decoded && match timestamp {
        Some(t) => t - now <= threshold,
        None => false,
    }
}

/// Whether a serial data event is worth processing.
pub fn serial_event_valid(has_vehicle: bool, has_decoded: bool, timestamp: Option<i64>, now: i64, threshold: i64) -> (r: bool)
    ensures
        r == serial_event_valid_spec(has_vehicle, has_decoded, timestamp, now, threshold),
{
    if !has_vehicle || !has_decoded {
        return false;
    }
    match timestamp {
        Some(t) => (t as i128) - (now as i128) <= (threshold as i128),
        None => false,
    }
}

/// An event is old when the vehicle's last processed serial data time is
/// not earlier than the event's.
pub fn is_old(last: Option<i64>, timestamp: i64) -> (r: bool)
    ensures
        r == match last { Some(p) => timestamp <= p, None => false },
{
    match last {
        Some(p) => timestamp <= p,
        None => false,
    }
}

/// The trip a serial data event names: its trip ID, else its trip number,
/// each only when not empty.
pub open spec fn serial_trip(d: DecodedSerialData) -> Option<Seq<char>> {
    match d.trip_id {
        Some(t) if t@.len() > 0 => Some(t@),
        _ => match d.trip_number {
            Some(n) if n@.len() > 0 => Some(n@),
            _ => None,
        },
    }
}

/// The trip a serial data event names.
pub fn trip_identifier(decoded: &DecodedSerialData) -> (r: Option<&str>)
    ensures
        match r {
            Some(s) => serial_trip(*decoded) == Some(s@),
            None => serial_trip(*decoded) is None,
        },
{
    if let Some(t) = &decoded.trip_id {
        if !t.as_str().is_empty() {
            return Some(t.as_str());
        }
    }
    if let Some(n) = &decoded.trip_number {
        if !n.as_str().is_empty() {
            return Some(n.as_str());
        }
    }
    None
}

/// The first step of the cached serial data processor.
#[derive(Clone, Debug)]
pub enum CachedSerialStart {
    /// The serial data names no trip: forget the vehicle's trip and sign-on
    /// time.
    Clear,
    /// Read the vehicle's cached trip and go on with this trip.
    Lookup(String),
}

/// The first step of the cached processor: an event that names no trip
/// (neither a trip ID nor a trip number that is not empty) clears the
/// vehicle; otherwise the trip it names is looked up.
pub fn cached_serial_start(decoded: &DecodedSerialData) -> (r: CachedSerialStart)
    ensures
        match serial_trip(*decoded) {
            None => r is Clear,
            Some(t) => r matches CachedSerialStart::Lookup(id) && id@ == t,
        },
{
    match trip_identifier(decoded) {
        None => CachedSerialStart::Clear,
        Some(t) => CachedSerialStart::Lookup(String::from_str(t)),
    }
}

/// The last step of the cached serial data processor, which keeps trips in
/// the adapter's cache.
#[derive(Clone, Debug)]
pub enum CachedSerialEnd {
    /// Forget the vehicle's trip and sign-on time.
    Clear,
    /// Leave the cache as it is.
    Keep,
    /// Cache the sign-on time and the trip.
    Save { trip: CachedTrip, sign_on: i64 },
}

/// Whether the cached processor looks up the trip: not when the cached trip
/// is the one the serial data names.
pub fn cached_needs_lookup(trip_identifier: &str, cached: Option<&CachedTrip>) -> (r: bool)
    ensures
        r == match cached { Some(t) => t.trip_id@ != trip_identifier@, None => true },
{
    match cached {
        Some(t) => !str_eq(t.trip_id.as_str(), trip_identifier),
        None => true,
    }
}

/// The last step of the cached processor, given whether a trip was cached
/// and the nearest instance found: an instance that is no failure marker is
/// saved; otherwise a vehicle that had a trip is cleared, and one that had
/// none is left as it is.
pub fn cached_serial_end(had_trip: bool, nearest: Option<CachedTrip>, event_ts: i64) -> (r: CachedSerialEnd)
    ensures
        match nearest {
            Some(t) if !t.error => r == (CachedSerialEnd::Save { trip: t, sign_on: event_ts }),
            _ => if had_trip { r is Clear } else { r is Keep },
        },
{
    match nearest {
        Some(t) => if !t.error {
            CachedSerialEnd::Save { trip: t, sign_on: event_ts }
        } else if had_trip {
            CachedSerialEnd::Clear
        } else {
            CachedSerialEnd::Keep
        },
        None => if had_trip { CachedSerialEnd::Clear } else { CachedSerialEnd::Keep },
    }
}


/// The trip serial data names is its trip ID when that is not empty, else
/// its trip number when that is not empty, and none otherwise; it is never
/// empty.
pub proof fn serial_trip_prefers_id(d: DecodedSerialData)
    ensures
        (d.trip_id is Some && d.trip_id.unwrap()@.len() > 0) ==> serial_trip(d) == Some(d.trip_id.unwrap()@),
        !(d.trip_id is Some && d.trip_id.unwrap()@.len() > 0) && (d.trip_number is Some && d.trip_number.unwrap()@.len() > 0)
            ==> serial_trip(d) == Some(d.trip_number.unwrap()@),
        serial_trip(d) matches Some(t) ==> t.len() > 0,
        serial_trip(d) is None <==> !(d.trip_id is Some && d.trip_id.unwrap()@.len() > 0)
            && !(d.trip_number is Some && d.trip_number.unwrap()@.len() > 0),
{
}

/// An event is outdated exactly when a time is stored for the vehicle and
/// the event is not later than it; with no stored time no event is.
pub proof fn outdated_when_not_later(previous: Option<i64>, timestamp: i64)
    ensures
        outdated(previous, timestamp) <==> (previous matches Some(p) && timestamp <= p),
        previous is None ==> !outdated(previous, timestamp),
{
}

/// A serial data event is processed only when it names a vehicle, carries
/// decoded serial data and a time, and that time is at most `threshold`
/// seconds ahead of `now`; such an event at or before `now` is processed
/// whenever the threshold is not negative.
pub proof fn serial_events_processed(has_vehicle: bool, has_decoded: bool, timestamp: Option<i64>, now: i64, threshold: i64)
    ensures
        serial_event_valid_spec(has_vehicle, has_decoded, timestamp, now, threshold) <==> {
            &&& has_vehicle && has_decoded
            &&& timestamp matches Some(t) && t <= now + threshold
        },
{
}

} // verus!
