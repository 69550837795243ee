//! Location events: which trip a train is on, whether the trip a vehicle is
//! on has run its course, and what a location event is published as.
//!
//! Each step is a decision on what the application read from the state
//! store and the outside services; the application performs what it
//! answers.

use vstd::prelude::*;
use crate::decimal::{parse_i64, parse_i64_spec};
use crate::smartrak_gtfs::block_mgt::BlockInstance;
use crate::smartrak_gtfs::clock::{AUCKLAND, wall_seconds, zoned_wall_seconds};
use crate::smartrak_gtfs::error::{Error, ErrorView};
use crate::smartrak_gtfs::handlers::{EventType, SmarTrakMessage, message_vehicle, parse_rfc3339, rfc3339_seconds};
use crate::smartrak_gtfs::models::{TripDescriptor, TripInstance};
use crate::smartrak_gtfs::trip::fits_i64;
use crate::text::{split_char, split_spec, str_eq};

verus! {

/// How long a train's trip is kept, in seconds (three hours).
pub const TTL_TRIP_TRAIN: u64 = 10800;

/// How long a sign-on time is kept, in seconds (a day).
pub const TTL_SIGN_ON: u64 = 86400;

/// The state key of a vehicle's current trip.
pub fn trip_key(vehicle_id: &str) -> (r: String)
    ensures
        r@ == "smartrakGtfs:trip:vehicle:"@ + vehicle_id@,
{
    String::from_str("smartrakGtfs:trip:vehicle:").concat(vehicle_id)
}

/// The state key of a vehicle's sign-on time.
pub fn sign_on_key(vehicle_id: &str) -> (r: String)
    ensures
        r@ == "smartrakGtfs:vehicle:signOn:"@ + vehicle_id@,
{
    String::from_str("smartrakGtfs:vehicle:signOn:").concat(vehicle_id)
}

/// The vehicle whose location an event reports: `None` for events that are
/// not location events, come from nobody, report a negative GPS accuracy,
/// or name no vehicle.
pub open spec fn located_vehicle(m: SmarTrakMessage) -> Option<Seq<char>> {
    if m.event_type != EventType::Location || m.remote_data is None || m.location_data.negative_accuracy {
        None
    } else {
        message_vehicle(m)
    }
}

/// The vehicle of a location event that is to be processed.
pub fn location_vehicle(message: &SmarTrakMessage) -> (r: Option<&str>)
    ensures
        match r {
            Some(v) => located_vehicle(*message) == Some(v@),
            None => located_vehicle(*message) is None,
        },
{
    if message.event_type != EventType::Location {
        return None;
    }
    if message.remote_data.is_none() || message.location_data.negative_accuracy {
        return None;
    }
    message.vehicle_id()
}

/// The vehicle and the Unix time of a location event that is processed.
/// An event that names no vehicle is a processing error about its missing
/// `remoteData.externalId`; one whose timestamp is no RFC 3339 date-time is
/// a processing error carrying that timestamp as it came.
pub fn location_subject(message: &SmarTrakMessage) -> (r: Result<(String, i64), Error>)
    ensures
        match message_vehicle(*message) {
            None => r matches Err(e) && e@ == ErrorView::ProcessingError("remoteData.externalId "@),
            Some(v) => match rfc3339_seconds(message.message_data.timestamp@) {
                None => r matches Err(e) && e@ == ErrorView::ProcessingError(message.message_data.timestamp@),
                Some(ts) => r matches Ok((id, t)) && id@ == v && t == ts,
            },
        },
{
    let vehicle = match message.vehicle_id() {
        Some(v) => String::from_str(v),
        None => return Err(Error::ProcessingError(String::from_str("remoteData.externalId "))),
    };
    match parse_rfc3339(message.message_data.timestamp.as_str()) {
        Ok(t) => Ok((vehicle, t)),
        Err(_) => Err(Error::ProcessingError(message.message_data.timestamp.clone())),
    }
}

/// The first step of putting a train on its allocated trip.
#[derive(Clone, Copy, Debug, PartialEq, Eq, Structural)]
pub enum AllocationStart {
    /// Forget the vehicle's trip and sign-on time.
    Clear,
    /// Leave the state as it is.
    Keep,
    /// Read the vehicle's current trip and compare it with the allocation.
    ReadPrevious,
}

/// The first step, given the block allocation: none clears the vehicle's
/// state; a failure marker leaves it; an allocation whose first vehicle is
/// another clears it; otherwise the current trip is read.
pub open spec fn allocation_start_spec(vehicle_id: Seq<char>, allocation: Option<BlockInstance>) -> AllocationStart {
    match allocation {
        None => AllocationStart::Clear,
        Some(a) => if a.error {
            AllocationStart::Keep
        } else if a.vehicle_ids@.len() == 0 || a.vehicle_ids@[0]@ != vehicle_id {
            AllocationStart::Clear
        } else {
            AllocationStart::ReadPrevious
        },
    }
}

/// The first step of putting a train on its allocated trip.
pub fn allocation_start(vehicle_id: &str, allocation: &Option<BlockInstance>) -> (r: AllocationStart)
    ensures
        r == allocation_start_spec(vehicle_id@, *allocation),
{
    match allocation {
        None => AllocationStart::Clear,
        Some(a) => if a.error {
            AllocationStart::Keep
        } else if a.vehicle_ids.len() == 0 || !str_eq(a.vehicle_ids[0].as_str(), vehicle_id) {
            AllocationStart::Clear
        } else {
            AllocationStart::ReadPrevious
        },
    }
}

/// The current trip is the allocated one: same trip, start time and service
/// date.
pub open spec fn same_trip(previous: TripInstance, allocation: BlockInstance) -> bool {
    &&& previous.trip_id@ == allocation.trip_id@
    &&& previous.start_time@ == allocation.start_time@
    &&& previous.service_date@ == allocation.service_date@
}

/// Whether the allocation still needs its trip looked up: not when the
/// vehicle's current trip is the allocated one.
pub fn needs_trip_lookup(allocation: &BlockInstance, previous: Option<&TripInstance>) -> (r: bool)
    ensures
        r == match previous { Some(p) => !same_trip(*p, *allocation), None => true },
{
    match previous {
        Some(p) => !(str_eq(p.trip_id.as_str(), allocation.trip_id.as_str())
            && str_eq(p.start_time.as_str(), allocation.start_time.as_str())
            && str_eq(p.service_date.as_str(), allocation.service_date.as_str())),
        None => true,
    }
}

/// The last step of putting a train on its allocated trip.
#[derive(Clone, Debug)]
pub enum AllocationEnd {
    /// Forget the vehicle's trip and sign-on time.
    Clear,
    /// Leave the state as it is.
    Keep,
    /// Store the trip (for three hours) and the sign-on time (for a day).
    Save { trip: TripInstance, sign_on: i64 },
}

/// The last step, given the trip instance looked up for the allocation: no
/// instance clears the state, a failure marker leaves it, any other is saved
/// with the event's time as the sign-on time.
pub fn allocation_end(found: Option<TripInstance>, event_ts: i64) -> (r: AllocationEnd)
    ensures
        match found {
            None => r is Clear,
            Some(t) => if t.error { r is Keep } else { r == (AllocationEnd::Save { trip: t, sign_on: event_ts }) },
        },
{
    match found {
        None => AllocationEnd::Clear,
        Some(t) => if t.error { AllocationEnd::Keep } else { AllocationEnd::Save { trip: t, sign_on: event_ts } },
    }
}

/// The hour, minute and second of `h:m:s`, exactly three fields.
pub open spec fn exact_time_fields(time: Seq<char>) -> Option<(i64, i64, i64)> {
    let parts = split_spec(time, ':');
    if parts.len() != 3 {
        None
    } else {
        match (parse_i64_spec(parts[0]), parse_i64_spec(parts[1]), parse_i64_spec(parts[2])) {
            (Some(h), Some(m), Some(s)) => Some((h, m, s)),
            _ => None,
        }
    }
}

/// Unix time of a trip time `h:m:s` on a service date `%Y%m%d` in Auckland:
/// local midnight of the date plus the time's seconds; `None` when either is
/// empty or does not parse, midnight does not exist exactly once, or the
/// seconds or the sum are out of the range of `i64`.
pub open spec fn time_to_timestamp_spec(date: Seq<char>, time: Seq<char>) -> Option<i64> {
    if date.len() == 0 || time.len() == 0 {
        None
    } else {
        match (zoned_wall_seconds(AUCKLAND@, date, 0, 0, 0, 0), exact_time_fields(time)) {
            (Some(base), Some((h, m, s))) => {
                let offset = h * 3600 + m * 60 + s;
                if fits_i64(offset) && fits_i64(base + offset) { Some((base + offset) as i64) } else { None }
            },
            _ => None,
        }
    }
}

/// The Unix time of a trip time on a service date.
pub fn time_to_timestamp(date: &str, time: &str) -> (r: Option<i64>)
    ensures
        r == time_to_timestamp_spec(date@, time@),
{
    if date.is_empty() || time.is_empty() {
        return None;
    }
    let base = match wall_seconds(AUCKLAND, date, 0, 0, 0, 0) {
        Some(b) => b,
        None => return None,
    };
    let parts = split_char(time, ':');
    if parts.len() != 3 {
        return None;
    }
    let h = match parse_i64(parts[0].as_str()) {
        Some(v) => v,
        None => return None,
    };
    let m = match parse_i64(parts[1].as_str()) {
        Some(v) => v,
        None => return None,
    };
    let s = match parse_i64(parts[2].as_str()) {
        Some(v) => v,
        None => return None,
    };
    let offset: i128 = (h as i128) * 3600 + (m as i128) * 60 + (s as i128);
    if offset < (i64::MIN as i128) || offset > (i64::MAX as i128) {
        return None;
    }
    let sum: i128 = (base as i128) + offset;
    if sum < (i64::MIN as i128) || sum > (i64::MAX as i128) {
        return None;
    }
    Some(sum as i64)
}

/// A trip has run its course: its sign-on time and both its start and end
/// are known, and the event comes later after the sign-on than the trip's
/// length plus `buffer` seconds.
pub open spec fn trip_expired_spec(event_ts: i64, sign_on: Option<i64>, start: Option<i64>, end: Option<i64>, buffer: i64) -> bool {
    match (sign_on, start, end) {
        (Some(s), Some(a), Some(b)) => event_ts - (b - a + buffer) > s,
        _ => false,
    }
}

/// Whether a vehicle's trip has run its course.
pub fn trip_expired(event_ts: i64, sign_on: Option<i64>, start: Option<i64>, end: Option<i64>, buffer: i64) -> (r: bool)
    ensures
        r == trip_expired_spec(event_ts, sign_on, start, end, buffer),
{
    match (sign_on, start, end) {
        (Some(s), Some(a), Some(b)) => {
            let length: i128 = (b as i128) - (a as i128) + (buffer as i128);
            (event_ts as i128) - length > (s as i128)
        },
        _ => false,
    }
}

/// What the current trip of a vehicle comes to at an event.
#[derive(Clone, Debug)]
pub enum CurrentTrip {
    /// The vehicle is on no trip.
    NoTrip,
    /// The trip has run its course: forget it and the sign-on time.
    Expired,
    /// The vehicle is on this trip.
    On(TripInstance),
}

/// The current trip of a vehicle at an event, given the stored trip and
/// sign-on time and the extra seconds a trip may run late.
pub fn current_trip(stored: Option<TripInstance>, sign_on: Option<i64>, event_ts: i64, buffer: i64) -> (r: CurrentTrip)
    ensures
        match stored {
            None => r is NoTrip,
            Some(t) => if trip_expired_spec(event_ts, sign_on, time_to_timestamp_spec(t.service_date@, t.start_time@),
                time_to_timestamp_spec(t.service_date@, t.end_time@), buffer) {
                r is Expired
            } else {
                r == CurrentTrip::On(t)
            },
        },
{
    match stored {
        None => CurrentTrip::NoTrip,
        Some(t) => {
            let start = time_to_timestamp(t.service_date.as_str(), t.start_time.as_str());
            let end = time_to_timestamp(t.service_date.as_str(), t.end_time.as_str());
            if trip_expired(event_ts, sign_on, start, end, buffer) {
                CurrentTrip::Expired
            } else {
                CurrentTrip::On(t)
            }
        },
    }
}

/// What a location event is published as.
#[derive(Clone, Debug)]
pub enum LocationKind {
    /// A dead-reckoning message for the trip: the fix has no coordinates but
    /// an odometer reading.
    DeadReckoning(TripDescriptor),
    /// A vehicle position, on the trip when there is one.
    VehiclePosition(Option<TripDescriptor>),
}

/// A fix without both coordinates but with an odometer reading on a known
/// trip is published as dead reckoning; anything else as a vehicle position.
pub fn location_kind(has_latitude: bool, has_longitude: bool, has_odometer: bool, trip: Option<TripDescriptor>) -> (r: LocationKind)
    ensures
        match trip {
            Some(d) => if (!has_latitude || !has_longitude) && has_odometer {
                r == LocationKind::DeadReckoning(d)
            } else {
                r == LocationKind::VehiclePosition(Some(d))
            },
            None => r == LocationKind::VehiclePosition(None),
        },
{
    match trip {
        Some(d) => if (!has_latitude || !has_longitude) && has_odometer {
            LocationKind::DeadReckoning(d)
        } else {
            LocationKind::VehiclePosition(Some(d))
        },
        None => LocationKind::VehiclePosition(None),
    }
}

/// The state key of the occupancy status of a vehicle on a trip, when the
/// trip's start date and time are known.
pub fn occupancy_key(vehicle_id: &str, trip: &TripDescriptor) -> (r: Option<String>)
    ensures
        match (trip.start_date, trip.start_time) {
            (Some(d), Some(t)) => r matches Some(k) && k@ == "smartrakGtfs:occupancyStatus:"@ + vehicle_id@ + ":"@
                + trip.trip_id@ + ":"@ + d@ + ":"@ + t@,
            _ => r is None,
        },
{
    match (&trip.start_date, &trip.start_time) {
        (Some(d), Some(t)) => Some(String::from_str("smartrakGtfs:occupancyStatus:").concat(vehicle_id).concat(":")
            .concat(trip.trip_id.as_str()).concat(":").concat(d.as_str()).concat(":").concat(t.as_str())),
        _ => None,
    }
}


/// A trip has run its course exactly when its sign-on time, start and end
/// are all known and the event comes more than the trip's length plus the
/// buffer after the sign-on; and once it has, it stays so for every later
/// event.
pub proof fn expiry_after_length(event_ts: i64, later_ts: i64, sign_on: Option<i64>, start: Option<i64>, end: Option<i64>, buffer: i64)
    ensures
        trip_expired_spec(event_ts, sign_on, start, end, buffer) <==> {
            &&& sign_on is Some && start is Some && end is Some
            &&& event_ts > sign_on.unwrap() + (end.unwrap() - start.unwrap()) + buffer
        },
        trip_expired_spec(event_ts, sign_on, start, end, buffer) && event_ts <= later_ts
            ==> trip_expired_spec(later_ts, sign_on, start, end, buffer),
{
}

/// A location event is processed only when it is a location event from a
/// remote device that does not report a negative GPS accuracy, and then for
/// the vehicle it names.
pub proof fn located_only_valid_events(m: SmarTrakMessage)
    ensures
        located_vehicle(m) is Some ==> m.event_type == EventType::Location && m.remote_data is Some
            && !m.location_data.negative_accuracy,
        m.event_type == EventType::Location && m.remote_data is Some && !m.location_data.negative_accuracy
            ==> located_vehicle(m) == message_vehicle(m),
{
}

} // verus!
