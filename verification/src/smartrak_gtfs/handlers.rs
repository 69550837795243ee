//! Messages the adapter's handlers receive, and what the handlers decide
//! from them.
//!
//! Location coordinates, speeds and the like are floating-point values that
//! the handlers only pass on; the messages here hold what the decisions read
//! of them (whether a value is present, whether the GPS accuracy is
//! negative). The application keeps the values themselves.

use vstd::prelude::*;
use crate::decimal::i64_to_string;
use crate::text::{opt_view, str_eq};

verus! {

/// Kind of a SmarTrak event.
#[derive(Clone, Copy, Debug, PartialEq, Eq, Structural)]
pub enum EventType {
    SerialData,
    Location,
    Unknown,
}

/// Who sent an event.
#[derive(Clone, Debug, Default)]
pub struct RemoteData {
    pub external_id: Option<String>,
    pub remote_name: Option<String>,
}

/// When an event was sent: an RFC 3339 time.
#[derive(Clone, Debug)]
pub struct MessageData {
    pub timestamp: String,
}

/// What the handlers read of an event's location fix.
#[derive(Clone, Copy, Debug, Default)]
pub struct LocationData {
    pub has_latitude: bool,
    pub has_longitude: bool,
    pub has_odometer: bool,
    /// The reported GPS accuracy is below zero.
    pub negative_accuracy: bool,
}

/// What the handlers read of an event's event data.
#[derive(Clone, Copy, Debug, Default)]
pub struct EventData {
    pub has_odometer: bool,
}

/// Serial data of an event.
#[derive(Clone, Debug)]
pub struct SerialData {
    pub decoded_serial_data: Option<DecodedSerialData>,
}

/// Decoded serial data: the trip the driver signed on to.
#[derive(Clone, Debug)]
pub struct DecodedSerialData {
    pub trip_number: Option<String>,
    pub trip_id: Option<String>,
    pub line_id: Option<String>,
}

/// A SmarTrak event.
#[derive(Clone, Debug)]
pub struct SmarTrakMessage {
    pub event_type: EventType,
    pub remote_data: Option<RemoteData>,
    pub message_data: MessageData,
    pub location_data: LocationData,
    pub event_data: EventData,
    pub serial_data: Option<SerialData>,
}

/// Unix time of an RFC 3339 date-time, when the text is one.
pub uninterp spec fn rfc3339_seconds(text: Seq<char>) -> Option<i64>;

/// `chrono::DateTime::parse_from_rfc3339`, as a Unix time; on failure the
/// text of chrono's error. Claimed: the result is `Ok` exactly when
/// `rfc3339_seconds` of the text is a value, and then it is that value; what
/// the error message says is not stated.
#[verifier::external_body]
pub(crate) fn parse_rfc3339(text: &str) -> (r: Result<i64, String>)
    ensures
        match r {
            Ok(v) => rfc3339_seconds(text@) == Some(v),
            Err(_) => rfc3339_seconds(text@) is None,
        },
{
    chrono::DateTime::parse_from_rfc3339(text).map(|t| t.timestamp()).map_err(|e| e.to_string())
}

/// The vehicle of an event: the external ID when present, else the remote
/// name.
pub open spec fn message_vehicle(m: SmarTrakMessage) -> Option<Seq<char>> {
    match m.remote_data {
        Some(rd) => match rd.external_id {
            Some(id) => Some(id@),
            None => opt_view(rd.remote_name),
        },
        None => None,
    }
}

impl SmarTrakMessage {
    /// The vehicle identifier of the event.
    pub fn vehicle_id(&self) -> (r: Option<&str>)
        ensures
            match r {
                Some(s) => message_vehicle(*self) == Some(s@),
                None => message_vehicle(*self) is None,
            },
    {
        match &self.remote_data {
            Some(rd) => match &rd.external_id {
                Some(id) => Some(id.as_str()),
                None => match &rd.remote_name {
                    Some(n) => Some(n.as_str()),
                    None => None,
                },
            },
            None => None,
        }
    }

    /// The event's Unix time; a bad request when its timestamp is not an
    /// RFC 3339 date-time.
    pub fn timestamp(&self) -> (r: Result<i64, String>)
        ensures
            match r {
                Ok(v) => rfc3339_seconds(self.message_data.timestamp@) == Some(v),
                Err(e) => rfc3339_seconds(self.message_data.timestamp@) is None
                    && "invalid timestamp: "@.is_prefix_of(e@),
            },
    {
        match parse_rfc3339(self.message_data.timestamp.as_str()) {
            Ok(v) => Ok(v),
            Err(e) => {
                let msg = String::from_str("invalid timestamp: ").concat(e.as_str());
                Err(msg)
            },
        }
    }
}

/// The topic a vehicle position is published to.
pub const VEHICLE_POSITION_TOPIC: &'static str = "realtime-gtfs-vp.v1";

/// The topic a dead-reckoning message is published to.
pub const DEAD_RECKONING_TOPIC: &'static str = "realtime-dead-reckoning.v1";

/// Vehicle of a passenger count.
#[derive(Clone, Debug)]
pub struct Vehicle {
    pub id: String,
}

/// Trip of a passenger count.
#[derive(Clone, Debug)]
pub struct Trip {
    pub trip_id: String,
    pub start_date: String,
    pub start_time: String,
}

/// A passenger count: the occupancy of a vehicle on a trip.
#[derive(Clone, Debug)]
pub struct PassengerCountMessage {
    pub occupancy_status: Option<String>,
    pub vehicle: Vehicle,
    pub trip: Trip,
    pub timestamp: i64,
}

/// How long a stored occupancy status lives, in seconds.
pub const OCCUPANCY_STATUS_TTL: u64 = 10800;

/// The state key of an occupancy status.
pub open spec fn occupancy_key_spec(vehicle: Seq<char>, trip: Seq<char>, date: Seq<char>, time: Seq<char>) -> Seq<char> {
    "smartrakGtfs:occupancyStatus:"@ + vehicle + ":"@ + trip + ":"@ + date + ":"@ + time
}

/// What a passenger count does to the state store.
#[derive(Clone, Debug)]
pub enum OccupancyAction {
    /// Store the status under the key for the given time.
    Store { key: String, status: String, ttl: u64 },
    /// Remove the key.
    Remove { key: String },
}

impl PassengerCountMessage {
    /// The state key of the count's occupancy status.
    pub fn occupancy_key(&self) -> (r: String)
        ensures
            r@ == occupancy_key_spec(self.vehicle.id@, self.trip.trip_id@, self.trip.start_date@, self.trip.start_time@),
    {
        String::from_str("smartrakGtfs:occupancyStatus:").concat(self.vehicle.id.as_str()).concat(":")
            .concat(self.trip.trip_id.as_str()).concat(":").concat(self.trip.start_date.as_str()).concat(":")
            .concat(self.trip.start_time.as_str())
    }

    /// A count with a status stores it for three hours; one without removes
    /// the stored status.
    pub fn occupancy_action(&self) -> (r: OccupancyAction)
        ensures
            match self.occupancy_status {
                Some(s) => r matches OccupancyAction::Store { key, status, ttl }
                    && key@ == occupancy_key_spec(self.vehicle.id@, self.trip.trip_id@, self.trip.start_date@, self.trip.start_time@)
                    && status@ == s@ && ttl == OCCUPANCY_STATUS_TTL,
                None => r matches OccupancyAction::Remove { key }
                    && key@ == occupancy_key_spec(self.vehicle.id@, self.trip.trip_id@, self.trip.start_date@, self.trip.start_time@),
            },
    {
        let key = self.occupancy_key();
        match &self.occupancy_status {
            Some(s) => OccupancyAction::Store { key, status: s.clone(), ttl: OCCUPANCY_STATUS_TTL },
            None => OccupancyAction::Remove { key },
        }
    }
}

/// Request to put a vehicle on a trip: vehicle ID and trip ID.
#[derive(Clone, Debug)]
pub struct SetTripRequest(pub String, pub String);

/// Reply to a God Mode request.
#[derive(Clone, Debug)]
pub struct SetTripReply {
    pub message: String,
    pub process: u32,
}

/// Request to clear the override of a vehicle, or of all (`all`).
#[derive(Clone, Debug)]
pub struct ResetRequest(pub String);

/// Reply to a reset request.
#[derive(Clone, Debug)]
pub struct ResetReply {
    pub message: String,
    pub process: u32,
}

/// Request for what the adapter holds about a vehicle.
#[derive(Clone, Debug)]
pub struct VehicleInfoRequest(pub String);

/// The reply of a God Mode request that was carried out.
pub fn set_trip_reply() -> (r: SetTripReply)
    ensures
        r.message@ == "Ok"@,
        r.process == 0,
{
    SetTripReply { message: String::from_str("Ok"), process: 0 }
}

/// The reply of a reset request that was carried out.
pub fn reset_reply() -> (r: ResetReply)
    ensures
        r.message@ == "Ok"@,
        r.process == 0,
{
    ResetReply { message: String::from_str("Ok"), process: 0 }
}

/// What a reset request clears.
#[derive(Clone, Debug)]
pub enum ResetScope {
    /// Every override.
    All,
    /// The override of one vehicle.
    Vehicle(String),
}

impl ResetRequest {
    /// `all` clears every override; anything else the vehicle's.
    pub fn scope(&self) -> (r: ResetScope)
        ensures
            self.0@ == "all"@ ==> r is All,
            self.0@ != "all"@ ==> (r matches ResetScope::Vehicle(v) && v@ == self.0@),
    {
        if str_eq(self.0.as_str(), "all") {
            ResetScope::All
        } else {
            ResetScope::Vehicle(self.0.clone())
        }
    }
}

/// A stored sign-on time, as far as reading it as text goes: the JSON value
/// it holds.
#[derive(Clone, Debug)]
pub enum SignOnValue {
    Null,
    Text(String),
    /// A number that is an `i64`.
    Integer(i64),
    /// Any other number.
    OtherNumber,
    /// Any other value, with its JSON text.
    Other(String),
}

/// The sign-on time as text: a string as it is, an integer in decimal, any
/// other value but a number that is no `i64` as its JSON text; nothing for
/// `null`, for such a number, or when nothing could be read.
pub open spec fn sign_on_spec(value: Option<SignOnValue>) -> Option<Seq<char>> {
    match value {
        Some(SignOnValue::Text(s)) => Some(s@),
        Some(SignOnValue::Integer(n)) => Some(crate::decimal::int_decimal(n as int)),
        Some(SignOnValue::Other(j)) => Some(j@),
        _ => None,
    }
}

/// The sign-on time of a vehicle as text.
pub fn sign_on_to_string(value: Option<SignOnValue>) -> (r: Option<String>)
    ensures
        opt_view(r) == sign_on_spec(value),
{
    match value {
        Some(SignOnValue::Text(s)) => Some(s),
        Some(SignOnValue::Integer(n)) => Some(i64_to_string(n)),
        Some(SignOnValue::Other(j)) => Some(j),
        _ => None,
    }
}


/// Reply of the CAF AVL endpoint (empty).
#[derive(Clone, Copy, Debug)]
pub struct CafAvlReply;

/// Reply of the SmarTrak endpoint (empty).
#[derive(Clone, Copy, Debug)]
pub struct SmarTrakResponse;

/// A message ready for publication: topic, key and JSON payload.
#[derive(Clone, Debug, PartialEq, Eq)]
pub struct Serialized {
    pub topic: String,
    pub key: String,
    pub payload: Vec<u8>,
}

impl Serialized {
    /// A message for a topic, with its key and serialized payload.
    pub fn new(topic: String, key: String, payload: Vec<u8>) -> (r: Serialized)
        ensures
            r.topic == topic,
            r.key == key,
            r.payload == payload,
    {
        Serialized { topic, key, payload }
    }
}

/// The lowercase form of a string (std `str::to_lowercase`, Unicode).
pub uninterp spec fn lowercase(s: Seq<char>) -> Seq<char>;

/// std `str::to_lowercase`. Claimed: the result is `lowercase` of the text.
#[verifier::external_body]
fn to_lowercase(s: &str) -> (r: String)
    ensures
        r@ == lowercase(s@),
{
    s.to_lowercase()
}

/// A vehicle's events on a tag-checked topic are handled when it has no
/// tag, or its tag in lowercase is the expected one.
pub open spec fn tag_allows(tag: Option<Seq<char>>, expected: Seq<char>) -> bool {
    match tag {
        Some(t) => lowercase(t) == expected,
        None => true,
    }
}

/// Whether a vehicle's CAF AVL events are handled: untagged vehicles and
/// vehicles tagged `caf` (in any case).
pub fn caf_tag_allows(tag: Option<&str>) -> (r: bool)
    ensures
        r == tag_allows(match tag { Some(t) => Some(t@), None => None }, "caf"@),
{
    match tag {
        Some(t) => str_eq(to_lowercase(t).as_str(), "caf"),
        None => true,
    }
}

/// Whether a vehicle's train AVL events are handled: untagged vehicles and
/// vehicles tagged `smartrak` (in any case).
pub fn train_tag_allows(tag: Option<&str>) -> (r: bool)
    ensures
        r == tag_allows(match tag { Some(t) => Some(t@), None => None }, "smartrak"@),
{
    match tag {
        Some(t) => str_eq(to_lowercase(t).as_str(), "smartrak"),
        None => true,
    }
}


/// The vehicle of an event is its external ID when it has one, else its
/// remote name; an event from no remote device names no vehicle.
pub proof fn vehicle_prefers_external_id(m: SmarTrakMessage)
    ensures
        m.remote_data is None ==> message_vehicle(m) is None,
        m.remote_data is Some && m.remote_data.unwrap().external_id is Some
            ==> message_vehicle(m) == Some(m.remote_data.unwrap().external_id.unwrap()@),
        m.remote_data is Some && m.remote_data.unwrap().external_id is None
            ==> message_vehicle(m) == opt_view(m.remote_data.unwrap().remote_name),
{
}

} // verus!
