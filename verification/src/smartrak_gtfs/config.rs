//! Adapter settings: state store key prefixes, topic markers, and the
//! parsing of setting values.

use vstd::prelude::*;
use crate::decimal::{parse_i64, parse_i64_spec};
use crate::report::views;
use crate::text::{ascii_lowercase, contains, seq_contains, split_char, split_spec, to_ascii_lowercase,
    trim, trim_spec};

verus! {

/// Key prefixes in the state store.
#[derive(Clone, Debug)]
pub struct Keys {
    pub trip: String,
    pub fleet: String,
    pub vehicle_sign_on: String,
    pub trip_management: String,
    pub block_management: String,
    pub allocated_vehicle: String,
    pub vehicle_blacklist: String,
    pub passenger_count: String,
}

/// Topic markers: a topic belongs to a group when it contains one of the
/// group's markers.
#[derive(Clone, Debug, Default)]
pub struct Topics {
    pub passenger_count_markers: Vec<String>,
    pub caf_markers: Vec<String>,
    pub smartrak_markers: Vec<String>,
    pub passthrough_markers: Vec<String>,
    pub vehicle_position: Option<String>,
    pub dead_reckoning: Option<String>,
}

/// Some marker occurs in the topic.
pub open spec fn any_marker(markers: Seq<Seq<char>>, topic: Seq<char>) -> bool {
    exists|i: int| 0 <= i < markers.len() && seq_contains(topic, #[trigger] markers[i])
}

fn matches_any(markers: &Vec<String>, topic: &str) -> (r: bool)
    ensures
        r == any_marker(views(markers@), topic@),
{
    let n = markers.len();
    for i in 0..n
        invariant
            n == markers.len(),
            forall|j: int| 0 <= j < i ==> !seq_contains(topic@, #[trigger] views(markers@)[j]),
    {
        if contains(topic, markers[i].as_str()) {
            assert(seq_contains(topic@, views(markers@)[i as int]));
            return true;
        }
    }
    false
}

impl Topics {
    /// The topic carries passenger counts.
    pub fn matches_passenger_topic(&self, topic: &str) -> (r: bool)
        ensures
            r == any_marker(views(self.passenger_count_markers@), topic@),
    {
        matches_any(&self.passenger_count_markers, topic)
    }

    /// The topic carries CAF AVL events.
    pub fn matches_caf_topic(&self, topic: &str) -> (r: bool)
        ensures
            r == any_marker(views(self.caf_markers@), topic@),
    {
        matches_any(&self.caf_markers, topic)
    }

    /// The topic carries SmarTrak AVL events.
    pub fn matches_smartrak_topic(&self, topic: &str) -> (r: bool)
        ensures
            r == any_marker(views(self.smartrak_markers@), topic@),
    {
        matches_any(&self.smartrak_markers, topic)
    }

    /// The topic is passed through.
    pub fn matches_passthrough_topic(&self, topic: &str) -> (r: bool)
        ensures
            r == any_marker(views(self.passthrough_markers@), topic@),
    {
        matches_any(&self.passthrough_markers, topic)
    }
}

/// `prefix:a`.
pub open spec fn key2(prefix: Seq<char>, a: Seq<char>) -> Seq<char> {
    prefix + ":"@ + a
}

impl Keys {
    /// The default prefixes.
    pub fn defaults() -> (r: Keys)
        ensures
            r.trip@ == "smartrakGtfs:trip:vehicle"@,
            r.fleet@ == "smartrakGtfs:fleet"@,
            r.vehicle_sign_on@ == "smartrakGtfs:vehicle:signOn"@,
            r.trip_management@ == "smartrakGtfs:tripManagement"@,
            r.block_management@ == "smartrakGtfs:blockManagement"@,
            r.allocated_vehicle@ == "smartrakGtfs:trip:allocatedVehicle"@,
            r.vehicle_blacklist@ == "smartrakGtfs:vehicleBlacklist"@,
            r.passenger_count@ == "smartrakGtfs:passengerCountEvent"@,
    {
        Keys {
            trip: String::from_str("smartrakGtfs:trip:vehicle"),
            fleet: String::from_str("smartrakGtfs:fleet"),
            vehicle_sign_on: String::from_str("smartrakGtfs:vehicle:signOn"),
            trip_management: String::from_str("smartrakGtfs:tripManagement"),
            block_management: String::from_str("smartrakGtfs:blockManagement"),
            allocated_vehicle: String::from_str("smartrakGtfs:trip:allocatedVehicle"),
            vehicle_blacklist: String::from_str("smartrakGtfs:vehicleBlacklist"),
            passenger_count: String::from_str("smartrakGtfs:passengerCountEvent"),
        }
    }

    /// Key of a vehicle's current trip.
    pub fn trip_key(&self, vehicle_id: &str) -> (r: String)
        ensures
            r@ == key2(self.trip@, vehicle_id@),
    {
        self.trip.clone().concat(":").concat(vehicle_id)
    }

    /// Key of a vehicle's sign-on time.
    pub fn sign_on_key(&self, vehicle_id: &str) -> (r: String)
        ensures
            r@ == key2(self.vehicle_sign_on@, vehicle_id@),
    {
        self.vehicle_sign_on.clone().concat(":").concat(vehicle_id)
    }

    /// Key of a passenger count of a vehicle on a trip.
    pub fn passenger_count_key(&self, vehicle_id: &str, trip_id: &str, start_date: &str, start_time: &str) -> (r: String)
        ensures
            r@ == key2(key2(key2(key2(self.passenger_count@, vehicle_id@), trip_id@), start_date@), start_time@),
    {
        self.passenger_count.clone().concat(":").concat(vehicle_id).concat(":").concat(trip_id)
            .concat(":").concat(start_date).concat(":").concat(start_time)
    }

    /// Key of a cached vehicle looked up by label.
    pub fn fleet_key_by_label(&self, label: &str) -> (r: String)
        ensures
            r@ == key2(key2(self.fleet@, "label"@), label@),
    {
        self.fleet.clone().concat(":").concat("label").concat(":").concat(label)
    }

    /// Key of a cached vehicle looked up by ID.
    pub fn fleet_key_by_id(&self, vehicle_id: &str) -> (r: String)
        ensures
            r@ == key2(key2(self.fleet@, "vehicleId"@), vehicle_id@),
    {
        self.fleet.clone().concat(":").concat("vehicleId").concat(":").concat(vehicle_id)
    }

    /// Key of a cached vehicle capacity on a route.
    pub fn fleet_capacity_key(&self, vehicle_id: &str, route_id: &str) -> (r: String)
        ensures
            r@ == key2(key2(key2(self.fleet@, "capacityBasedOnRouteId"@), vehicle_id@), route_id@),
    {
        self.fleet.clone().concat(":").concat("capacityBasedOnRouteId").concat(":").concat(vehicle_id).concat(":").concat(route_id)
    }

    /// Key of a cached block allocation.
    pub fn block_key(&self, vehicle_id: &str) -> (r: String)
        ensures
            r@ == key2(self.block_management@, vehicle_id@),
    {
        self.block_management.clone().concat(":").concat(vehicle_id)
    }

    /// Key of cached trip instances of a trip on a service date.
    pub fn trip_mgt_key(&self, trip_id: &str, service_date: &str) -> (r: String)
        ensures
            r@ == key2(key2(self.trip_management@, trip_id@), service_date@),
    {
        self.trip_management.clone().concat(":").concat(trip_id).concat(":").concat(service_date)
    }
}

/// A boolean setting: `true`, `1` or `yes` in any ASCII case.
pub open spec fn bool_setting_spec(value: Seq<char>) -> bool {
    let v = ascii_lowercase(value);
    v == "true"@ || v == "1"@ || v == "yes"@
}

/// Reads a boolean setting.
pub fn bool_setting(value: &str) -> (r: bool)
    ensures
        r == bool_setting_spec(value@),
{
    let v = to_ascii_lowercase(value);
    crate::text::str_eq(v.as_str(), "true") || crate::text::str_eq(v.as_str(), "1")
        || crate::text::str_eq(v.as_str(), "yes")
}

/// Reads an integer setting, or `default` when absent or not an integer.
pub fn int_setting(value: Option<&str>, default: i64) -> (r: i64)
    ensures
        r == match value {
            Some(v) => match parse_i64_spec(v@) { Some(n) => n, None => default },
            None => default,
        },
{
    match value {
        Some(v) => match parse_i64(v) {
            Some(n) => n,
            None => default,
        },
        None => default,
    }
}

/// The entries of a comma-separated list: each piece trimmed, empty pieces
/// left out.
pub open spec fn list_setting_spec(value: Seq<char>) -> Seq<Seq<char>> {
    split_spec(value, ',').map_values(|p: Seq<char>| trim_spec(p)).filter(|e: Seq<char>| e.len() > 0)
}

/// Reads a comma-separated list setting.
pub fn list_setting(value: &str) -> (r: Vec<String>)
    ensures
        views(r@) == list_setting_spec(value@),
{
    let pieces = split_char(value, ',');
    let ghost trimmed = views(pieces@).map_values(|p: Seq<char>| trim_spec(p));
    let mut out: Vec<String> = Vec::new();
    let n = pieces.len();
    for i in 0..n
        invariant
            n == pieces.len(),
            trimmed == views(pieces@).map_values(|p: Seq<char>| trim_spec(p)),
            views(out@) == trimmed.take(i as int).filter(|e: Seq<char>| e.len() > 0),
    {
        let t = trim(pieces[i].as_str());
        proof {
            reveal_with_fuel(Seq::filter, 1);
            assert(trimmed.take(i + 1).drop_last() =~= trimmed.take(i as int));
            assert(trimmed[i as int] == t@);
        }
        if !t.as_str().is_empty() {
            out.push(t);
            assert(views(out@) =~= views(out@).drop_last().push(t@));
        } else {
            assert(views(out@) =~= trimmed.take(i + 1).filter(|e: Seq<char>| e.len() > 0));
        }
    }
    assert(trimmed.take(n as int) =~= trimmed);
    out
}

} // verus!
