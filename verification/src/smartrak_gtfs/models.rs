//! Fleet and trip records as the adapter's handlers read them.

use vstd::prelude::*;
use crate::text::opt_view;

verus! {

/// Vehicle record from the Fleet API.
#[derive(Clone, Debug, Default)]
pub struct VehicleInfo {
    pub id: String,
    pub label: Option<String>,
    pub registration: Option<String>,
    pub capacity: VehicleCapacity,
    pub vehicle_type: VehicleType,
    pub tag: Option<String>,
}

/// Vehicle capacity.
#[derive(Clone, Copy, Debug, Default)]
pub struct VehicleCapacity {
    pub seating: Option<i64>,
    pub standing: Option<i64>,
    pub total: Option<i64>,
}

/// Vehicle type (the Fleet API's `type.type`).
#[derive(Clone, Debug, Default)]
pub struct VehicleType {
    pub kind: Option<String>,
}

impl VehicleType {
    /// The vehicle is a train: its type is exactly `Train`.
    pub open spec fn train(self) -> bool {
        opt_view(self.kind) == Some("Train"@)
    }

    /// Whether the vehicle is a train.
    pub fn is_train(&self) -> (r: bool)
        ensures
            r == self.train(),
    {
        match &self.kind {
            Some(t) => crate::text::str_eq(t.as_str(), "Train"),
            None => false,
        }
    }
}

/// Trip instance from the Trip Management API.
#[derive(Clone, Debug, Default, PartialEq, Eq)]
pub struct TripInstance {
    pub trip_id: String,
    pub route_id: String,
    pub service_date: String,
    pub start_time: String,
    pub end_time: String,
    pub direction_id: Option<i32>,
    pub is_added_trip: bool,
    pub error: bool,
}

impl TripInstance {
    /// Whether the instance marks a failed lookup.
    pub fn has_error(&self) -> (r: bool)
        ensures
            r == self.error,
    {
        self.error
    }

    /// A copy of the instance with another trip and route.
    pub fn remap(&self, trip_id: &str, route_id: &str) -> (r: TripInstance)
        ensures
            r.trip_id@ == trip_id@,
            r.route_id@ == route_id@,
            r.service_date@ == self.service_date@,
            r.start_time@ == self.start_time@,
            r.end_time@ == self.end_time@,
            r.direction_id == self.direction_id,
            r.is_added_trip == self.is_added_trip,
            r.error == self.error,
    {
        TripInstance {
            trip_id: String::from_str(trip_id),
            route_id: String::from_str(route_id),
            service_date: self.service_date.clone(),
            start_time: self.start_time.clone(),
            end_time: self.end_time.clone(),
            direction_id: self.direction_id,
            is_added_trip: self.is_added_trip,
            error: self.error,
        }
    }
}

/// GTFS trip descriptor.
#[derive(Clone, Debug, Default)]
pub struct TripDescriptor {
    pub trip_id: String,
    pub route_id: String,
    pub start_time: Option<String>,
    pub start_date: Option<String>,
    pub direction_id: Option<i32>,
    pub schedule_relationship: Option<String>,
}

impl TripDescriptor {
    /// Schedule relationship of an added trip.
    pub const ADDED: &'static str = "ADDED";
    /// Schedule relationship of a scheduled trip.
    pub const SCHEDULED: &'static str = "SCHEDULED";

    /// The descriptor of a trip instance: its trip, route, start time and
    /// date and direction, `ADDED` for added trips and `SCHEDULED` for the
    /// others.
    pub open spec fn describes(self, inst: TripInstance) -> bool {
        &&& self.trip_id@ == inst.trip_id@
        &&& self.route_id@ == inst.route_id@
        &&& opt_view(self.start_time) == Some(inst.start_time@)
        &&& opt_view(self.start_date) == Some(inst.service_date@)
        &&& self.direction_id == inst.direction_id
        &&& opt_view(self.schedule_relationship) == Some(
            if inst.is_added_trip { "ADDED"@ } else { "SCHEDULED"@ })
    }

    /// The descriptor of a trip instance.
    pub fn from_instance(inst: &TripInstance) -> (r: TripDescriptor)
        ensures
            r.describes(*inst),
    {
        TripDescriptor {
            trip_id: inst.trip_id.clone(),
            route_id: inst.route_id.clone(),
            start_time: Some(inst.start_time.clone()),
            start_date: Some(inst.service_date.clone()),
            direction_id: inst.direction_id,
            schedule_relationship: Some(if inst.is_added_trip {
                String::from_str("ADDED")
            } else {
                String::from_str("SCHEDULED")
            }),
        }
    }
}

impl<'a> From<&'a TripInstance> for TripDescriptor {
    /// The descriptor of a trip instance (see [`TripDescriptor::describes`]).
    fn from(inst: &'a TripInstance) -> (r: TripDescriptor)
        ensures
            r.describes(*inst),
    {
        TripDescriptor::from_instance(inst)
    }
}

impl<'a> vstd::std_specs::convert::FromSpecImpl<&'a TripInstance> for TripDescriptor {
    /// The descriptor's strings are equal to the instance's by their
    /// characters only, which `==` on values does not capture; `from`
    /// states its result with [`TripDescriptor::describes`] instead.
    open spec fn obeys_from_spec() -> bool {
        false
    }

    open spec fn from_spec(inst: &'a TripInstance) -> TripDescriptor {
        arbitrary()
    }
}

/// Dead-reckoning vehicle reference.
#[derive(Clone, Debug, Default)]
pub struct VehicleDr {
    pub id: String,
}

/// GTFS vehicle descriptor.
#[derive(Clone, Debug, Default)]
pub struct VehicleDescriptor {
    pub id: String,
    pub label: Option<String>,
    pub license_plate: Option<String>,
}


/// A vehicle is a train exactly when its type is present and is the text
/// `Train`.
pub proof fn train_by_kind(v: VehicleType)
    ensures
        v.train() <==> (v.kind matches Some(k) && k@ == "Train"@),
{
}

} // verus!
