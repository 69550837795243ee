//! GTFS-realtime output records.

use vstd::prelude::*;
use crate::smartrak_gtfs::model::trip::{ScheduleRelationship, TripDescriptor};
use crate::text::opt_view;

verus! {

/// GTFS vehicle descriptor.
#[derive(Clone, Debug, Default)]
pub struct VehicleDescriptor {
    pub id: String,
    pub label: Option<String>,
    pub license_plate: Option<String>,
}

/// GTFS trip descriptor as published (empty fields left out).
#[derive(Clone, Debug, Default)]
pub struct TripDescriptorPayload {
    pub trip_id: String,
    pub route_id: Option<String>,
    pub start_date: Option<String>,
    pub start_time: Option<String>,
    pub direction_id: Option<i32>,
    pub schedule_relationship: Option<GtfsScheduleRelationship>,
}

/// GTFS schedule relationship as published.
#[derive(Clone, Copy, Debug, Default, PartialEq, Eq, Structural)]
pub enum GtfsScheduleRelationship {
    #[default]
    Scheduled,
    Added,
}

/// GTFS occupancy status.
#[derive(Clone, Copy, Debug, PartialEq, Eq, Structural)]
pub enum OccupancyStatus {
    Empty,
    ManySeatsAvailable,
    FewSeatsAvailable,
    StandingRoomOnly,
    CrushedStandingRoomOnly,
    Full,
    NotAcceptingPassengers,
}

/// A present, non-empty string as `Some`, otherwise `None`.
pub open spec fn present(o: Option<String>) -> Option<Seq<char>> {
    match o {
        Some(s) => if s@.len() > 0 { Some(s@) } else { None },
        None => None,
    }
}

impl TripDescriptorPayload {
    /// The published form of a descriptor: the same trip, route and
    /// direction, the start date and time only when not empty, and the
    /// schedule relationship mapped variant by variant.
    pub open spec fn publishes(self, value: TripDescriptor) -> bool {
        &&& self.trip_id@ == value.trip_id@
        &&& opt_view(self.route_id) == opt_view(value.route_id)
        &&& opt_view(self.start_date) == present(value.start_date)
        &&& opt_view(self.start_time) == present(value.start_time)
        &&& self.direction_id == value.direction_id
        &&& self.schedule_relationship == match value.schedule_relationship {
            Some(ScheduleRelationship::Scheduled) => Some(GtfsScheduleRelationship::Scheduled),
            Some(ScheduleRelationship::Added) => Some(GtfsScheduleRelationship::Added),
            None => None::<GtfsScheduleRelationship>,
        }
    }

    /// The published form of a descriptor.
    pub fn from_descriptor(value: &TripDescriptor) -> (r: TripDescriptorPayload)
        ensures
            r.publishes(*value),
    {
        let start_date = value.start_date();
        let start_time = value.start_time();
        TripDescriptorPayload {
            trip_id: String::from_str(value.trip_id()),
            route_id: match value.route_id() {
                Some(s) => Some(String::from_str(s)),
                None => None,
            },
            start_date: if start_date.is_empty() { None } else { Some(String::from_str(start_date)) },
            start_time: if start_time.is_empty() { None } else { Some(String::from_str(start_time)) },
            direction_id: value.direction_id(),
            schedule_relationship: match value.schedule_relationship {
                Some(ScheduleRelationship::Scheduled) => Some(GtfsScheduleRelationship::Scheduled),
                Some(ScheduleRelationship::Added) => Some(GtfsScheduleRelationship::Added),
                None => None,
            },
        }
    }
}

impl<'a> From<&'a TripDescriptor> for TripDescriptorPayload {
    /// The published form of a descriptor (see
    /// [`TripDescriptorPayload::publishes`]).
    fn from(value: &'a TripDescriptor) -> (r: TripDescriptorPayload)
        ensures
            r.publishes(*value),
    {
        TripDescriptorPayload::from_descriptor(value)
    }
}

impl<'a> vstd::std_specs::convert::FromSpecImpl<&'a TripDescriptor> for TripDescriptorPayload {
    /// The payload's strings equal the descriptor's by their characters
    /// only, which `==` on values does not capture; `from` states its
    /// result with [`TripDescriptorPayload::publishes`] instead.
    open spec fn obeys_from_spec() -> bool {
        false
    }

    open spec fn from_spec(value: &'a TripDescriptor) -> TripDescriptorPayload {
        arbitrary()
    }
}

} // verus!
