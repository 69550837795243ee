//! Trip and block instances, and GTFS trip descriptors.

use vstd::prelude::*;
use crate::text::opt_view;

verus! {

/// Trip instance from the Trip Management API.
#[derive(Clone, Debug)]
pub struct TripInstance {
    pub trip_id: String,
    pub route_id: Option<String>,
    pub service_date: String,
    pub start_time: String,
    pub end_time: Option<String>,
    pub direction_id: Option<i32>,
    pub is_added_trip: Option<bool>,
    pub error: bool,
}

/// Block allocation from the Block Management API.
#[derive(Clone, Debug)]
pub struct BlockInstance {
    pub trip_id: String,
    pub start_time: String,
    pub service_date: String,
    pub vehicle_ids: Vec<String>,
    pub error: bool,
}

/// GTFS trip descriptor.
#[derive(Clone, Debug, Default)]
pub struct TripDescriptor {
    pub trip_id: String,
    pub route_id: Option<String>,
    pub start_date: Option<String>,
    pub start_time: Option<String>,
    pub direction_id: Option<i32>,
    pub schedule_relationship: Option<ScheduleRelationship>,
}

/// GTFS schedule relationship of a trip.
#[derive(Clone, Copy, Debug, Default, PartialEq, Eq, Structural)]
pub enum ScheduleRelationship {
    #[default]
    Scheduled,
    Added,
}

/// A non-empty string as `Some`, the empty string as `None`.
pub open spec fn non_empty(s: Seq<char>) -> Option<Seq<char>> {
    if s.len() > 0 { Some(s) } else { None }
}

/// Every field but the failure flag is empty or absent.
pub open spec fn blank(t: TripInstance) -> bool {
    &&& t.trip_id@.len() == 0
    &&& t.route_id is None
    &&& t.service_date@.len() == 0
    &&& t.start_time@.len() == 0
    &&& t.end_time is None
    &&& t.direction_id is None
    &&& t.is_added_trip is None
}

impl Default for TripInstance {
    /// The blank instance, which marks no failure.
    fn default() -> (r: TripInstance)
        ensures
            blank(r),
            !r.error,
    {
        TripInstance {
            trip_id: String::new(),
            route_id: None,
            service_date: String::new(),
            start_time: String::new(),
            end_time: None,
            direction_id: None,
            is_added_trip: None,
            error: false,
        }
    }
}

impl TripInstance {
    /// An instance that marks a failed lookup: the default instance with
    /// its failure flag set.
    pub fn error_marker() -> (r: TripInstance)
        ensures
            r.error,
            blank(r),
    {
        TripInstance {
            trip_id: String::new(),
            route_id: None,
            service_date: String::new(),
            start_time: String::new(),
            end_time: None,
            direction_id: None,
            is_added_trip: None,
            error: true,
        }
    }

    /// Whether the instance marks a failed lookup.
    pub fn has_error(&self) -> (r: bool)
        ensures
            r == self.error,
    {
        self.error
    }

    /// The service date, when not empty.
    pub fn service_date(&self) -> (r: Option<&str>)
        ensures
            match r {
                Some(s) => non_empty(self.service_date@) == Some(s@),
                None => non_empty(self.service_date@) is None,
            },
    {
        if self.service_date.as_str().is_empty() { None } else { Some(self.service_date.as_str()) }
    }

    /// The start time, when not empty.
    pub fn start_time(&self) -> (r: Option<&str>)
        ensures
            match r {
                Some(s) => non_empty(self.start_time@) == Some(s@),
                None => non_empty(self.start_time@) is None,
            },
    {
        if self.start_time.as_str().is_empty() { None } else { Some(self.start_time.as_str()) }
    }

    /// The end time, when present and not empty.
    pub fn end_time(&self) -> (r: Option<&str>)
        ensures
            match r {
                Some(s) => opt_view(self.end_time) == Some(s@) && s@.len() > 0,
                None => opt_view(self.end_time) is None || self.end_time.unwrap()@.len() == 0,
            },
    {
        match &self.end_time {
            Some(e) => if e.as_str().is_empty() { None } else { Some(e.as_str()) },
            None => None,
        }
    }

    /// A copy of the instance with another trip and route.
    pub fn remap(&self, trip_id: &str, route_id: &str) -> (r: TripInstance)
        ensures
            r.trip_id@ == trip_id@,
            opt_view(r.route_id) == Some(route_id@),
            r.service_date == self.service_date,
            r.start_time == self.start_time,
            r.end_time == self.end_time,
            r.direction_id == self.direction_id,
            r.is_added_trip == self.is_added_trip,
            r.error == self.error,
    {
        TripInstance {
            trip_id: String::from_str(trip_id),
            route_id: Some(String::from_str(route_id)),
            service_date: self.service_date.clone(),
            start_time: self.start_time.clone(),
            end_time: self.end_time.clone(),
            direction_id: self.direction_id,
            is_added_trip: self.is_added_trip,
            error: self.error,
        }
    }

    /// The trip descriptor of the instance: its trip, route, date, start
    /// time and direction, `Added` for added trips, `Scheduled` otherwise.
    pub fn to_trip_descriptor(&self) -> (r: TripDescriptor)
        ensures
            r.trip_id == self.trip_id,
            r.route_id == self.route_id,
            r.start_date == Some(self.service_date),
            r.start_time == Some(self.start_time),
            r.direction_id == self.direction_id,
            r.schedule_relationship == Some(
                if self.is_added_trip == Some(true) { ScheduleRelationship::Added }
                else { ScheduleRelationship::Scheduled }),
    {
        TripDescriptor {
            trip_id: self.trip_id.clone(),
            route_id: self.route_id.clone(),
            start_date: Some(self.service_date.clone()),
            start_time: Some(self.start_time.clone()),
            direction_id: self.direction_id,
            schedule_relationship: if self.is_added_trip == Some(true) {
                Some(ScheduleRelationship::Added)
            } else {
                Some(ScheduleRelationship::Scheduled)
            },
        }
    }
}

impl Default for BlockInstance {
    /// The empty allocation, which marks no failure.
    fn default() -> (r: BlockInstance)
        ensures
            !r.error,
            r.trip_id@.len() == 0,
            r.start_time@.len() == 0,
            r.service_date@.len() == 0,
            r.vehicle_ids@.len() == 0,
    {
        BlockInstance {
            trip_id: String::new(),
            start_time: String::new(),
            service_date: String::new(),
            vehicle_ids: Vec::new(),
            error: false,
        }
    }
}

impl BlockInstance {
    /// Whether the allocation marks a failed lookup.
    pub fn has_error(&self) -> (r: bool)
        ensures
            r == self.error,
    {
        self.error
    }
}

impl TripDescriptor {
    /// The trip ID.
    pub fn trip_id(&self) -> (r: &str)
        ensures
            r@ == self.trip_id@,
    {
        self.trip_id.as_str()
    }

    /// The route ID, if any.
    pub fn route_id(&self) -> (r: Option<&str>)
        ensures
            match r {
                Some(s) => opt_view(self.route_id) == Some(s@),
                None => self.route_id is None,
            },
    {
        match &self.route_id {
            Some(s) => Some(s.as_str()),
            None => None,
        }
    }

    /// The start date, or the empty string.
    pub fn start_date(&self) -> (r: &str)
        ensures
            r@ == match self.start_date { Some(s) => s@, None => Seq::empty() },
    {
        match &self.start_date {
            Some(s) => s.as_str(),
            None => {
                proof {
                    reveal_strlit("");
                }
                ""
            },
        }
    }

    /// The start time, or the empty string.
    pub fn start_time(&self) -> (r: &str)
        ensures
            r@ == match self.start_time { Some(s) => s@, None => Seq::empty() },
    {
        match &self.start_time {
            Some(s) => s.as_str(),
            None => {
                proof {
                    reveal_strlit("");
                }
                ""
            },
        }
    }

    /// The direction, if any.
    pub fn direction_id(&self) -> (r: Option<i32>)
        ensures
            r == self.direction_id,
    {
        self.direction_id
    }
}

} // verus!
