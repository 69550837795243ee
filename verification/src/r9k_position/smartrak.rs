//! SmarTrak events produced from R9K train updates.

use vstd::prelude::*;
use crate::r9k_position::r9k::TrainUpdate;
use crate::r9k_position::stops::{active_station, station_stop, station_stop_code};
use crate::text::{remove_char, remove_char_spec};

verus! {

/// SmarTrak event type.
#[derive(Clone, Copy, Debug, PartialEq, Eq, Structural)]
pub enum EventType {
    /// Location event.
    Location,
}

/// Remote data associated with an event.
#[derive(Clone, Debug, PartialEq, Eq)]
pub struct RemoteData {
    /// External identifier.
    pub external_id: String,
}

/// Event data (always empty).
#[derive(Clone, Copy, Debug, PartialEq, Eq, Structural)]
pub struct EventData {}

/// What to do with a train update once it is valid.
#[derive(Clone, Debug, PartialEq, Eq)]
pub enum EventPlan {
    /// The change does not concern trip progress: no events.
    NotRelevant,
    /// The station is not one the adapter reports on: no events.
    NotActiveStation,
    /// Locate the train at this stop (its arrival or departure location)
    /// and report it for the vehicles allocated to this train.
    Locate { stop_code: String, is_arrival: bool, train_id: String },
}

/// The plan for an update whose first change is `c`.
pub open spec fn plan_spec(update: TrainUpdate) -> (bool, bool, Seq<char>, bool, Seq<char>) {
    let c = update.changes[0];
    (c.change_type.relevant(), active_station(c.station) && station_stop(c.station) is Some,
        station_stop(c.station).unwrap_or(Seq::empty()), c.change_type.arrival(),
        update.train_id_spec())
}

/// The external identifier reported for an allocated vehicle: its label
/// without spaces.
pub fn external_id_of(vehicle: &str) -> (r: String)
    ensures
        r@ == remove_char_spec(vehicle@, ' '),
{
    remove_char(vehicle, ' ')
}

/// The external identifiers reported for the allocated vehicles, in order.
pub fn external_ids(allocated: &Vec<String>) -> (r: Vec<String>)
    ensures
        r.len() == allocated.len(),
        forall|i: int| 0 <= i < r.len() ==> #[trigger] r[i]@ == remove_char_spec(allocated[i]@, ' '),
{
    let mut out: Vec<String> = Vec::new();
    let n = allocated.len();
    for i in 0..n
        invariant
            n == allocated.len(),
            out.len() == i,
            forall|j: int| 0 <= j < i ==> #[trigger] out[j]@ == remove_char_spec(allocated[j]@, ' '),
    {
        out.push(external_id_of(allocated[i].as_str()));
    }
    out
}

impl TrainUpdate {
    /// Decides how a valid update becomes events: irrelevant change types
    /// and inactive stations give none; otherwise the train is located at
    /// the station's stop.
    pub fn plan_events(&self) -> (r: EventPlan)
        requires
            self.changes.len() > 0,
        ensures
            ({
                let (relevant, active, code, arrival, train) = plan_spec(*self);
                match r {
                    EventPlan::NotRelevant => !relevant,
                    EventPlan::NotActiveStation => relevant && !active,
                    EventPlan::Locate { stop_code, is_arrival, train_id } => relevant && active
                        && stop_code@ == code && is_arrival == arrival && train_id@ == train,
                }
            }),
    {
        let change = &self.changes[0];
        if !change.change_type.is_relevant() {
            return EventPlan::NotRelevant;
        }
        match station_stop_code(change.station) {
            None => EventPlan::NotActiveStation,
            Some(code) => EventPlan::Locate {
                stop_code: String::from_str(code),
                is_arrival: change.change_type.is_arrival(),
                train_id: self.train_id(),
            },
        }
    }
}

} // verus!
