//! God Mode: operators put vehicles on trips by hand, and those overrides
//! take the place of the trips that serial data reports.
//!
//! The overrides are a map from vehicle ID to trip ID; the application loads
//! it from the state store and saves it back.

use vstd::prelude::*;
use crate::smartrak_gtfs::handlers::{DecodedSerialData, EventType, ResetReply, ResetScope, SetTripReply,
    SetTripRequest, SmarTrakMessage, reset_reply, set_trip_reply};
use crate::text::{ascii_lowercase, opt_view, str_eq, to_ascii_lowercase, trim, trim_spec};

verus! {

/// The state store key of the overrides.
pub const KEY_GOD_MODE: &'static str = "god_mode:overrides";

/// How long saved overrides live, in seconds (a day).
pub const TTL_GOD_MODE: u64 = 86400;

/// The trip override that clears a vehicle's trip.
pub const EMPTY_TRIP: &'static str = "empty";

/// The vehicle to trip overrides.
#[derive(Debug)]
pub struct GodModeState {
    overrides: Vec<(String, String)>,
}

/// No vehicle appears twice.
pub open spec fn distinct_keys(entries: Seq<(String, String)>) -> bool {
    forall|i: int, j: int| 0 <= i < j < entries.len() ==> (#[trigger] entries[i]).0@ != (#[trigger] entries[j]).0@
}

/// The map an entry list stands for.
pub open spec fn entries_map(entries: Seq<(String, String)>) -> Map<Seq<char>, Seq<char>>
    decreases entries.len(),
{
    if entries.len() == 0 {
        Map::empty()
    } else {
        entries_map(entries.drop_last()).insert(entries.last().0@, entries.last().1@)
    }
}

proof fn lemma_entries_map_dom(entries: Seq<(String, String)>, k: Seq<char>)
    ensures
        entries_map(entries).contains_key(k) <==> exists|i: int| 0 <= i < entries.len() && (#[trigger] entries[i]).0@ == k,
    decreases entries.len(),
{
    if entries.len() > 0 {
        lemma_entries_map_dom(entries.drop_last(), k);
        if entries_map(entries.drop_last()).contains_key(k) {
            let i = choose|i: int| 0 <= i < entries.drop_last().len() && (#[trigger] entries.drop_last()[i]).0@ == k;
            assert(entries[i].0@ == k);
        }
        if exists|i: int| 0 <= i < entries.len() && (#[trigger] entries[i]).0@ == k {
            let i = choose|i: int| 0 <= i < entries.len() && (#[trigger] entries[i]).0@ == k;
            if i < entries.len() - 1 {
                assert(entries.drop_last()[i].0@ == k);
            }
        }
    }
}

proof fn lemma_entries_map_at(entries: Seq<(String, String)>, i: int)
    requires
        distinct_keys(entries),
        0 <= i < entries.len(),
    ensures
        entries_map(entries).contains_key(entries[i].0@),
        entries_map(entries)[entries[i].0@] == entries[i].1@,
    decreases entries.len(),
{
    if i < entries.len() - 1 {
        lemma_entries_map_at(entries.drop_last(), i);
        assert(entries.drop_last()[i] == entries[i]);
        assert(entries[i].0@ != entries.last().0@);
    }
}

proof fn lemma_entries_map_remove(entries: Seq<(String, String)>, i: int)
    requires
        distinct_keys(entries),
        0 <= i < entries.len(),
    ensures
        entries_map(entries.remove(i)) == entries_map(entries).remove(entries[i].0@),
        distinct_keys(entries.remove(i)),
    decreases entries.len(),
{
    let k = entries[i].0@;
    if i == entries.len() - 1 {
        assert(entries.remove(i) =~= entries.drop_last());
        lemma_entries_map_dom(entries.drop_last(), k);
        assert(!entries_map(entries.drop_last()).contains_key(k));
        assert(entries_map(entries.remove(i)) =~= entries_map(entries).remove(k));
    } else {
        lemma_entries_map_remove(entries.drop_last(), i);
        assert(entries.remove(i).drop_last() =~= entries.drop_last().remove(i));
        assert(entries.remove(i).last() == entries.last());
        assert(entries.last().0@ != k);
        assert(entries_map(entries.remove(i)) =~= entries_map(entries).remove(k));
    }
}

impl View for GodModeState {
    type V = Map<Seq<char>, Seq<char>>;

    closed spec fn view(&self) -> Map<Seq<char>, Seq<char>> {
        entries_map(self.overrides@)
    }
}

impl GodModeState {
    /// The state is well formed: no vehicle appears twice.
    pub closed spec fn wf(&self) -> bool {
        distinct_keys(self.overrides@)
    }

    /// No overrides.
    pub fn new() -> (r: GodModeState)
        ensures
            r.wf(),
            r@ == Map::<Seq<char>, Seq<char>>::empty(),
    {
        GodModeState { overrides: Vec::new() }
    }

    fn find(&self, vehicle_id: &str) -> (r: Option<usize>)
        requires
            self.wf(),
        ensures
            match r {
                Some(i) => i < self.overrides@.len() && self.overrides@[i as int].0@ == vehicle_id@,
                None => !self@.contains_key(vehicle_id@),
            },
    {
        let n = self.overrides.len();
        let mut i: usize = 0;
        while i < n
            invariant
                n == self.overrides@.len(),
                0 <= i <= n,
                forall|j: int| 0 <= j < i ==> (#[trigger] self.overrides@[j]).0@ != vehicle_id@,
            decreases n - i,
        {
            if str_eq(self.overrides[i].0.as_str(), vehicle_id) {
                return Some(i);
            }
            i = i + 1;
        }
        proof {
            lemma_entries_map_dom(self.overrides@, vehicle_id@);
        }
        None
    }

    /// The trip a vehicle is put on, if any.
    pub fn override_for(&self, vehicle_id: &str) -> (r: Option<&str>)
        requires
            self.wf(),
        ensures
            match r {
                Some(t) => self@.contains_key(vehicle_id@) && self@[vehicle_id@] == t@,
                None => !self@.contains_key(vehicle_id@),
            },
    {
        match self.find(vehicle_id) {
            Some(i) => {
                proof {
                    lemma_entries_map_at(self.overrides@, i as int);
                }
                Some(self.overrides[i].1.as_str())
            },
            None => None,
        }
    }

    /// Puts a vehicle on a trip, replacing any earlier override for it.
    pub fn set_vehicle_to_trip(&mut self, vehicle_id: &str, trip_id: &str)
        requires
            old(self).wf(),
        ensures
            final(self).wf(),
            final(self)@ == old(self)@.insert(vehicle_id@, trip_id@),
    {
        self.reset_vehicle(vehicle_id);
        let ghost before = self.overrides@;
        proof {
            lemma_entries_map_dom(before, vehicle_id@);
        }
        self.overrides.push((String::from_str(vehicle_id), String::from_str(trip_id)));
        proof {
            assert(self.overrides@.drop_last() =~= before);
            assert forall|i: int, j: int| 0 <= i < j < self.overrides@.len()
                implies (#[trigger] self.overrides@[i]).0@ != (#[trigger] self.overrides@[j]).0@ by {
                if j == self.overrides@.len() - 1 {
                    assert(before[i] == self.overrides@[i]);
                } else {
                    assert(before[i] == self.overrides@[i]);
                    assert(before[j] == self.overrides@[j]);
                }
            }
        }
    }

    /// Clears the override of a vehicle.
    pub fn reset_vehicle(&mut self, vehicle_id: &str)
        requires
            old(self).wf(),
        ensures
            final(self).wf(),
            final(self)@ == old(self)@.remove(vehicle_id@),
    {
        match self.find(vehicle_id) {
            Some(i) => {
                proof {
                    lemma_entries_map_remove(self.overrides@, i as int);
                }
                self.overrides.remove(i);
            },
            None => {
                assert(self@.remove(vehicle_id@) =~= self@);
            },
        }
    }

    /// Clears every override.
    pub fn reset_all(&mut self)
        ensures
            final(self).wf(),
            final(self)@ == Map::<Seq<char>, Seq<char>>::empty(),
    {
        self.overrides = Vec::new();
    }

    /// Builds the state from stored vehicle and trip pairs; a later pair for
    /// a vehicle replaces an earlier one.
    pub fn from_pairs(pairs: Vec<(String, String)>) -> (r: GodModeState)
        ensures
            r.wf(),
            r@ == entries_map(pairs@),
    {
        let mut state = GodModeState::new();
        let n = pairs.len();
        let mut i: usize = 0;
        while i < n
            invariant
                n == pairs@.len(),
                0 <= i <= n,
                state.wf(),
                state@ == entries_map(pairs@.take(i as int)),
            decreases n - i,
        {
            state.set_vehicle_to_trip(pairs[i].0.as_str(), pairs[i].1.as_str());
            assert(pairs@.take(i + 1).drop_last() =~= pairs@.take(i as int));
            i = i + 1;
        }
        assert(pairs@.take(n as int) =~= pairs@);
        state
    }

    /// The overrides as vehicle and trip pairs, each vehicle once.
    pub fn entries(&self) -> (r: Vec<(String, String)>)
        requires
            self.wf(),
        ensures
            distinct_keys(r@),
            entries_map(r@) == self@,
    {
        let n = self.overrides.len();
        let mut out: Vec<(String, String)> = Vec::new();
        let mut i: usize = 0;
        while i < n
            invariant
                n == self.overrides@.len(),
                0 <= i <= n,
                out@.len() == i,
                forall|j: int| 0 <= j < i ==> (#[trigger] out@[j]).0@ == self.overrides@[j].0@
                    && out@[j].1@ == self.overrides@[j].1@,
                entries_map(out@) == entries_map(self.overrides@.take(i as int)),
            decreases n - i,
        {
            let pair = (self.overrides[i].0.clone(), self.overrides[i].1.clone());
            let ghost before = out@;
            out.push(pair);
            assert(self.overrides@.take(i + 1).drop_last() =~= self.overrides@.take(i as int));
            assert(out@.drop_last() =~= before);
            i = i + 1;
        }
        assert(self.overrides@.take(n as int) =~= self.overrides@);
        assert forall|a: int, b: int| 0 <= a < b < out@.len()
            implies (#[trigger] out@[a]).0@ != (#[trigger] out@[b]).0@ by {
            assert(self.overrides@[a].0@ != self.overrides@[b].0@);
        }
        out
    }
}

/// The decoded serial data a God Mode override applies to: that of a serial
/// data event from a known vehicle.
pub open spec fn override_target(m: SmarTrakMessage) -> Option<Seq<char>> {
    if m.event_type == EventType::SerialData && m.remote_data is Some && m.remote_data.unwrap().external_id is Some
        && m.serial_data is Some && m.serial_data.unwrap().decoded_serial_data is Some {
        Some(m.remote_data.unwrap().external_id.unwrap()@)
    } else {
        None
    }
}

/// `after` is `before` with the override `trip` applied to its decoded
/// serial data.
pub open spec fn applied(before: DecodedSerialData, trip: Seq<char>, after: DecodedSerialData) -> bool {
    &&& after.line_id is None
    &&& if trip == EMPTY_TRIP@ {
        after.trip_id is None && after.trip_number is None
    } else {
        opt_view(after.trip_id) == Some(trip) && opt_view(after.trip_number) == Some(trip)
    }
}

/// Applies the vehicle's override, if any, to a serial data event: the line
/// is cleared, and the trip ID and number become the override's trip (both
/// cleared for `empty`). Other events, and events without an external ID or
/// decoded serial data, are left as they are.
pub fn preprocess(state: &GodModeState, event: &mut SmarTrakMessage)
    requires
        state.wf(),
    ensures
        match override_target(*old(event)) {
            Some(v) if state@.contains_key(v) => {
                &&& final(event).event_type == old(event).event_type
                &&& final(event).remote_data == old(event).remote_data
                &&& final(event).message_data == old(event).message_data
                &&& final(event).location_data == old(event).location_data
                &&& final(event).event_data == old(event).event_data
                &&& final(event).serial_data matches Some(sd) && sd.decoded_serial_data matches Some(d)
                    && applied(old(event).serial_data.unwrap().decoded_serial_data.unwrap(), state@[v], d)
            },
            _ => *final(event) == *old(event),
        },
{
    if event.event_type != EventType::SerialData {
        return;
    }
    let vehicle_id = match &event.remote_data {
        Some(rd) => match &rd.external_id {
            Some(id) => id.clone(),
            None => return,
        },
        None => return,
    };
    let trip = match state.override_for(vehicle_id.as_str()) {
        Some(t) => String::from_str(t),
        None => {
            return;
        },
    };
    let mut serial = match event.serial_data.take() {
        Some(s) => s,
        None => return,
    };
    let decoded = match serial.decoded_serial_data.take() {
        Some(d) => d,
        None => {
            event.serial_data = Some(serial);
            return;
        },
    };
    let decoded = if str_eq(trip.as_str(), EMPTY_TRIP) {
        DecodedSerialData { trip_number: None, trip_id: None, line_id: None }
    } else {
        DecodedSerialData { trip_number: Some(trip.clone()), trip_id: Some(trip), line_id: None }
    };
    serial.decoded_serial_data = Some(decoded);
    event.serial_data = Some(serial);
}

/// A setting that turns God Mode on: after trimming, `1`, `true`, `yes` or
/// `on` in any ASCII case.
pub open spec fn enabled_spec(value: Option<Seq<char>>) -> bool {
    match value {
        Some(v) => {
            let n = ascii_lowercase(trim_spec(v));
            n == "1"@ || n == "true"@ || n == "yes"@ || n == "on"@
        },
        None => false,
    }
}

/// Whether God Mode is on, given the `GOD_MODE_ENABLED` setting (absent
/// when it could not be read).
pub fn is_enabled(value: Option<&str>) -> (r: bool)
    ensures
        r == enabled_spec(match value { Some(v) => Some(v@), None => None }),
{
    match value {
        Some(v) => {
            let t = trim(v);
            let n = to_ascii_lowercase(t.as_str());
            str_eq(n.as_str(), "1") || str_eq(n.as_str(), "true") || str_eq(n.as_str(), "yes")
                || str_eq(n.as_str(), "on")
        },
        None => false,
    }
}

/// Puts the requested vehicle on the requested trip when God Mode is on;
/// refused otherwise.
pub fn set_trip(enabled: bool, state: &mut GodModeState, request: SetTripRequest) -> (r: Result<SetTripReply, String>)
    requires
        old(state).wf(),
    ensures
        final(state).wf(),
        enabled ==> (r matches Ok(reply) && reply.message@ == "Ok"@ && reply.process == 0)
            && final(state)@ == old(state)@.insert(request.0@, request.1@),
        !enabled ==> (r matches Err(e) && e@ == "God mode not enabled"@) && final(state)@ == old(state)@,
{
    if !enabled {
        return Err(String::from_str("God mode not enabled"));
    }
    state.set_vehicle_to_trip(request.0.as_str(), request.1.as_str());
    Ok(set_trip_reply())
}

/// Clears the overrides a reset request names, when God Mode is on.
pub fn reset(enabled: bool, state: &mut GodModeState, scope: ResetScope) -> (r: Result<ResetReply, String>)
    requires
        old(state).wf(),
    ensures
        final(state).wf(),
        enabled ==> (r matches Ok(reply) && reply.message@ == "Ok"@ && reply.process == 0) && match scope {
            ResetScope::All => final(state)@ == Map::<Seq<char>, Seq<char>>::empty(),
            ResetScope::Vehicle(v) => final(state)@ == old(state)@.remove(v@),
        },
        !enabled ==> (r matches Err(e) && e@ == "God mode not enabled"@) && final(state)@ == old(state)@,
{
    if !enabled {
        return Err(String::from_str("God mode not enabled"));
    }
    match scope {
        ResetScope::All => state.reset_all(),
        ResetScope::Vehicle(v) => state.reset_vehicle(v.as_str()),
    }
    Ok(reset_reply())
}

/// After a vehicle is put on a trip, its override is that trip.
pub proof fn set_then_read(overrides: Map<Seq<char>, Seq<char>>, vehicle: Seq<char>, trip: Seq<char>)
    ensures
        overrides.insert(vehicle, trip).contains_key(vehicle),
        overrides.insert(vehicle, trip)[vehicle] == trip,
{
}

/// Putting one vehicle on a trip leaves the overrides of the others as they
/// were.
pub proof fn set_keeps_others(overrides: Map<Seq<char>, Seq<char>>, vehicle: Seq<char>, trip: Seq<char>, other: Seq<char>)
    requires
        other != vehicle,
    ensures
        overrides.insert(vehicle, trip).contains_key(other) == overrides.contains_key(other),
        overrides.contains_key(other) ==> overrides.insert(vehicle, trip)[other] == overrides[other],
{
}

/// A reset after putting a vehicle on a trip leaves no override for it, and
/// the same overrides as resetting it straight away.
pub proof fn set_then_reset(overrides: Map<Seq<char>, Seq<char>>, vehicle: Seq<char>, trip: Seq<char>)
    ensures
        !overrides.insert(vehicle, trip).remove(vehicle).contains_key(vehicle),
        overrides.insert(vehicle, trip).remove(vehicle) == overrides.remove(vehicle),
{
    assert(overrides.insert(vehicle, trip).remove(vehicle) =~= overrides.remove(vehicle));
}


/// An override applies only to a serial data event that carries decoded
/// serial data, and then to the vehicle of its external ID.
pub proof fn override_applies_to_serial_data(m: SmarTrakMessage)
    ensures
        override_target(m) is Some ==> {
            &&& m.event_type == EventType::SerialData
            &&& m.serial_data is Some && m.serial_data.unwrap().decoded_serial_data is Some
            &&& m.remote_data is Some && m.remote_data.unwrap().external_id is Some
            &&& override_target(m) == Some(m.remote_data.unwrap().external_id.unwrap()@)
        },
        m.event_type != EventType::SerialData ==> override_target(m) is None,
{
}

/// Applying an override clears the line and puts the override's trip as
/// both the trip ID and the trip number; the trip `empty` clears both.
pub proof fn override_sets_trip(before: DecodedSerialData, trip: Seq<char>, after: DecodedSerialData)
    requires
        applied(before, trip, after),
    ensures
        after.line_id is None,
        trip != "empty"@ ==> after.trip_id is Some && after.trip_id.unwrap()@ == trip
            && after.trip_number is Some && after.trip_number.unwrap()@ == trip,
        trip == "empty"@ ==> after.trip_id is None && after.trip_number is None,
{
}

} // verus!
