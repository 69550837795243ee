//! Trip Management lookups: which trip instance a vehicle is running.
//!
//! The requests themselves are made by the application; this module decides
//! what to make of their answers.

use vstd::prelude::*;
use crate::decimal::{parse_i64, parse_i64_spec};
use crate::smartrak_gtfs::clock::{AUCKLAND, calendar, wall_seconds, zoned_calendar, zoned_wall_seconds};
use crate::smartrak_gtfs::models::TripInstance;
use crate::text::{split_char, split_spec, str_eq};

verus! {

/// `t` marks a failed Trip Management request for a service date: it is
/// empty but for the date and the error flag.
pub open spec fn is_error_trip(t: TripInstance, service_date: Seq<char>) -> bool {
    &&& t.error
    &&& t.service_date@ == service_date
    &&& t.trip_id@.len() == 0
    &&& t.route_id@.len() == 0
    &&& t.start_time@.len() == 0
    &&& t.end_time@.len() == 0
    &&& t.direction_id is None
    &&& !t.is_added_trip
}

/// The instance that marks a failed request for a service date.
pub fn error_trip(service_date: &str) -> (r: TripInstance)
    ensures
        is_error_trip(r, service_date@),
{
    TripInstance {
        trip_id: String::new(),
        route_id: String::new(),
        service_date: String::from_str(service_date),
        start_time: String::new(),
        end_time: String::new(),
        direction_id: None,
        is_added_trip: false,
        error: true,
    }
}

/// A field-by-field copy of a trip instance.
pub fn copy_trip(t: &TripInstance) -> (r: TripInstance)
    ensures
        r == *t,
{
    TripInstance {
        trip_id: t.trip_id.clone(),
        route_id: t.route_id.clone(),
        service_date: t.service_date.clone(),
        start_time: t.start_time.clone(),
        end_time: t.end_time.clone(),
        direction_id: t.direction_id,
        is_added_trip: t.is_added_trip,
        error: t.error,
    }
}

/// `i` is the first instance that starts at `start`.
pub open spec fn first_start_at(trips: Seq<TripInstance>, start: Seq<char>, i: int) -> bool {
    &&& 0 <= i < trips.len()
    &&& trips[i].start_time@ == start
    &&& forall|j: int| 0 <= j < i ==> (#[trigger] trips[j]).start_time@ != start
}

/// The instance chosen for an exact start time: the first instance when it
/// marks a failed request, else the first that starts at `start`.
pub open spec fn instance_choice(trips: Seq<TripInstance>, start: Seq<char>) -> Option<TripInstance> {
    if trips.len() == 0 {
        None
    } else if trips[0].error {
        Some(trips[0])
    } else if exists|i: int| first_start_at(trips, start, i) {
        Some(trips[choose|i: int| first_start_at(trips, start, i)])
    } else {
        None
    }
}

/// Chooses, among the instances of a trip on a service date, the one that
/// starts at `start_time` (or the failure marker, when the request failed).
pub fn select_instance(trips: Vec<TripInstance>, start_time: &str) -> (r: Option<TripInstance>)
    ensures
        r == instance_choice(trips@, start_time@),
{
    let mut list = trips;
    let ghost all = list@;
    if list.len() == 0 {
        return None;
    }
    if list[0].error {
        return Some(list.remove(0));
    }
    let n = list.len();
    let mut i: usize = 0;
    while i < n
        invariant
            list@ == all,
            all == trips@,
            n == all.len(),
            0 < n,
            !all[0].error,
            0 <= i <= n,
            forall|j: int| 0 <= j < i ==> (#[trigger] all[j]).start_time@ != start_time@,
        decreases n - i,
    {
        if str_eq(list[i].start_time.as_str(), start_time) {
            assert(all[i as int].start_time@ == start_time@);
            proof {
                assert(first_start_at(all, start_time@, i as int));
                let c = choose|c: int| first_start_at(all, start_time@, c);
                assert(first_start_at(all, start_time@, c));
                if c < i {
                    assert(all[c].start_time@ != start_time@);
                }
                if i < c {
                    assert(all[i as int].start_time@ != start_time@);
                }
            }
            let t = list.remove(i);
            return Some(t);
        }
        i = i + 1;
    }
    proof {
        assert forall|c: int| !first_start_at(all, start_time@, c) by {
            if 0 <= c < n {
                assert(all[c].start_time@ != start_time@);
            }
        }
    }
    None
}

/// The hour, minute and second fields of `h:m:s` (further fields are
/// ignored), each an `i64` in decimal.
pub open spec fn time_fields(time: Seq<char>) -> Option<(i64, i64, i64)> {
    let parts = split_spec(time, ':');
    if parts.len() < 3 {
        None
    } else {
        match (parse_i64_spec(parts[0]), parse_i64_spec(parts[1]), parse_i64_spec(parts[2])) {
            (Some(h), Some(m), Some(s)) => Some((h, m, s)),
            _ => None,
        }
    }
}

/// `v` is a value of `i64`.
pub open spec fn fits_i64(v: int) -> bool {
    i64::MIN <= v <= i64::MAX
}

/// Seconds after midnight of a GTFS time `h:m:s` (hours may pass 24):
/// `h * 3600 + m * 60 + s`, or `None` when a field is missing or not an
/// integer, or the total is out of the range of `i64`.
pub open spec fn parse_time_spec(time: Seq<char>) -> Option<i64> {
    match time_fields(time) {
        Some((h, m, s)) => {
            let total = h * 3600 + m * 60 + s;
            if fits_i64(total) { Some(total as i64) } else { None }
        },
        None => None,
    }
}

/// Parses a GTFS time `h:m:s` into seconds after midnight.
pub fn parse_time(time: &str) -> (r: Option<i64>)
    ensures
        r == parse_time_spec(time@),
{
    let parts = split_char(time, ':');
    if parts.len() < 3 {
        return None;
    }
    let h = match parse_i64(parts[0].as_str()) {
        Some(v) => v,
        None => return None,
    };
    let m = match parse_i64(parts[1].as_str()) {
        Some(v) => v,
        None => return None,
    };
    let s = match parse_i64(parts[2].as_str()) {
        Some(v) => v,
        None => return None,
    };
    let total: i128 = (h as i128) * 3600 + (m as i128) * 60 + (s as i128);
    if total < (i64::MIN as i128) || total > (i64::MAX as i128) {
        return None;
    }
    Some(total as i64)
}

/// Whole days and the remaining seconds of a number of seconds (Euclidean).
fn split_days(total: i64) -> (r: (i64, i64))
    ensures
        r.0 == total / 86400,
        r.1 == total % 86400,
        0 <= r.1 < 86400,
{
    if total >= 0 {
        (total / 86400, total % 86400)
    } else {
        let p: i64 = -(total + 1);
        let q: i64 = -(p / 86400) - 1;
        let rem: i64 = 86399 - p % 86400;
        assert(q * 86400 + rem == total) by (nonlinear_arith)
            requires
                p == -(total + 1),
                q == -(p / 86400) - 1,
                rem == 86399 - p % 86400,
                p >= 0,
        {
        }
        (q, rem)
    }
}

/// Unix time at which a trip instance starts in Auckland: its start time
/// taken as wall-clock time on its service date, hours past 24 rolling over
/// into the following days.
pub open spec fn trip_timestamp_spec(trip: TripInstance) -> Option<i64> {
    match parse_time_spec(trip.start_time@) {
        Some(total) => {
            let rem = total % 86400;
            zoned_wall_seconds(AUCKLAND@, trip.service_date@, (total / 86400) as i64,
                (rem / 3600) as u32, ((rem % 3600) / 60) as u32, (rem % 60) as u32)
        },
        None => None,
    }
}

/// The Unix time at which a trip instance starts.
pub fn trip_timestamp(trip: &TripInstance) -> (r: Option<i64>)
    ensures
        r == trip_timestamp_spec(*trip),
{
    let total = match parse_time(trip.start_time.as_str()) {
        Some(t) => t,
        None => return None,
    };
    let (days, rem) = split_days(total);
    wall_seconds(AUCKLAND, trip.service_date.as_str(), days, (rem / 3600) as u32, ((rem % 3600) / 60) as u32,
        (rem % 60) as u32)
}

/// Distance between two instants.
pub open spec fn distance(a: int, b: int) -> int {
    if a >= b { a - b } else { b - a }
}

/// How far a trip's start is from an event: zero when its start is unknown.
pub open spec fn difference_spec(event_ts: i64, trip: TripInstance) -> int {
    match trip_timestamp_spec(trip) {
        Some(t) => distance(event_ts as int, t as int),
        None => 0,
    }
}

/// How far, in seconds, a trip's start is from an event.
pub fn difference(event_ts: i64, trip: &TripInstance) -> (r: u64)
    ensures
        r == difference_spec(event_ts, *trip),
{
    match trip_timestamp(trip) {
        Some(t) => {
            let d: i128 = (event_ts as i128) - (t as i128);
            if d >= 0 { d as u64 } else { (-d) as u64 }
        },
        None => 0,
    }
}


/// The service dates to look a trip up on for an event.
#[derive(Clone, Debug)]
pub struct NearestDates {
    /// The event's local date.
    pub current: String,
    /// The day before, when the event is before 4 am local time.
    pub previous: Option<String>,
}

/// The dates to look up for an event at `event_ts` in the zone named `tz`:
/// its local date, and the day before when the local hour is before 4;
/// `None` when the time cannot be placed on the local calendar.
pub open spec fn dates_in_spec(tz: Seq<char>, event_ts: i64) -> Option<(Seq<char>, Option<Seq<char>>)> {
    match zoned_calendar(tz, event_ts) {
        Some((date, hour, previous)) => Some((date, if hour < 4 { previous } else { None })),
        None => None,
    }
}

/// The service dates on which to look for the trip instance nearest to an
/// event, in the zone named `tz`.
pub fn dates_in(tz: &str, event_ts: i64) -> (r: Option<NearestDates>)
    ensures
        match r {
            Some(d) => dates_in_spec(tz@, event_ts) == Some((d.current@, crate::text::opt_view(d.previous))),
            None => dates_in_spec(tz@, event_ts) is None,
        },
{
    match calendar(tz, event_ts) {
        Some((date, hour, previous)) => Some(NearestDates {
            current: date,
            previous: if hour < 4 { previous } else { None },
        }),
        None => None,
    }
}

/// The service dates on which to look for the trip instance nearest to an
/// event in Auckland.
pub fn nearest_dates(event_ts: i64) -> (r: Option<NearestDates>)
    ensures
        match r {
            Some(d) => dates_in_spec(AUCKLAND@, event_ts) == Some((d.current@, crate::text::opt_view(d.previous))),
            None => dates_in_spec(AUCKLAND@, event_ts) is None,
        },
{
    dates_in(AUCKLAND, event_ts)
}

/// The first instance marks a failed request.
pub open spec fn starts_with_error(trips: Seq<TripInstance>) -> bool {
    trips.len() > 0 && trips[0].error
}

/// Whether the first instance marks a failed request.
pub fn first_is_error(trips: &Vec<TripInstance>) -> (r: bool)
    ensures
        r == starts_with_error(trips@),
{
    trips.len() > 0 && trips[0].error
}

/// `i` is the first of the instances whose start is nearest to the event.
pub open spec fn nearest_at(trips: Seq<TripInstance>, event_ts: i64, i: int) -> bool {
    &&& 0 <= i < trips.len()
    &&& forall|j: int| 0 <= j < trips.len() ==> difference_spec(event_ts, trips[i]) <= difference_spec(event_ts, #[trigger] trips[j])
    &&& forall|j: int| 0 <= j < i ==> difference_spec(event_ts, trips[i]) < difference_spec(event_ts, #[trigger] trips[j])
}

/// The instance nearest to an event among those of its date and, when
/// looked up, of the day before: a failure marker first in either list is
/// answered as it is; otherwise the first instance whose start is nearest.
pub open spec fn nearest_choice(current: Seq<TripInstance>, previous: Option<Seq<TripInstance>>, event_ts: i64) -> Option<TripInstance> {
    if starts_with_error(current) {
        Some(current[0])
    } else if previous matches Some(p) && starts_with_error(p) {
        Some(previous.unwrap()[0])
    } else {
        let all = match previous { Some(p) => current + p, None => current };
        if all.len() == 0 {
            None
        } else {
            Some(all[choose|i: int| nearest_at(all, event_ts, i)])
        }
    }
}

/// Chooses the trip instance nearest to an event.
pub fn nearest_instance(current: Vec<TripInstance>, previous: Option<Vec<TripInstance>>, event_ts: i64) -> (r: Option<TripInstance>)
    ensures
        r == nearest_choice(current@, match previous { Some(p) => Some(p@), None => None }, event_ts),
{
    let mut all = current;
    if first_is_error(&all) {
        return Some(all.remove(0));
    }
    match previous {
        Some(p) => {
            let mut p = p;
            if first_is_error(&p) {
                return Some(p.remove(0));
            }
            all.append(&mut p);
        },
        None => {},
    }
    let ghost seq = all@;
    let n = all.len();
    if n == 0 {
        return None;
    }
    let mut best: usize = 0;
    let mut best_key: u64 = difference(event_ts, &all[0]);
    let mut i: usize = 1;
    while i < n
        invariant
            all@ == seq,
            n == seq.len(),
            1 <= i <= n,
            0 <= best < i,
            best_key == difference_spec(event_ts, seq[best as int]),
            forall|j: int| 0 <= j < i ==> difference_spec(event_ts, seq[best as int]) <= difference_spec(event_ts, #[trigger] seq[j]),
            forall|j: int| 0 <= j < best ==> difference_spec(event_ts, seq[best as int]) < difference_spec(event_ts, #[trigger] seq[j]),
        decreases n - i,
    {
        let key = difference(event_ts, &all[i]);
        if key < best_key {
            best = i;
            best_key = key;
        }
        i = i + 1;
    }
    proof {
        assert(nearest_at(seq, event_ts, best as int));
        let c = choose|c: int| nearest_at(seq, event_ts, c);
        if c < best {
            assert(difference_spec(event_ts, seq[best as int]) < difference_spec(event_ts, seq[c]));
        }
        if best < c {
            assert(difference_spec(event_ts, seq[c]) < difference_spec(event_ts, seq[best as int]));
        }
    }
    Some(all.remove(best))
}

/// What a Trip Management reply with a given HTTP status comes to.
#[derive(Clone, Debug)]
pub enum ReplyOutcome {
    /// No instances (404).
    NoInstances,
    /// The request failed: the lookup answers a failure marker.
    Failed(TripInstance),
    /// The body holds the instances.
    Decode,
}

/// Reads the status of a Trip Management reply: 404 is no instances, any
/// other status outside 200..=299 a failure marker for the service date.
pub fn reply_outcome(status: u16, service_date: &str) -> (r: ReplyOutcome)
    ensures
        status == 404 ==> r is NoInstances,
        status != 404 && !(200 <= status <= 299) ==> (r matches ReplyOutcome::Failed(t) && is_error_trip(t, service_date@)),
        200 <= status <= 299 ==> r is Decode,
{
    if status == 404 {
        ReplyOutcome::NoInstances
    } else if status < 200 || status > 299 {
        ReplyOutcome::Failed(error_trip(service_date))
    } else {
        ReplyOutcome::Decode
    }
}


/// A JSON value of a Trip Management reply, as far as reading instances out
/// of it goes: its shape, the keys of an object, and what deserialising the
/// value as one instance gives.
#[derive(Debug)]
pub enum TripJson {
    Null,
    Array { items: Vec<TripJson>, parsed: Result<TripInstance, String> },
    Object { entries: Vec<(String, TripJson)>, parsed: Result<TripInstance, String> },
    Other { parsed: Result<TripInstance, String> },
}

/// The value is skipped inside an array: `null` or an empty object.
pub open spec fn skipped(v: TripJson) -> bool {
    match v {
        TripJson::Null => true,
        TripJson::Object { entries, .. } => entries@.len() == 0,
        _ => false,
    }
}

/// What deserialising the value as one instance gave.
pub open spec fn parsed_of(v: TripJson) -> Result<TripInstance, Seq<char>> {
    match v {
        TripJson::Null => Err(Seq::empty()),
        TripJson::Array { parsed, .. } => match parsed { Ok(t) => Ok(t), Err(e) => Err(e@) },
        TripJson::Object { parsed, .. } => match parsed { Ok(t) => Ok(t), Err(e) => Err(e@) },
        TripJson::Other { parsed } => match parsed { Ok(t) => Ok(t), Err(e) => Err(e@) },
    }
}

/// The instances of an array: each item but the skipped ones, deserialised
/// in order; the first failure is the answer.
pub open spec fn items_spec(items: Seq<TripJson>) -> Result<Seq<TripInstance>, Seq<char>>
    decreases items.len(),
{
    if items.len() == 0 {
        Ok(Seq::empty())
    } else {
        match items_spec(items.drop_last()) {
            Err(e) => Err(e),
            Ok(acc) => if skipped(items.last()) {
                Ok(acc)
            } else {
                match parsed_of(items.last()) {
                    Ok(t) => Ok(acc.push(t)),
                    Err(e) => Err(e),
                }
            },
        }
    }
}

/// `i` is the entry of the first occurrence of `key`.
pub open spec fn key_at(entries: Seq<(String, TripJson)>, key: Seq<char>, i: int) -> bool {
    &&& 0 <= i < entries.len()
    &&& entries[i].0@ == key
    &&& forall|j: int| 0 <= j < i ==> (#[trigger] entries[j]).0@ != key
}

/// One instance, or the failure to deserialise it.
pub open spec fn single(v: TripJson) -> Result<Seq<TripInstance>, Seq<char>> {
    match parsed_of(v) {
        Ok(t) => Ok(seq![t]),
        Err(e) => Err(e),
    }
}

/// The instances a reply holds: none for `null`; the items of an array; in
/// an object, those under `tripInstances`, else under `data`, else none for
/// an empty object, else the object itself as one instance; any other value
/// as one instance.
pub open spec fn extract_spec(v: TripJson) -> Result<Seq<TripInstance>, Seq<char>>
    decreases v,
{
    match v {
        TripJson::Null => Ok(Seq::empty()),
        TripJson::Array { items, .. } => items_spec(items@),
        TripJson::Object { entries, .. } => {
            if exists|i: int| key_at(entries@, "tripInstances"@, i) {
                let i = choose|i: int| key_at(entries@, "tripInstances"@, i);
                extract_spec(entries@[i].1)
            } else if exists|i: int| key_at(entries@, "data"@, i) {
                let i = choose|i: int| key_at(entries@, "data"@, i);
                extract_spec(entries@[i].1)
            } else if entries@.len() == 0 {
                Ok(Seq::empty())
            } else {
                single(v)
            }
        },
        TripJson::Other { .. } => single(v),
    }
}

/// What deserialising the value as one instance gave.
fn parsed_value(v: &TripJson) -> (r: Result<TripInstance, String>)
    requires
        !(v is Null),
    ensures
        match r {
            Ok(t) => parsed_of(*v) == Ok::<TripInstance, Seq<char>>(t),
            Err(e) => parsed_of(*v) == Err::<TripInstance, Seq<char>>(e@),
        },
{
    let p = match v {
        TripJson::Array { parsed, .. } => parsed,
        TripJson::Object { parsed, .. } => parsed,
        TripJson::Other { parsed } => parsed,
        TripJson::Null => return Err(String::new()),
    };
    match p {
        Ok(t) => Ok(copy_trip(t)),
        Err(e) => Err(e.clone()),
    }
}

/// Whether the value is skipped inside an array.
fn is_skipped(v: &TripJson) -> (r: bool)
    ensures
        r == skipped(*v),
{
    match v {
        TripJson::Null => true,
        TripJson::Object { entries, .. } => entries.len() == 0,
        _ => false,
    }
}

/// The first entry under `key`.
fn find_key(entries: &Vec<(String, TripJson)>, key: &str) -> (r: Option<usize>)
    ensures
        match r {
            Some(i) => key_at(entries@, key@, i as int),
            None => forall|i: int| !key_at(entries@, key@, i),
        },
{
    let n = entries.len();
    let mut i: usize = 0;
    while i < n
        invariant
            n == entries.len(),
            0 <= i <= n,
            forall|j: int| 0 <= j < i ==> (#[trigger] entries@[j]).0@ != key@,
        decreases n - i,
    {
        if str_eq(entries[i].0.as_str(), key) {
            return Some(i);
        }
        i = i + 1;
    }
    proof {
        assert forall|c: int| !key_at(entries@, key@, c) by {
            if 0 <= c < n {
                assert(entries@[c].0@ != key@);
            }
        }
    }
    None
}

/// One instance, or the failure to deserialise it.
fn single_of(v: &TripJson) -> (r: Result<Vec<TripInstance>, String>)
    requires
        !(v is Null),
    ensures
        match r {
            Ok(ts) => single(*v) == Ok::<Seq<TripInstance>, Seq<char>>(ts@),
            Err(e) => single(*v) == Err::<Seq<TripInstance>, Seq<char>>(e@),
        },
{
    match parsed_value(v) {
        Ok(t) => {
            let mut out: Vec<TripInstance> = Vec::new();
            out.push(t);
            assert(out@ =~= seq![t]);
            Ok(out)
        },
        Err(e) => Err(e),
    }
}

/// Reads the trip instances out of a Trip Management reply.
pub fn extract(value: &TripJson) -> (r: Result<Vec<TripInstance>, String>)
    ensures
        match r {
            Ok(ts) => extract_spec(*value) == Ok::<Seq<TripInstance>, Seq<char>>(ts@),
            Err(e) => extract_spec(*value) == Err::<Seq<TripInstance>, Seq<char>>(e@),
        },
    decreases value,
{
    match value {
        TripJson::Null => Ok(Vec::new()),
        TripJson::Array { items, .. } => {
            let n = items.len();
            let mut out: Vec<TripInstance> = Vec::new();
            let mut i: usize = 0;
            while i < n
                invariant
                    n == items.len(),
                    0 <= i <= n,
                    extract_spec(*value) == items_spec(items@),
                    items_spec(items@.take(i as int)) == Ok::<Seq<TripInstance>, Seq<char>>(out@),
                decreases n - i,
            {
                assert(items@.take(i + 1).drop_last() =~= items@.take(i as int));
                assert(items@.take(i + 1).last() == items@[i as int]);
                if !is_skipped(&items[i]) {
                    match parsed_value(&items[i]) {
                        Ok(t) => {
                            out.push(t);
                        },
                        Err(e) => {
                            proof {
                                lemma_items_err(items@, i as int, e@);
                            }
                            return Err(e);
                        },
                    }
                }
                i = i + 1;
            }
            assert(items@.take(n as int) =~= items@);
            Ok(out)
        },
        TripJson::Object { entries, .. } => {
            match find_key(entries, "tripInstances") {
                Some(i) => {
                    proof {
                        assert(decreases_to!(*value => entries@[i as int].1));
                    }
                    return extract(&entries[i].1);
                },
                None => {},
            }
            match find_key(entries, "data") {
                Some(i) => {
                    proof {
                        assert(decreases_to!(*value => entries@[i as int].1));
                    }
                    return extract(&entries[i].1);
                },
                None => {},
            }
            if entries.len() == 0 {
                Ok(Vec::new())
            } else {
                single_of(value)
            }
        },
        TripJson::Other { .. } => single_of(value),
    }
}

/// Once an item fails, the array fails with it.
proof fn lemma_items_err(items: Seq<TripJson>, i: int, e: Seq<char>)
    requires
        0 <= i < items.len(),
        !skipped(items[i]),
        items_spec(items.take(i)) is Ok,
        parsed_of(items[i]) == Err::<TripInstance, Seq<char>>(e),
    ensures
        items_spec(items) == Err::<Seq<TripInstance>, Seq<char>>(e),
    decreases items.len() - i,
{
    if i + 1 == items.len() {
        assert(items.drop_last() =~= items.take(i));
    } else {
        assert(items.drop_last().take(i) =~= items.take(i));
        lemma_items_err(items.drop_last(), i, e);
    }
}


/// Among instances that are not all empty, one is first of those nearest
/// to the event.
#[verifier::spinoff_prover]
proof fn lemma_nearest_exists(trips: Seq<TripInstance>, event_ts: i64)
    requires
        trips.len() > 0,
    ensures
        exists|i: int| nearest_at(trips, event_ts, i),
    decreases trips.len(),
{
    if trips.len() == 1 {
        assert(nearest_at(trips, event_ts, 0));
    } else {
        let init = trips.drop_last();
        lemma_nearest_exists(init, event_ts);
        let i0 = choose|i: int| nearest_at(init, event_ts, i);
        let last = trips.len() - 1;
        assert forall|j: int| 0 <= j < init.len() implies #[trigger] trips[j] == init[j] by {}
        if difference_spec(event_ts, trips[last]) < difference_spec(event_ts, trips[i0]) {
            assert forall|j: int| 0 <= j < trips.len() implies
                difference_spec(event_ts, trips[last]) <= difference_spec(event_ts, #[trigger] trips[j]) by {
                if j < last {
                    assert(init[j] == trips[j]);
                }
            }
            assert forall|j: int| 0 <= j < last implies
                difference_spec(event_ts, trips[last]) < difference_spec(event_ts, #[trigger] trips[j]) by {
                assert(init[j] == trips[j]);
            }
            assert(nearest_at(trips, event_ts, last));
        } else {
            assert forall|j: int| 0 <= j < trips.len() implies
                difference_spec(event_ts, trips[i0]) <= difference_spec(event_ts, #[trigger] trips[j]) by {
                if j < last {
                    assert(init[j] == trips[j]);
                }
            }
            assert forall|j: int| 0 <= j < i0 implies
                difference_spec(event_ts, trips[i0]) < difference_spec(event_ts, #[trigger] trips[j]) by {
                assert(init[j] == trips[j]);
            }
            assert(nearest_at(trips, event_ts, i0));
        }
    }
}

/// The instances of a looked-up date, none when the date was not looked up.
pub open spec fn or_empty(trips: Option<Seq<TripInstance>>) -> Seq<TripInstance> {
    match trips {
        Some(p) => p,
        None => Seq::empty(),
    }
}

/// A failure marker first among the event date's instances, or else first
/// among the previous date's, is the instance chosen for the event.
pub proof fn nearest_answers_failure(current: Seq<TripInstance>, previous: Option<Seq<TripInstance>>, event_ts: i64)
    ensures
        starts_with_error(current) ==> nearest_choice(current, previous, event_ts) == Some(current[0]),
        !starts_with_error(current) && starts_with_error(or_empty(previous))
            ==> nearest_choice(current, previous, event_ts) == Some(or_empty(previous)[0]),
{
}

/// When neither date's instances start with a failure marker, the instance
/// chosen for an event is one of either date's instances whose start is no
/// farther from the event than that of any instance of either date; there
/// is none only when neither date has an instance.
pub proof fn nearest_over_both_dates(current: Seq<TripInstance>, previous: Option<Seq<TripInstance>>, event_ts: i64)
    requires
        !starts_with_error(current),
        !starts_with_error(or_empty(previous)),
    ensures
        nearest_choice(current, previous, event_ts) is None <==> current.len() == 0 && or_empty(previous).len() == 0,
        nearest_choice(current, previous, event_ts) matches Some(t) ==>
            (exists|i: int| 0 <= i < current.len() && current[i] == t)
            || (exists|i: int| 0 <= i < or_empty(previous).len() && or_empty(previous)[i] == t),
        nearest_choice(current, previous, event_ts) matches Some(t) ==>
            forall|j: int| 0 <= j < current.len()
                ==> difference_spec(event_ts, t) <= difference_spec(event_ts, #[trigger] current[j]),
        nearest_choice(current, previous, event_ts) matches Some(t) ==>
            forall|j: int| 0 <= j < or_empty(previous).len()
                ==> difference_spec(event_ts, t) <= difference_spec(event_ts, #[trigger] or_empty(previous)[j]),
{
    let prev = or_empty(previous);
    let all = match previous { Some(p) => current + p, None => current };
    assert(all =~= current + prev);
    if all.len() > 0 {
        lemma_nearest_exists(all, event_ts);
        let k = choose|i: int| nearest_at(all, event_ts, i);
        let t = all[k];
        assert(nearest_choice(current, previous, event_ts) == Some(t));
        assert forall|j: int| 0 <= j < current.len() implies
            difference_spec(event_ts, t) <= difference_spec(event_ts, #[trigger] current[j]) by {
            assert(all[j] == current[j]);
        }
        assert forall|j: int| 0 <= j < prev.len() implies
            difference_spec(event_ts, t) <= difference_spec(event_ts, #[trigger] prev[j]) by {
            assert(all[current.len() + j] == prev[j]);
        }
        if k < current.len() {
            assert(current[k] == t);
        } else {
            assert(prev[k - current.len()] == t);
        }
    }
}


/// The service dates for an event are its local date and, only when the
/// local hour is before 4 am, the local date a day earlier.
pub proof fn previous_date_before_four(tz: Seq<char>, event_ts: i64)
    ensures
        dates_in_spec(tz, event_ts) is Some <==> zoned_calendar(tz, event_ts) is Some,
        zoned_calendar(tz, event_ts) matches Some((date, hour, earlier)) ==> {
            &&& dates_in_spec(tz, event_ts).unwrap().0 == date
            &&& hour < 4 ==> dates_in_spec(tz, event_ts).unwrap().1 == earlier
            &&& hour >= 4 ==> dates_in_spec(tz, event_ts).unwrap().1 is None
        },
{
}

/// The instance chosen for a start time: a failure marker first in the list
/// is the answer; otherwise the answer is an instance of the list that
/// starts at that time, earlier in the list than any other that does, and
/// there is none only when no instance starts at that time.
pub proof fn instance_starts_at(trips: Seq<TripInstance>, start: Seq<char>)
    ensures
        trips.len() > 0 && trips[0].error ==> instance_choice(trips, start) == Some(trips[0]),
        !(trips.len() > 0 && trips[0].error) ==> {
            &&& instance_choice(trips, start) is None
                <==> forall|j: int| 0 <= j < trips.len() ==> (#[trigger] trips[j]).start_time@ != start
            &&& instance_choice(trips, start) matches Some(t) ==> exists|i: int| {
                &&& 0 <= i < trips.len() && trips[i] == t && t.start_time@ == start
                &&& forall|j: int| 0 <= j < i ==> (#[trigger] trips[j]).start_time@ != start
            }
        },
{
    if !(trips.len() > 0 && trips[0].error) {
        if exists|i: int| first_start_at(trips, start, i) {
            let k = choose|i: int| first_start_at(trips, start, i);
            assert(trips[k].start_time@ == start);
        } else {
            assert forall|j: int| 0 <= j < trips.len() implies (#[trigger] trips[j]).start_time@ != start by {
                if trips[j].start_time@ == start {
                    assert(exists|i: int| first_start_at(trips, start, i)) by {
                        lemma_first_start(trips, start, j);
                    }
                }
            }
        }
    }
}

/// When some instance starts at a time, a first one does.
proof fn lemma_first_start(trips: Seq<TripInstance>, start: Seq<char>, j: int)
    requires
        0 <= j < trips.len(),
        trips[j].start_time@ == start,
    ensures
        exists|i: int| first_start_at(trips, start, i),
    decreases j,
{
    if forall|k: int| 0 <= k < j ==> (#[trigger] trips[k]).start_time@ != start {
        assert(first_start_at(trips, start, j));
    } else {
        let k = choose|k: int| 0 <= k < j && (#[trigger] trips[k]).start_time@ == start;
        lemma_first_start(trips, start, k);
    }
}


/// A GTFS time `h:m:s` is `h` hours, `m` minutes and `s` seconds after
/// midnight, hours past 24 included, when the fields read as integers and
/// the total fits an `i64`.
pub proof fn time_is_seconds_after_midnight(time: Seq<char>)
    ensures
        parse_time_spec(time) matches Some(total) ==> time_fields(time) matches Some((h, m, s))
            && total == h * 3600 + m * 60 + s,
        time_fields(time) matches Some((h, m, s)) && i64::MIN <= h * 3600 + m * 60 + s <= i64::MAX
            ==> parse_time_spec(time) is Some,
        time_fields(time) is None ==> parse_time_spec(time) is None,
{
}

} // verus!
