//! Cached access to the Fleet, Trip Management and Block Management APIs:
//! how identifiers are looked up, what is cached, and which trip instance is
//! chosen. The requests and the cache itself belong to the application.

use vstd::prelude::*;
use vstd::utf8::{decode_utf8, encode_utf8, is_char_boundary};
use vstd::string::StringSliceAdditionalSpecFns;
use crate::decimal::{is_digit, parse_i64, parse_i64_spec};
use crate::smartrak_gtfs::clock::{midnight_seconds, zoned_midnight};
use crate::smartrak_gtfs::model::trip::{BlockInstance, TripInstance};
use crate::smartrak_gtfs::trip::{distance, fits_i64, parse_time, parse_time_spec};
use crate::text::{contains, push_char, seq_contains, str_eq, to_chars};

verus! {

/// An ASCII capital letter.
pub open spec fn is_upper(c: char) -> bool {
    'A' <= c && c <= 'Z'
}

/// `s` is capital letters followed by at least one digit, and nothing else.
pub open spec fn alpha_numeric_spec(s: Seq<char>) -> bool {
    &&& forall|i: int| 0 <= i < s.len() ==> is_upper(#[trigger] s[i]) || is_digit(s[i])
    &&& forall|i: int, j: int| 0 <= i < j < s.len() && is_digit(#[trigger] s[i]) ==> !is_upper(#[trigger] s[j])
    &&& exists|i: int| 0 <= i < s.len() && is_digit(#[trigger] s[i])
}

/// Whether `input` is capital letters followed by digits (such as
/// `AMP123`).
pub fn is_alpha_numeric(input: &str) -> (r: bool)
    ensures
        r == alpha_numeric_spec(input@),
{
    let v = to_chars(input);
    let n = v.len();
    if n == 0 {
        return false;
    }
    let mut seen_digit = false;
    let mut first_digit: usize = 0;
    let mut i: usize = 0;
    while i < n
        invariant
            v@ == input@,
            n == v.len(),
            0 <= i <= n,
            forall|k: int| 0 <= k < i ==> is_upper(#[trigger] v@[k]) || is_digit(v@[k]),
            forall|a: int, b: int| 0 <= a < b < i && is_digit(#[trigger] v@[a]) ==> !is_upper(#[trigger] v@[b]),
            seen_digit ==> first_digit < i && is_digit(v@[first_digit as int]),
            !seen_digit ==> forall|k: int| 0 <= k < i ==> !is_digit(#[trigger] v@[k]),
        decreases n - i,
    {
        let c = v[i];
        if 'A' <= c && c <= 'Z' {
            if seen_digit {
                assert(!alpha_numeric_spec(input@)) by {
                    assert(is_digit(v@[first_digit as int]) && is_upper(v@[i as int]));
                }
                return false;
            }
        } else if '0' <= c && c <= '9' {
            if !seen_digit {
                first_digit = i;
            }
            seen_digit = true;
        } else {
            assert(!alpha_numeric_spec(input@)) by {
                assert(!(is_upper(v@[i as int]) || is_digit(v@[i as int])));
            }
            return false;
        }
        i = i + 1;
    }
    if seen_digit {
        assert(is_digit(input@[first_digit as int]));
    }
    seen_digit
}

/// Index of the first digit of `s`, or its length when it has none.
pub open spec fn first_digit_at(s: Seq<char>, k: int) -> bool {
    &&& 0 <= k <= s.len()
    &&& (k < s.len() ==> is_digit(s[k]))
    &&& forall|j: int| 0 <= j < k ==> !is_digit(#[trigger] s[j])
}

/// Splits `input` before its first digit.
pub fn split_alpha_numeric(input: &str) -> (r: (String, String))
    ensures
        exists|k: int| first_digit_at(input@, k) && r.0@ == input@.take(k) && r.1@ == input@.skip(k),
{
    let v = to_chars(input);
    let n = v.len();
    let mut alpha = String::new();
    let mut i: usize = 0;
    while i < n && !('0' <= v[i] && v[i] <= '9')
        invariant
            v@ == input@,
            n == v.len(),
            0 <= i <= n,
            alpha@ == input@.take(i as int),
            forall|j: int| 0 <= j < i ==> !is_digit(#[trigger] v@[j]),
        decreases n - i,
    {
        push_char(&mut alpha, v[i]);
        assert(alpha@ =~= input@.take(i + 1));
        i = i + 1;
    }
    let mut numeric = String::new();
    let mut j: usize = i;
    while j < n
        invariant
            v@ == input@,
            n == v.len(),
            i <= j <= n,
            numeric@ == input@.subrange(i as int, j as int),
        decreases n - j,
    {
        push_char(&mut numeric, v[j]);
        assert(numeric@ =~= input@.subrange(i as int, j + 1));
        j = j + 1;
    }
    assert(numeric@ =~= input@.skip(i as int));
    assert(first_digit_at(input@, i as int));
    (alpha, numeric)
}

/// Two spaces in a row.
pub open spec fn double_space() -> Seq<char> {
    seq![' ', ' ']
}

/// `input` looks like a padded train label: 14 bytes holding two spaces in
/// a row.
pub open spec fn train_label_like(input: Seq<char>) -> bool {
    encode_utf8(input).len() == 14 && seq_contains(input, double_space())
}

/// Whether `input` looks like a padded train label.
pub fn is_train_label(input: &str) -> (r: bool)
    ensures
        r == train_label_like(input@),
{
    let two = "  ";
    proof {
        reveal_strlit("  ");
        assert(two@ =~= double_space());
    }
    input.as_bytes().len() == 14 && contains(input, two)
}

/// How the Fleet API is asked for a vehicle.
#[derive(Clone, Debug)]
pub enum FleetLookup {
    /// By label.
    ByLabel(String),
    /// By vehicle ID.
    ById(String),
}

/// `n` spaces.
pub open spec fn spaces(n: nat) -> Seq<char> {
    Seq::new(n, |i: int| ' ')
}

/// The label for an identifier of capital letters followed by digits: the
/// letters (`AM` read as `AMP`), spaces up to 14 characters in all, and the
/// digits.
pub open spec fn padded_label(alpha: Seq<char>, numeric: Seq<char>) -> Seq<char> {
    let prefix = if alpha == seq!['A', 'M'] { seq!['A', 'M', 'P'] } else { alpha };
    let used = prefix.len() + numeric.len();
    prefix + (if used < 14 { spaces((14 - used) as nat) } else { Seq::empty() }) + numeric
}

/// The lookup for a vehicle ID or label: a padded label for capital letters
/// followed by digits, the label itself for something that looks like a
/// padded train label, else the ID.
pub open spec fn fleet_lookup_spec(s: Seq<char>, r: FleetLookup) -> bool {
    if alpha_numeric_spec(s) {
        exists|k: int| first_digit_at(s, k)
            && (r matches FleetLookup::ByLabel(l) && l@ == padded_label(s.take(k), s.skip(k)))
    } else if train_label_like(s) {
        r matches FleetLookup::ByLabel(l) && l@ == s
    } else {
        r matches FleetLookup::ById(i) && i@ == s
    }
}

/// Decides how to look up a vehicle given its ID or its label.
pub fn fleet_lookup(vehicle_id_or_label: &str) -> (r: FleetLookup)
    ensures
        fleet_lookup_spec(vehicle_id_or_label@, r),
{
    if is_alpha_numeric(vehicle_id_or_label) {
        let (alpha, numeric) = split_alpha_numeric(vehicle_id_or_label);
        let am = "AM";
        let amp = "AMP";
        proof {
            reveal_strlit("AM");
            reveal_strlit("AMP");
            assert(am@ =~= seq!['A', 'M']);
            assert(amp@ =~= seq!['A', 'M', 'P']);
        }
        let mut label = if str_eq(alpha.as_str(), am) { String::from_str(amp) } else { alpha.clone() };
        let ghost prefix = label@;
        assert(prefix == (if alpha@ == seq!['A', 'M'] { seq!['A', 'M', 'P'] } else { alpha@ }));
        let a = to_chars(label.as_str()).len();
        let b = to_chars(numeric.as_str()).len();
        if a < 14 && b < 14 - a {
            let pad = 14 - (a + b);
            let mut k: usize = 0;
            while k < pad
                invariant
                    0 <= k <= pad,
                    label@ == prefix + spaces(k as nat),
                decreases pad - k,
            {
                push_char(&mut label, ' ');
                assert(label@ =~= prefix + spaces((k + 1) as nat));
                k = k + 1;
            }
            assert(label@ == prefix + spaces((14 - (prefix.len() + numeric@.len())) as nat));
        } else {
            assert(label@ =~= prefix + Seq::<char>::empty());
        }
        let label = label.concat(numeric.as_str());
        proof {
            let k = choose|k: int| first_digit_at(vehicle_id_or_label@, k) && alpha@ == vehicle_id_or_label@.take(k)
                && numeric@ == vehicle_id_or_label@.skip(k);
            assert(label@ =~= padded_label(alpha@, numeric@));
            assert(first_digit_at(vehicle_id_or_label@, k));
        }
        return FleetLookup::ByLabel(label);
    }
    if is_train_label(vehicle_id_or_label) {
        return FleetLookup::ByLabel(String::from_str(vehicle_id_or_label));
    }
    FleetLookup::ById(String::from_str(vehicle_id_or_label))
}

/// A padded label is 14 characters long whenever its parts fit.
pub proof fn padded_label_length(alpha: Seq<char>, numeric: Seq<char>)
    requires
        (if alpha == seq!['A', 'M'] { 3 } else { alpha.len() }) + numeric.len() <= 14,
    ensures
        padded_label(alpha, numeric).len() == 14,
{
}


/// What an outside lookup came to.
#[derive(Clone, Debug)]
pub enum Loaded<T> {
    /// The service answered with a value.
    Found(T),
    /// The service answered that there is none.
    Missing,
    /// The request failed.
    Failed,
}

/// Which of the cache lifetimes an entry is written with.
#[derive(Clone, Copy, Debug, PartialEq, Eq, Structural)]
pub enum Ttl {
    /// The lifetime of answers.
    Success,
    /// The lifetime of failures.
    Failure,
}

/// What is written to the cache after a lookup.
#[derive(Clone, Copy, Debug, PartialEq, Eq, Structural)]
pub enum CacheWrite {
    /// The answer, as JSON.
    Value(Ttl),
    /// The empty marker.
    Empty(Ttl),
}

/// After a Fleet API lookup that missed the cache: a found vehicle is cached
/// and answered; none found caches the empty marker; a failure caches the
/// empty marker for the failure lifetime. Only a found vehicle is answered.
pub fn fleet_cache_plan<T>(loaded: Loaded<T>) -> (r: (CacheWrite, Option<T>))
    ensures
        match loaded {
            Loaded::Found(v) => r == (CacheWrite::Value(Ttl::Success), Some(v)),
            Loaded::Missing => r == (CacheWrite::Empty(Ttl::Success), None::<T>),
            Loaded::Failed => r == (CacheWrite::Empty(Ttl::Failure), None::<T>),
        },
{
    match loaded {
        Loaded::Found(v) => (CacheWrite::Value(Ttl::Success), Some(v)),
        Loaded::Missing => (CacheWrite::Empty(Ttl::Success), None),
        Loaded::Failed => (CacheWrite::Empty(Ttl::Failure), None),
    }
}

/// After a Trip Management lookup that missed the cache: the instances are
/// cached and answered; a failure caches and answers a single failure
/// marker.
pub fn trips_cache_plan(fetched: Option<Vec<TripInstance>>) -> (r: (Ttl, Vec<TripInstance>))
    ensures
        match fetched {
            Some(ts) => r.0 == Ttl::Success && r.1@ == ts@,
            None => r.0 == Ttl::Failure && r.1@.len() == 1 && r.1@[0].error && r.1@[0].trip_id@.len() == 0
                && r.1@[0].route_id is None && r.1@[0].service_date@.len() == 0 && r.1@[0].start_time@.len() == 0
                && r.1@[0].end_time is None && r.1@[0].direction_id is None && r.1@[0].is_added_trip is None,
        },
{
    match fetched {
        Some(ts) => (Ttl::Success, ts),
        None => {
            let mut v: Vec<TripInstance> = Vec::new();
            v.push(TripInstance::error_marker());
            (Ttl::Failure, v)
        },
    }
}

/// What a cached block allocation answers: an entry with no trip that is not
/// a failure marker stands for no allocation.
pub fn cached_block(block: BlockInstance) -> (r: Option<BlockInstance>)
    ensures
        r == (if block.trip_id@.len() == 0 && !block.error { None } else { Some(block) }),
{
    if block.trip_id.as_str().is_empty() && !block.error {
        None
    } else {
        Some(block)
    }
}

/// After a Block Management lookup that missed the cache: an allocation is
/// cached and answered; none caches the empty marker; a failure caches and
/// answers a failure marker.
pub fn block_cache_plan(loaded: Loaded<BlockInstance>) -> (r: (CacheWrite, Option<BlockInstance>))
    ensures
        match loaded {
            Loaded::Found(b) => r == (CacheWrite::Value(Ttl::Success), Some(b)),
            Loaded::Missing => r == (CacheWrite::Empty(Ttl::Success), None::<BlockInstance>),
            Loaded::Failed => r.0 == CacheWrite::Value(Ttl::Failure) && (r.1 matches Some(p) && p.error
                && p.trip_id@.len() == 0 && p.start_time@.len() == 0 && p.service_date@.len() == 0
                && p.vehicle_ids@.len() == 0),
        },
{
    match loaded {
        Loaded::Found(b) => (CacheWrite::Value(Ttl::Success), Some(b)),
        Loaded::Missing => (CacheWrite::Empty(Ttl::Success), None),
        Loaded::Failed => (CacheWrite::Value(Ttl::Failure), Some(BlockInstance {
            trip_id: String::new(),
            start_time: String::new(),
            service_date: String::new(),
            vehicle_ids: Vec::new(),
            error: true,
        })),
    }
}

/// `i` is the first instance that starts at `start`.
pub open spec fn first_at(trips: Seq<TripInstance>, start: Seq<char>, i: int) -> bool {
    &&& 0 <= i < trips.len()
    &&& trips[i].start_time@ == start
    &&& forall|j: int| 0 <= j < i ==> (#[trigger] trips[j]).start_time@ != start
}

/// The instance for an exact start time: the first that starts then, else
/// the first instance when it marks a failure, else none.
pub open spec fn access_choice(trips: Seq<TripInstance>, start: Seq<char>) -> Option<TripInstance> {
    if exists|i: int| first_at(trips, start, i) {
        Some(trips[choose|i: int| first_at(trips, start, i)])
    } else if trips.len() > 0 && trips[0].error {
        Some(trips[0])
    } else {
        None
    }
}

/// Chooses, among the instances of a trip on a service date, the one that
/// starts at `start_time`.
pub fn select_trip_instance(trips: Vec<TripInstance>, start_time: &str) -> (r: Option<TripInstance>)
    ensures
        r == access_choice(trips@, start_time@),
{
    let mut list = trips;
    let ghost all = list@;
    let n = list.len();
    let mut i: usize = 0;
    while i < n
        invariant
            list@ == all,
            all == trips@,
            n == all.len(),
            0 <= i <= n,
            forall|j: int| 0 <= j < i ==> (#[trigger] all[j]).start_time@ != start_time@,
        decreases n - i,
    {
        if str_eq(list[i].start_time.as_str(), start_time) {
            proof {
                assert(first_at(all, start_time@, i as int));
                let c = choose|c: int| first_at(all, start_time@, c);
                if c < i {
                    assert(all[c].start_time@ != start_time@);
                }
                if i < c {
                    assert(all[i as int].start_time@ != start_time@);
                }
            }
            return Some(list.remove(i));
        }
        i = i + 1;
    }
    proof {
        assert forall|c: int| !first_at(all, start_time@, c) by {
            if 0 <= c < n {
                assert(all[c].start_time@ != start_time@);
            }
        }
    }
    if n > 0 && list[0].error {
        return Some(list.remove(0));
    }
    None
}

/// An unsigned decimal field: `u32::from_str`.
pub open spec fn parse_u32_spec(s: Seq<char>) -> Option<u32> {
    if s.len() > 0 && s[0] == '-' {
        None
    } else {
        match parse_i64_spec(s) {
            Some(v) => if 0 <= v <= u32::MAX { Some(v as u32) } else { None },
            None => None,
        }
    }
}

/// A signed decimal field: `i32::from_str`.
pub open spec fn parse_i32_spec(s: Seq<char>) -> Option<i32> {
    match parse_i64_spec(s) {
        Some(v) => if i32::MIN <= v <= i32::MAX { Some(v as i32) } else { None },
        None => None,
    }
}

fn parse_u32(s: &str) -> (r: Option<u32>)
    ensures
        r == parse_u32_spec(s@),
{
    let v = to_chars(s);
    if v.len() > 0 && v[0] == '-' {
        return None;
    }
    match parse_i64(s) {
        Some(n) => if 0 <= n && n <= u32::MAX as i64 { Some(n as u32) } else { None },
        None => None,
    }
}

fn parse_i32(s: &str) -> (r: Option<i32>)
    ensures
        r == parse_i32_spec(s@),
{
    match parse_i64(s) {
        Some(n) => if i32::MIN as i64 <= n && n <= i32::MAX as i64 { Some(n as i32) } else { None },
        None => None,
    }
}

/// The text of bytes `a..b` of a service date.
pub open spec fn date_field(date: Seq<char>, a: int, b: int) -> Seq<char> {
    decode_utf8(encode_utf8(date).subrange(a, b))
}

/// The byte offsets at which a service date of 8 bytes is cut are character
/// boundaries (else cutting it panics).
pub open spec fn date_cuts_ok(date: Seq<char>) -> bool {
    encode_utf8(date).len() == 8 ==> is_char_boundary(encode_utf8(date), 4) && is_char_boundary(encode_utf8(date), 6)
}

/// Unix time of a trip time `h:m:s` on a service date `YYYYMMDD` in the zone
/// named `tz`: local midnight of the date plus the time's seconds. `None`
/// when the date is not 8 bytes, a field does not parse, midnight does not
/// exist exactly once, or the time's seconds or the sum are out of the range
/// of `i64`.
pub open spec fn parse_trip_time_spec(tz: Seq<char>, date: Seq<char>, time: Seq<char>) -> Option<i64> {
    if encode_utf8(date).len() != 8 {
        None
    } else {
        match (parse_i32_spec(date_field(date, 0, 4)), parse_u32_spec(date_field(date, 4, 6)),
            parse_u32_spec(date_field(date, 6, 8)), parse_time_spec(time)) {
            (Some(y), Some(m), Some(d), Some(t)) => match zoned_midnight(tz, y, m, d) {
                Some(base) => {
                    let total = base + t;
                    if fits_i64(total) { Some(total as i64) } else { None }
                },
                None => None,
            },
            _ => None,
        }
    }
}

/// The Unix time of a trip time on a service date.
pub fn parse_trip_time(tz: &str, service_date: &str, time: &str) -> (r: Option<i64>)
    requires
        date_cuts_ok(service_date@),
    ensures
        r == parse_trip_time_spec(tz@, service_date@, time@),
{
    let bytes = service_date.as_bytes();
    if bytes.len() != 8 {
        return None;
    }
    let (year_text, rest) = service_date.split_at(4);
    proof {
        vstd::utf8::encode_utf8_decode_utf8(year_text@);
        vstd::utf8::encode_utf8_decode_utf8(rest@);
        assert(rest.spec_bytes() =~= encode_utf8(service_date@).subrange(4, 8));
        assert(is_char_boundary(rest.spec_bytes(), 2)) by {
            vstd::utf8::encode_utf8_valid_utf8(rest@);
            vstd::utf8::encode_utf8_valid_utf8(service_date@);
            vstd::utf8::is_char_boundary_iff_not_is_continuation_byte(rest.spec_bytes(), 2);
            vstd::utf8::is_char_boundary_iff_not_is_continuation_byte(encode_utf8(service_date@), 6);
            assert(rest.spec_bytes()[2] == encode_utf8(service_date@)[6]);
        }
    }
    let (month_text, day_text) = rest.split_at(2);
    proof {
        vstd::utf8::encode_utf8_decode_utf8(month_text@);
        vstd::utf8::encode_utf8_decode_utf8(day_text@);
        assert(month_text.spec_bytes() =~= encode_utf8(service_date@).subrange(4, 6));
        assert(day_text.spec_bytes() =~= encode_utf8(service_date@).subrange(6, 8));
    }
    let year = match parse_i32(year_text) {
        Some(y) => y,
        None => return None,
    };
    let month = match parse_u32(month_text) {
        Some(m) => m,
        None => return None,
    };
    let day = match parse_u32(day_text) {
        Some(d) => d,
        None => return None,
    };
    let total = match parse_time(time) {
        Some(t) => t,
        None => return None,
    };
    let base = match midnight_seconds(tz, year, month, day) {
        Some(b) => b,
        None => return None,
    };
    let sum: i128 = (base as i128) + (total as i128);
    if sum < (i64::MIN as i128) || sum > (i64::MAX as i128) {
        return None;
    }
    Some(sum as i64)
}


/// How far an instance's start is from an event: unknown starts count as
/// the latest possible time.
pub open spec fn access_key(tz: Seq<char>, event_ts: i64, t: TripInstance) -> int {
    match parse_trip_time_spec(tz, t.service_date@, t.start_time@) {
        Some(v) => distance(event_ts as int, v as int),
        None => distance(event_ts as int, i64::MAX as int),
    }
}

/// `i` is the first of the instances whose start is nearest to the event.
pub open spec fn access_nearest_at(tz: Seq<char>, trips: Seq<TripInstance>, event_ts: i64, i: int) -> bool {
    &&& 0 <= i < trips.len()
    &&& forall|j: int| 0 <= j < trips.len() ==> access_key(tz, event_ts, trips[i]) <= access_key(tz, event_ts, #[trigger] trips[j])
    &&& forall|j: int| 0 <= j < i ==> access_key(tz, event_ts, trips[i]) < access_key(tz, event_ts, #[trigger] trips[j])
}

/// The first instance marks a failed lookup.
pub open spec fn leads_with_error(trips: Seq<TripInstance>) -> bool {
    trips.len() > 0 && trips[0].error
}

/// The instance nearest to an event among those of its date and, when
/// looked up, of the day before: a failure marker first in either list is
/// answered as it is; otherwise the first instance whose start is nearest.
pub open spec fn access_nearest_choice(tz: Seq<char>, current: Seq<TripInstance>, previous: Option<Seq<TripInstance>>, event_ts: i64) -> Option<TripInstance> {
    if leads_with_error(current) {
        Some(current[0])
    } else if previous matches Some(p) && leads_with_error(p) {
        Some(previous.unwrap()[0])
    } else {
        let all = match previous { Some(p) => current + p, None => current };
        if all.len() == 0 {
            None
        } else {
            Some(all[choose|i: int| access_nearest_at(tz, all, event_ts, i)])
        }
    }
}

/// Every service date among the instances can be cut where the date fields
/// are read.
pub open spec fn dates_cut_ok(trips: Seq<TripInstance>) -> bool {
    forall|i: int| 0 <= i < trips.len() ==> date_cuts_ok(#[trigger] trips[i].service_date@)
}

/// Whether the first instance marks a failed lookup.
pub fn first_failed(trips: &Vec<TripInstance>) -> (r: bool)
    ensures
        r == leads_with_error(trips@),
{
    trips.len() > 0 && trips[0].error
}

fn access_distance(tz: &str, event_ts: i64, t: &TripInstance) -> (r: i128)
    requires
        date_cuts_ok(t.service_date@),
    ensures
        r == access_key(tz@, event_ts, *t),
{
    let start = match parse_trip_time(tz, t.service_date.as_str(), t.start_time.as_str()) {
        Some(v) => v,
        None => i64::MAX,
    };
    let d: i128 = (event_ts as i128) - (start as i128);
    if d >= 0 { d } else { -d }
}

/// Chooses the trip instance nearest to an event, times read in the zone
/// named `tz`.
pub fn nearest_trip_instance(tz: &str, current: Vec<TripInstance>, previous: Option<Vec<TripInstance>>, event_ts: i64) -> (r: Option<TripInstance>)
    requires
        dates_cut_ok(current@),
        previous matches Some(p) ==> dates_cut_ok(p@),
    ensures
        r == access_nearest_choice(tz@, current@, match previous { Some(p) => Some(p@), None => None }, event_ts),
{
    let mut all = current;
    if first_failed(&all) {
        return Some(all.remove(0));
    }
    match previous {
        Some(p) => {
            let mut p = p;
            if first_failed(&p) {
                return Some(p.remove(0));
            }
            let ghost before = all@;
            let ghost other = p@;
            all.append(&mut p);
            assert forall|i: int| 0 <= i < all@.len() implies date_cuts_ok(#[trigger] all@[i].service_date@) by {
                if i < before.len() {
                    assert(all@[i] == before[i]);
                } else {
                    assert(all@[i] == other[i - before.len()]);
                }
            }
        },
        None => {},
    }
    let ghost seq = all@;
    let n = all.len();
    if n == 0 {
        return None;
    }
    let mut best: usize = 0;
    let mut best_key: i128 = access_distance(tz, event_ts, &all[0]);
    let mut i: usize = 1;
    while i < n
        invariant
            all@ == seq,
            dates_cut_ok(seq),
            n == seq.len(),
            1 <= i <= n,
            0 <= best < i,
            best_key == access_key(tz@, event_ts, seq[best as int]),
            forall|j: int| 0 <= j < i ==> access_key(tz@, event_ts, seq[best as int]) <= access_key(tz@, event_ts, #[trigger] seq[j]),
            forall|j: int| 0 <= j < best ==> access_key(tz@, event_ts, seq[best as int]) < access_key(tz@, event_ts, #[trigger] seq[j]),
        decreases n - i,
    {
        let key = access_distance(tz, event_ts, &all[i]);
        if key < best_key {
            best = i;
            best_key = key;
        }
        i = i + 1;
    }
    proof {
        assert(access_nearest_at(tz@, seq, event_ts, best as int));
        let c = choose|c: int| access_nearest_at(tz@, seq, event_ts, c);
        if c < best {
            assert(access_key(tz@, event_ts, seq[best as int]) < access_key(tz@, event_ts, seq[c]));
        }
        if best < c {
            assert(access_key(tz@, event_ts, seq[c]) < access_key(tz@, event_ts, seq[best as int]));
        }
    }
    Some(all.remove(best))
}


/// What the cache holds for an entry that stands for "none".
pub const EMPTY_SENTINEL: &'static str = "__empty__";

/// What a cache read comes to.
#[derive(Clone, Debug, PartialEq, Eq)]
pub enum CacheRead {
    /// Nothing under the key, or the empty marker.
    Nothing,
    /// The stored bytes.
    Stored(Vec<u8>),
}

/// Reads what the cache returned for a key: the empty marker counts as
/// nothing.
pub fn cache_read(bytes: Option<Vec<u8>>) -> (r: CacheRead)
    ensures
        match bytes {
            None => r == CacheRead::Nothing,
            Some(b) => if b@ == encode_utf8(EMPTY_SENTINEL@) { r == CacheRead::Nothing } else { r == CacheRead::Stored(b) },
        },
{
    match bytes {
        None => CacheRead::Nothing,
        Some(b) => {
            let marker = EMPTY_SENTINEL.as_bytes();
            let n = b.len();
            if n != marker.len() {
                assert(b@ != encode_utf8(EMPTY_SENTINEL@));
                return CacheRead::Stored(b);
            }
            let mut i: usize = 0;
            while i < n
                invariant
                    bytes == Some(b),
                    n == b@.len(),
                    n == marker@.len(),
                    marker@ == encode_utf8(EMPTY_SENTINEL@),
                    0 <= i <= n,
                    forall|j: int| 0 <= j < i ==> b@[j] == marker@[j],
                decreases n - i,
            {
                if b[i] != marker[i] {
                    assert(b@ != encode_utf8(EMPTY_SENTINEL@));
                    return CacheRead::Stored(b);
                }
                i = i + 1;
            }
            assert(b@ =~= marker@);
            CacheRead::Nothing
        },
    }
}


/// Among instances that are not all empty, one is first of those nearest
/// to the event.
#[verifier::spinoff_prover]
proof fn lemma_access_nearest_exists(tz: Seq<char>, trips: Seq<TripInstance>, event_ts: i64)
    requires
        trips.len() > 0,
    ensures
        exists|i: int| access_nearest_at(tz, trips, event_ts, i),
    decreases trips.len(),
{
    if trips.len() == 1 {
        assert(access_nearest_at(tz, trips, event_ts, 0));
    } else {
        let init = trips.drop_last();
        lemma_access_nearest_exists(tz, init, event_ts);
        let i0 = choose|i: int| access_nearest_at(tz, init, event_ts, i);
        let last = trips.len() - 1;
        assert forall|j: int| 0 <= j < init.len() implies #[trigger] trips[j] == init[j] by {}
        if access_key(tz, event_ts, trips[last]) < access_key(tz, event_ts, trips[i0]) {
            assert forall|j: int| 0 <= j < trips.len() implies
                access_key(tz, event_ts, trips[last]) <= access_key(tz, event_ts, #[trigger] trips[j]) by {
                if j < last {
                    assert(init[j] == trips[j]);
                }
            }
            assert forall|j: int| 0 <= j < last implies
                access_key(tz, event_ts, trips[last]) < access_key(tz, event_ts, #[trigger] trips[j]) by {
                assert(init[j] == trips[j]);
            }
            assert(access_nearest_at(tz, trips, event_ts, last));
        } else {
            assert forall|j: int| 0 <= j < trips.len() implies
                access_key(tz, event_ts, trips[i0]) <= access_key(tz, event_ts, #[trigger] trips[j]) by {
                if j < last {
                    assert(init[j] == trips[j]);
                }
            }
            assert forall|j: int| 0 <= j < i0 implies
                access_key(tz, event_ts, trips[i0]) < access_key(tz, event_ts, #[trigger] trips[j]) by {
                assert(init[j] == trips[j]);
            }
            assert(access_nearest_at(tz, trips, event_ts, i0));
        }
    }
}

/// The instances of a looked-up date, none when the date was not looked up.
pub open spec fn looked_up(trips: Option<Seq<TripInstance>>) -> Seq<TripInstance> {
    match trips {
        Some(p) => p,
        None => Seq::empty(),
    }
}

/// A failure marker first among the event date's instances, or else first
/// among the previous date's, is the instance chosen. Otherwise the
/// instance chosen is one of either date's instances whose start is no
/// farther from the event than that of any instance of either date; there
/// is none only when neither date has an instance.
pub proof fn access_nearest_over_both_dates(tz: Seq<char>, current: Seq<TripInstance>, previous: Option<Seq<TripInstance>>, event_ts: i64)
    ensures
        leads_with_error(current) ==> access_nearest_choice(tz, current, previous, event_ts) == Some(current[0]),
        !leads_with_error(current) && leads_with_error(looked_up(previous))
            ==> access_nearest_choice(tz, current, previous, event_ts) == Some(looked_up(previous)[0]),
        !leads_with_error(current) && !leads_with_error(looked_up(previous)) ==>
            (access_nearest_choice(tz, current, previous, event_ts) is None
                <==> current.len() == 0 && looked_up(previous).len() == 0),
        !leads_with_error(current) && !leads_with_error(looked_up(previous))
            && access_nearest_choice(tz, current, previous, event_ts) is Some ==> {
                let t = access_nearest_choice(tz, current, previous, event_ts).unwrap();
                &&& (exists|i: int| 0 <= i < current.len() && current[i] == t)
                    || (exists|i: int| 0 <= i < looked_up(previous).len() && looked_up(previous)[i] == t)
                &&& forall|j: int| 0 <= j < current.len()
                    ==> access_key(tz, event_ts, t) <= access_key(tz, event_ts, #[trigger] current[j])
                &&& forall|j: int| 0 <= j < looked_up(previous).len()
                    ==> access_key(tz, event_ts, t) <= access_key(tz, event_ts, #[trigger] looked_up(previous)[j])
            },
{
    let prev = looked_up(previous);
    if !leads_with_error(current) && !leads_with_error(prev) {
        let all = match previous { Some(p) => current + p, None => current };
        assert(all =~= current + prev);
        if all.len() > 0 {
            lemma_access_nearest_exists(tz, all, event_ts);
            let k = choose|i: int| access_nearest_at(tz, all, event_ts, i);
            let t = all[k];
            assert(access_nearest_choice(tz, current, previous, event_ts) == Some(t));
            assert forall|j: int| 0 <= j < current.len() implies
                access_key(tz, event_ts, t) <= access_key(tz, event_ts, #[trigger] current[j]) by {
                assert(all[j] == current[j]);
            }
            assert forall|j: int| 0 <= j < prev.len() implies
                access_key(tz, event_ts, t) <= access_key(tz, event_ts, #[trigger] prev[j]) by {
                assert(all[current.len() + j] == prev[j]);
            }
            if k < current.len() {
                assert(current[k] == t);
            } else {
                assert(prev[k - current.len()] == t);
            }
        }
    }
}


/// A padded label begins with the letters (`AMP` for `AM`), ends with the
/// digits, and holds only spaces between them.
pub proof fn padded_label_parts(alpha: Seq<char>, numeric: Seq<char>)
    ensures
        ({
            let prefix = if alpha == seq!['A', 'M'] { seq!['A', 'M', 'P'] } else { alpha };
            let l = padded_label(alpha, numeric);
            &&& l.subrange(0, prefix.len() as int) == prefix
            &&& l.subrange(l.len() - numeric.len(), l.len() as int) == numeric
            &&& forall|i: int| prefix.len() <= i < l.len() - numeric.len() ==> #[trigger] l[i] == ' '
        }),
{
    let prefix = if alpha == seq!['A', 'M'] { seq!['A', 'M', 'P'] } else { alpha };
    let l = padded_label(alpha, numeric);
    assert(l.subrange(0, prefix.len() as int) =~= prefix);
    assert(l.subrange(l.len() - numeric.len(), l.len() as int) =~= numeric);
}

} // verus!
