//! Stations that the adapter reports on, and their GTFS stop codes.

use vstd::prelude::*;

verus! {

/// Stations that the adapter reports on.
pub open spec fn active_station(station: u32) -> bool {
    station == 0 || station == 19 || station == 40
}

/// GTFS stop code of each active station.
pub open spec fn station_stop(station: u32) -> Option<Seq<char>> {
    if station == 0 {
        Some("133"@)
    } else if station == 19 {
        Some("9218"@)
    } else if station == 40 {
        Some("134"@)
    } else {
        None
    }
}

/// Stop codes whose departure location differs from their arrival
/// location.
pub open spec fn has_departure_location(stop_code: Seq<char>) -> bool {
    stop_code == "133"@ || stop_code == "134"@ || stop_code == "9218"@
}

/// The GTFS stop code of `station` when the station is one the adapter
/// reports on.
pub fn station_stop_code(station: u32) -> (r: Option<&'static str>)
    ensures
        match r {
            Some(code) => active_station(station) && station_stop(station) == Some(code@),
            None => !active_station(station) || station_stop(station) is None,
        },
{
    if !(station == 0 || station == 19 || station == 40) {
        return None;
    }
    if station == 0 {
        Some("133")
    } else if station == 19 {
        Some("9218")
    } else {
        Some("134")
    }
}

/// Whether a departure from `stop_code` is reported at a separate
/// departure location.
pub fn departs_elsewhere(stop_code: &str) -> (r: bool)
    ensures
        r == has_departure_location(stop_code@),
{
    crate::text::str_eq(stop_code, "133") || crate::text::str_eq(stop_code, "134")
        || crate::text::str_eq(stop_code, "9218")
}


/// The adapter reports on three stations, 0, 19 and 40, exactly those with
/// a stop code: 133 (0), 9218 (19) and 134 (40). Each of these stops has a
/// separate departure location.
pub proof fn reported_stations(station: u32)
    ensures
        active_station(station) <==> (station == 0 || station == 19 || station == 40),
        active_station(station) <==> station_stop(station) is Some,
        station == 0 ==> station_stop(station) == Some("133"@),
        station == 19 ==> station_stop(station) == Some("9218"@),
        station == 40 ==> station_stop(station) == Some("134"@),
        station_stop(station) matches Some(code) ==> has_departure_location(code),
{
}

} // verus!
