//! Civil time in a named time zone, through chrono and chrono-tz.
//!
//! The results depend on the time zone database compiled into chrono-tz and
//! on the arguments alone, so each is given a name; the adapter's own logic
//! around them is verified against those names.

use vstd::prelude::*;
use chrono::{TimeZone, Timelike};

verus! {

/// The time zone the adapter works in.
pub const AUCKLAND: &'static str = "Pacific/Auckland";

/// Unix time of wall-clock `hour:minute:second` on the day `day_offset`
/// days after the calendar date `date` (`%Y%m%d`) in the zone named `tz`,
/// when that local time exists exactly once.
pub uninterp spec fn zoned_wall_seconds(tz: Seq<char>, date: Seq<char>, day_offset: i64, hour: u32, minute: u32, second: u32) -> Option<i64>;

/// Unix time of midnight starting `year-month-day` in the zone named `tz`,
/// when that local time exists exactly once.
pub uninterp spec fn zoned_midnight(tz: Seq<char>, year: i32, month: u32, day: u32) -> Option<i64>;

/// For a Unix time: the local calendar date (`%Y%m%d`) and hour in the zone
/// named `tz`, and the local date one day earlier.
pub uninterp spec fn zoned_calendar(tz: Seq<char>, timestamp: i64) -> Option<(Seq<char>, u32, Option<Seq<char>>)>;

/// Parses `tz` as a chrono-tz zone, `date` with chrono's
/// `NaiveDate::parse_from_str(date, "%Y%m%d")`, moves it by `day_offset`
/// days (`checked_add_signed`), sets the time with `and_hms_opt`, and
/// resolves it with `from_local_datetime(..).single()`. `None` where any step
/// fails, including a shift out of chrono's range (where `NaiveDate +
/// TimeDelta` would panic). Claimed: the result is `zoned_wall_seconds` of the
/// arguments.
#[verifier::external_body]
pub(crate) fn wall_seconds(tz: &str, date: &str, day_offset: i64, hour: u32, minute: u32, second: u32) -> (r: Option<i64>)
    ensures
        r == zoned_wall_seconds(tz@, date@, day_offset, hour, minute, second),
{
    let zone: chrono_tz::Tz = tz.parse().ok()?;
    let day = chrono::NaiveDate::parse_from_str(date, "%Y%m%d").ok()?;
    let day = day.checked_add_signed(chrono::TimeDelta::try_days(day_offset)?)?;
    let local = day.and_hms_opt(hour, minute, second)?;
    zone.from_local_datetime(&local).single().map(|t| t.timestamp())
}

/// `with_ymd_and_hms(year, month, day, 0, 0, 0).single()` in the chrono-tz
/// zone named `tz`, as a Unix time; `None` for an unknown zone or a date or
/// local time that does not exist exactly once. Claimed: the result is
/// `zoned_midnight` of the arguments.
#[verifier::external_body]
pub(crate) fn midnight_seconds(tz: &str, year: i32, month: u32, day: u32) -> (r: Option<i64>)
    ensures
        r == zoned_midnight(tz@, year, month, day),
{
    let zone: chrono_tz::Tz = tz.parse().ok()?;
    zone.with_ymd_and_hms(year, month, day, 0, 0, 0).single().map(|t| t.timestamp())
}

/// `timestamp_opt(timestamp, 0).single()` in the chrono-tz zone named `tz`,
/// formatted as `%Y%m%d`, with its hour, and the date of the instant one day
/// earlier (`checked_sub_signed`, `None` out of chrono's range). `None` for an
/// unknown zone or a time out of chrono's range. Claimed: the result is
/// `zoned_calendar` of the arguments.
#[verifier::external_body]
pub(crate) fn calendar(tz: &str, timestamp: i64) -> (r: Option<(String, u32, Option<String>)>)
    ensures
        r matches Some((d, h, p)) ==> zoned_calendar(tz@, timestamp) == Some((d@, h, crate::text::opt_view(p))),
        r is None ==> zoned_calendar(tz@, timestamp) is None,
{
    let zone: chrono_tz::Tz = tz.parse().ok()?;
    let at = zone.timestamp_opt(timestamp, 0).single()?;
    let earlier = at.checked_sub_signed(chrono::TimeDelta::days(1)).map(|p| p.format("%Y%m%d").to_string());
    Some((at.format("%Y%m%d").to_string(), at.hour(), earlier))
}

} // verus!
