//! Dates of R9K messages (`dd/mm/yyyy`), and their relation to Unix time in
//! New Zealand, through jiff.

use vstd::prelude::*;

verus! {

/// The time zone R9K dates are read in.
pub const TIME_ZONE: &'static str = "Pacific/Auckland";

/// A leap year of the proleptic Gregorian calendar.
pub open spec fn leap_year(y: int) -> bool {
    (y % 4 == 0 && y % 100 != 0) || y % 400 == 0
}

/// Days in a month of a year.
pub open spec fn days_in_month(y: int, m: int) -> int {
    if m == 2 {
        if leap_year(y) { 29 } else { 28 }
    } else if m == 4 || m == 6 || m == 9 || m == 11 {
        30
    } else {
        31
    }
}

/// Days in a month of a year, for a month from 1 to 12.
fn month_length(year: i16, month: i8) -> (r: u32)
    requires
        1 <= month <= 12,
    ensures
        r == days_in_month(year as int, month as int),
{
    if month == 2 {
        if (year % 4 == 0 && year % 100 != 0) || year % 400 == 0 { 29 } else { 28 }
    } else if month == 4 || month == 6 || month == 9 || month == 11 {
        30
    } else {
        31
    }
}

/// A date jiff can represent: years -9999 to 9999, a month, and a day of
/// that month.
pub open spec fn valid_civil(year: i16, month: i8, day: i8) -> bool {
    -9999 <= year <= 9999 && 1 <= month <= 12 && 1 <= day <= days_in_month(year as int, month as int)
}

/// A calendar date of an R9K message.
#[derive(Clone, Copy, Debug, PartialEq, Eq, Structural)]
pub struct R9kDate {
    pub year: i16,
    pub month: i8,
    pub day: i8,
}

/// The date a `dd/mm/yyyy` text stands for (`jiff::civil::Date::strptime`
/// with `%d/%m/%Y`), as year, month and day.
pub uninterp spec fn dmy_date(text: Seq<char>) -> Option<(i16, i8, i8)>;

/// The `%d/%m/%Y` text of a date (`jiff::civil::Date::strftime`).
pub uninterp spec fn dmy_text(year: i16, month: i8, day: i8) -> Seq<char>;

/// Unix time of the first instant of a date in New Zealand
/// (`Date::in_tz("Pacific/Auckland")`). The crate builds jiff with its
/// bundled time zone database alone (no system or `TZDIR` lookup), so the
/// zone rules are those compiled into the binary.
pub uninterp spec fn nz_midnight(year: i16, month: i8, day: i8) -> Option<i64>;

/// The New Zealand date and time of day (hour, minute, second) of a Unix
/// time (`Timestamp::from_second`, `in_tz("Pacific/Auckland")`), by jiff's
/// bundled time zone database.
pub uninterp spec fn nz_civil(timestamp: i64) -> Option<(i16, i8, i8, i8, i8, i8)>;

/// `jiff::civil::Date::strptime("%d/%m/%Y", text)`, with jiff's error as
/// text. Claimed: the result is `Ok` exactly when `dmy_date` of the text is a
/// date, and then it is that date, a valid one; what the error says is not
/// stated.
#[verifier::external_body]
fn parse_dmy(text: &str) -> (r: Result<(i16, i8, i8), String>)
    ensures
        match r {
            Ok((y, m, d)) => dmy_date(text@) == Some((y, m, d)) && valid_civil(y, m, d),
            Err(_) => dmy_date(text@) is None,
        },
{
    jiff::civil::Date::strptime("%d/%m/%Y", text).map(|d| (d.year(), d.month(), d.day())).map_err(|e| e.to_string())
}

/// `jiff::civil::date(year, month, day).strftime("%d/%m/%Y")`, which panics
/// on an invalid date (hence the `requires`). Claimed: the text is
/// `dmy_text` of the date.
#[verifier::external_body]
fn format_dmy(year: i16, month: i8, day: i8) -> (r: String)
    requires
        valid_civil(year, month, day),
    ensures
        r@ == dmy_text(year, month, day),
{
    jiff::civil::date(year, month, day).strftime("%d/%m/%Y").to_string()
}

/// `jiff::civil::date(year, month, day).in_tz("Pacific/Auckland")`, as a
/// Unix time, `None` where jiff fails. jiff is built with only its bundled
/// time zone database, so the zone is looked up there and nowhere on the
/// machine. Claimed: the result is `nz_midnight` of the date.
#[verifier::external_body]
fn midnight_in_nz(year: i16, month: i8, day: i8) -> (r: Option<i64>)
    requires
        valid_civil(year, month, day),
    ensures
        r == nz_midnight(year, month, day),
{
    jiff::civil::date(year, month, day).in_tz(TIME_ZONE).ok().map(|z| z.timestamp().as_second())
}

/// `jiff::Timestamp::from_second(timestamp)` in `Pacific/Auckland`: its date
/// and time of day, `None` where jiff fails. The zone comes from jiff's
/// bundled time zone database alone. Claimed: the result is `nz_civil` of
/// the time, and its date is a valid one.
#[verifier::external_body]
fn civil_in_nz(timestamp: i64) -> (r: Option<(i16, i8, i8, i8, i8, i8)>)
    ensures
        r == nz_civil(timestamp),
        r matches Some((y, m, d, h, mi, s)) ==> valid_civil(y, m, d) && 0 <= h < 24 && 0 <= mi < 60 && 0 <= s < 60,
{
    let zoned = jiff::Timestamp::from_second(timestamp).ok()?.in_tz(TIME_ZONE).ok()?;
    let (date, time) = (zoned.date(), zoned.time());
    Some((date.year(), date.month(), date.day(), time.hour(), time.minute(), time.second()))
}

impl R9kDate {
    /// The date is one jiff can represent.
    pub open spec fn valid(self) -> bool {
        valid_civil(self.year, self.month, self.day)
    }

    /// Whether the date is one jiff can represent.
    pub fn is_valid(&self) -> (r: bool)
        ensures
            r == self.valid(),
    {
        -9999 <= self.year && self.year <= 9999 && 1 <= self.month && self.month <= 12
            && 1 <= self.day && (self.day as u32) <= month_length(self.year, self.month)
    }

    /// The date with the given year, month and day.
    pub fn date(year: i16, month: i8, day: i8) -> (r: R9kDate)
        requires
            valid_civil(year, month, day),
        ensures
            r.year == year && r.month == month && r.day == day,
            r.valid(),
    {
        R9kDate { year, month, day }
    }

    /// Reads a `dd/mm/yyyy` date; on failure, jiff's message.
    pub fn parse(text: &str) -> (r: Result<R9kDate, String>)
        ensures
            match r {
                Ok(d) => dmy_date(text@) == Some((d.year, d.month, d.day)) && d.valid(),
                Err(_) => dmy_date(text@) is None,
            },
    {
        match parse_dmy(text) {
            Ok((year, month, day)) => Ok(R9kDate { year, month, day }),
            Err(e) => Err(e),
        }
    }

    /// The date as `dd/mm/yyyy`.
    pub fn to_string(&self) -> (r: String)
        requires
            self.valid(),
        ensures
            r@ == dmy_text(self.year, self.month, self.day),
    {
        format_dmy(self.year, self.month, self.day)
    }

    /// Unix time of `seconds_since_midnight` after the start of the date in
    /// New Zealand, when jiff can place the date there and the sum is an
    /// `i64`.
    pub open spec fn timestamp_spec(self, seconds_since_midnight: i64) -> Option<i64> {
        match nz_midnight(self.year, self.month, self.day) {
            Some(m) => if i64::MIN <= m + seconds_since_midnight <= i64::MAX {
                Some((m + seconds_since_midnight) as i64)
            } else {
                None
            },
            None => None,
        }
    }

    /// The Unix time of a time of day on the date, in New Zealand.
    pub fn to_timestamp_secs(&self, seconds_since_midnight: i64) -> (r: i64)
        requires
            self.valid(),
            self.timestamp_spec(seconds_since_midnight) is Some,
        ensures
            Some(r) == self.timestamp_spec(seconds_since_midnight),
    {
        let midnight = midnight_in_nz(self.year, self.month, self.day).unwrap();
        midnight + seconds_since_midnight
    }

    /// The Unix time of a time of day on the date, or `None` when it has
    /// none.
    pub fn checked_timestamp_secs(&self, seconds_since_midnight: i64) -> (r: Option<i64>)
        requires
            self.valid(),
        ensures
            r == self.timestamp_spec(seconds_since_midnight),
    {
        match midnight_in_nz(self.year, self.month, self.day) {
            Some(m) => match m.checked_add(seconds_since_midnight) {
                Some(_) => Some(self.to_timestamp_secs(seconds_since_midnight)),
                None => None,
            },
            None => None,
        }
    }

    /// The New Zealand date of a Unix time and the seconds since its
    /// midnight on the clock.
    pub open spec fn split_spec(timestamp: i64) -> Option<(R9kDate, i64)> {
        match nz_civil(timestamp) {
            Some((y, m, d, h, mi, s)) => Some((R9kDate { year: y, month: m, day: d }, ((h * 60 + mi) * 60 + s) as i64)),
            None => None,
        }
    }

    /// The New Zealand date of a Unix time, and the seconds since midnight
    /// shown on the clock.
    pub fn from_timestamp_secs(timestamp: i64) -> (r: (R9kDate, i64))
        requires
            nz_civil(timestamp) is Some,
        ensures
            Some(r) == R9kDate::split_spec(timestamp),
            r.0.valid(),
            0 <= r.1 < 86400,
            nz_civil(timestamp) == Some((r.0.year, r.0.month, r.0.day,
                (r.1 / 3600) as i8, ((r.1 % 3600) / 60) as i8, (r.1 % 60) as i8)),
    {
        let (y, m, d, h, mi, s) = civil_in_nz(timestamp).unwrap();
        let secs = ((h as i64) * 60 + (mi as i64)) * 60 + (s as i64);
        proof {
            clock_seconds(h, mi, s);
        }
        (R9kDate { year: y, month: m, day: d }, secs)
    }

    /// The New Zealand date and clock seconds of a Unix time, or `None`
    /// when jiff cannot place it.
    pub fn checked_from_timestamp_secs(timestamp: i64) -> (r: Option<(R9kDate, i64)>)
        ensures
            r == R9kDate::split_spec(timestamp),
            r matches Some(p) ==> p.0.valid(),
    {
        match civil_in_nz(timestamp) {
            Some(_) => Some(R9kDate::from_timestamp_secs(timestamp)),
            None => None,
        }
    }
}


impl core::str::FromStr for R9kDate {
    type Err = String;

    /// Same as [`R9kDate::parse`].
    fn from_str(s: &str) -> (r: Result<R9kDate, String>)
        ensures
            match r {
                Ok(d) => dmy_date(s@) == Some((d.year, d.month, d.day)) && d.valid(),
                Err(_) => dmy_date(s@) is None,
            },
    {
        R9kDate::parse(s)
    }
}


/// Seconds since midnight of a clock time: below a day, and read back as
/// the same hour, minute and second.
proof fn clock_seconds(h: i8, mi: i8, s: i8)
    requires
        0 <= h < 24,
        0 <= mi < 60,
        0 <= s < 60,
    ensures
        0 <= (h * 60 + mi) * 60 + s < 86400,
        ((h * 60 + mi) * 60 + s) / 3600 == h,
        (((h * 60 + mi) * 60 + s) % 3600) / 60 == mi,
        ((h * 60 + mi) * 60 + s) % 60 == s,
{
    let t = (h * 60 + mi) * 60 + s;
    assert(t == h * 3600 + (mi * 60 + s)) by (nonlinear_arith)
        requires t == (h * 60 + mi) * 60 + s;
    assert(0 <= mi * 60 + s < 3600) by (nonlinear_arith)
        requires 0 <= mi < 60, 0 <= s < 60;
    assert(0 <= t < 86400) by (nonlinear_arith)
        requires t == h * 3600 + (mi * 60 + s), 0 <= h < 24, 0 <= mi * 60 + s < 3600;
    vstd::arithmetic::div_mod::lemma_fundamental_div_mod_converse(t as int, 3600, h as int, (mi * 60 + s) as int);
    vstd::arithmetic::div_mod::lemma_fundamental_div_mod_converse((mi * 60 + s) as int, 60, mi as int, s as int);
    vstd::arithmetic::div_mod::lemma_fundamental_div_mod_converse(t as int, 60, (h * 60 + mi) as int, s as int);
}

/// The New Zealand date and clock seconds of a Unix time read back as the
/// time jiff gives for it: the date is jiff's date, and the seconds, below
/// a day, are jiff's hour, minute and second.
pub proof fn split_reads_clock(timestamp: i64, y: i16, m: i8, d: i8, h: i8, mi: i8, s: i8)
    requires
        nz_civil(timestamp) == Some((y, m, d, h, mi, s)),
        0 <= h < 24,
        0 <= mi < 60,
        0 <= s < 60,
    ensures
        R9kDate::split_spec(timestamp) matches Some((date, secs)) && {
            &&& date.year == y && date.month == m && date.day == d
            &&& 0 <= secs < 86400
            &&& secs / 3600 == h
            &&& (secs % 3600) / 60 == mi
            &&& secs % 60 == s
        },
{
    clock_seconds(h, mi, s);
}

} // verus!
