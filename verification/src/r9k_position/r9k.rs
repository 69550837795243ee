//! R9K train updates as received from KiwiRail, and their validation.

use vstd::prelude::*;
use crate::decimal::{digit_char, i128_to_string, int_decimal, nat_decimal};
use crate::r9k_position::error::{Error, ErrorView};
use crate::r9k_position::r9k_date::days_in_month;
use crate::text::str_eq;

verus! {

/// Latest accepted delay between an event and its processing, in seconds.
pub const MAX_DELAY_SECS: i64 = 60;

/// Earliest accepted delay (an event ahead of the clock), in seconds.
pub const MIN_DELAY_SECS: i64 = -30;

/// A calendar date (proleptic Gregorian), as the R9K message carries it.
#[derive(Clone, Copy, Debug, PartialEq, Eq)]
pub struct CivilDate {
    pub year: i32,
    pub month: u32,
    pub day: u32,
}

/// R9K train update message.
#[derive(Clone, Debug)]
pub struct R9kMessage {
    /// The train update.
    pub train_update: TrainUpdate,
}

/// R9000 (R9K) train update as received from KiwiRail.
#[derive(Clone, Debug)]
pub struct TrainUpdate {
    /// Train ID for even trains.
    pub even_train_id: Option<String>,
    /// Train ID for odd trains.
    pub odd_train_id: Option<String>,
    /// The creation date of the train update.
    pub created_date: CivilDate,
    /// Train's registration number.
    pub registration_number: String,
    /// Type of train.
    pub train_type: TrainType,
    /// Train type code.
    pub train_type_code: String,
    /// Full train.
    pub full_train: Option<String>,
    /// Source of the train update.
    pub source: String,
    /// Changes to the train trip by station; only the first entry is an
    /// actual update, the rest is schedule.
    pub changes: Vec<Change>,
}

/// R9K train update change.
#[derive(Clone, Debug)]
pub struct Change {
    /// Type of change that triggered the update message.
    pub change_type: ChangeType,
    /// Station identifier.
    pub station: u32,
    /// Unique id for the entry.
    pub entry_id: String,
    /// Scheduled arrival time, seconds from midnight of the creation date.
    pub arrival_time: i32,
    /// Actual (or estimated) arrival time, seconds from midnight; `-1` if
    /// not available.
    pub actual_arrival_time: i32,
    /// The train has arrived.
    pub has_arrived: bool,
    /// Arrival delay.
    pub arrival_delay: i32,
    /// Scheduled departure time, seconds from midnight.
    pub departure_time: i32,
    /// Actual (or estimated) departure time, seconds from midnight; `-1` if
    /// not available.
    pub actual_departure_time: i32,
    /// The train has departed.
    pub has_departed: bool,
    /// Departure delay.
    pub departure_delay: i32,
    /// The time at which the train was detained.
    pub detention_time: i32,
    /// The duration for which the train was detained.
    pub detention_duration: i32,
    /// The platform at which the train arrived.
    pub platform: String,
    /// The exit line from a station.
    pub exit_line: String,
    /// Train direction in reference to the platform.
    pub train_direction: Direction,
    /// Stop type.
    pub stop_type: StopType,
    /// Parity.
    pub parity: String,
}

/// The type of change that triggered the update message.
#[derive(Clone, Copy, Debug, PartialEq, Eq, Structural)]
pub enum ChangeType {
    ExitedFirstStation,
    ReachedFinalDestination,
    ArrivedAtStation,
    ExitedStation,
    PassedStationWithoutStopping,
    DetainedInPark,
    DetainedAtStation,
    StationNoLongerPartOfTheRun,
    PlatformChange,
    ExitLineChange,
    ScheduleChange,
}

/// Type of train.
#[derive(Clone, Copy, Debug, PartialEq, Eq, Structural)]
pub enum TrainType {
    Metro,
    Exmetro,
    Freight,
}

/// The train type an R9K message names by its text (`METRO`, `EXMETRO`,
/// `FREIGHT`); `None` for any other text.
pub open spec fn train_type_spec(text: Seq<char>) -> Option<TrainType> {
    if text == "METRO"@ {
        Some(TrainType::Metro)
    } else if text == "EXMETRO"@ {
        Some(TrainType::Exmetro)
    } else if text == "FREIGHT"@ {
        Some(TrainType::Freight)
    } else {
        None
    }
}

impl TrainType {
    /// The train type named by a text of an R9K message.
    pub fn from_text(text: &str) -> (r: Option<TrainType>)
        ensures
            r == train_type_spec(text@),
    {
        if str_eq(text, "METRO") {
            Some(TrainType::Metro)
        } else if str_eq(text, "EXMETRO") {
            Some(TrainType::Exmetro)
        } else if str_eq(text, "FREIGHT") {
            Some(TrainType::Freight)
        } else {
            None
        }
    }
}

/// Direction of travel.
#[derive(Clone, Copy, Debug, PartialEq, Eq, Structural)]
pub enum Direction {
    Right,
    Left,
    Unspecified,
}

/// Stop type.
#[derive(Clone, Copy, Debug, PartialEq, Eq, Structural)]
pub enum StopType {
    Original,
    Intermediate,
}

impl ChangeType {
    /// Changes that concern the progress of a trip.
    pub open spec fn relevant(self) -> bool {
        match self {
            ChangeType::ReachedFinalDestination | ChangeType::ArrivedAtStation
            | ChangeType::ExitedFirstStation | ChangeType::ExitedStation
            | ChangeType::PassedStationWithoutStopping | ChangeType::ScheduleChange => true,
            _ => false,
        }
    }

    /// Changes that mean the train is at a station.
    pub open spec fn arrival(self) -> bool {
        match self {
            ChangeType::ArrivedAtStation | ChangeType::ReachedFinalDestination => true,
            _ => false,
        }
    }

    /// The numeric code of each change type on the wire (1 to 11).
    pub open spec fn code_spec(self) -> u8 {
        match self {
            ChangeType::ExitedFirstStation => 1,
            ChangeType::ReachedFinalDestination => 2,
            ChangeType::ArrivedAtStation => 3,
            ChangeType::ExitedStation => 4,
            ChangeType::PassedStationWithoutStopping => 5,
            ChangeType::DetainedInPark => 6,
            ChangeType::DetainedAtStation => 7,
            ChangeType::StationNoLongerPartOfTheRun => 8,
            ChangeType::PlatformChange => 9,
            ChangeType::ExitLineChange => 10,
            ChangeType::ScheduleChange => 11,
        }
    }

    /// Whether the change concerns the progress of a trip.
    pub fn is_relevant(&self) -> (r: bool)
        ensures
            r == self.relevant(),
    {
        match self {
            ChangeType::ReachedFinalDestination | ChangeType::ArrivedAtStation
            | ChangeType::ExitedFirstStation | ChangeType::ExitedStation
            | ChangeType::PassedStationWithoutStopping | ChangeType::ScheduleChange => true,
            _ => false,
        }
    }

    /// Whether the change is an arrival.
    pub fn is_arrival(&self) -> (r: bool)
        ensures
            r == self.arrival(),
    {
        match self {
            ChangeType::ArrivedAtStation | ChangeType::ReachedFinalDestination => true,
            _ => false,
        }
    }

    /// The numeric code of the change type.
    pub fn code(&self) -> (r: u8)
        ensures
            r == self.code_spec(),
    {
        match self {
            ChangeType::ExitedFirstStation => 1,
            ChangeType::ReachedFinalDestination => 2,
            ChangeType::ArrivedAtStation => 3,
            ChangeType::ExitedStation => 4,
            ChangeType::PassedStationWithoutStopping => 5,
            ChangeType::DetainedInPark => 6,
            ChangeType::DetainedAtStation => 7,
            ChangeType::StationNoLongerPartOfTheRun => 8,
            ChangeType::PlatformChange => 9,
            ChangeType::ExitLineChange => 10,
            ChangeType::ScheduleChange => 11,
        }
    }

    /// The change type with the given numeric code.
    pub fn from_code(code: u8) -> (r: Option<ChangeType>)
        ensures
            match r {
                Some(t) => t.code_spec() == code,
                None => code < 1 || code > 11,
            },
    {
        match code {
            1 => Some(ChangeType::ExitedFirstStation),
            2 => Some(ChangeType::ReachedFinalDestination),
            3 => Some(ChangeType::ArrivedAtStation),
            4 => Some(ChangeType::ExitedStation),
            5 => Some(ChangeType::PassedStationWithoutStopping),
            6 => Some(ChangeType::DetainedInPark),
            7 => Some(ChangeType::DetainedAtStation),
            8 => Some(ChangeType::StationNoLongerPartOfTheRun),
            9 => Some(ChangeType::PlatformChange),
            10 => Some(ChangeType::ExitLineChange),
            11 => Some(ChangeType::ScheduleChange),
            _ => None,
        }
    }

    /// The variant's name (what the change type displays).
    pub fn to_string(&self) -> (r: String)
        ensures
            r@ == match self {
                ChangeType::ExitedFirstStation => "ExitedFirstStation"@,
                ChangeType::ReachedFinalDestination => "ReachedFinalDestination"@,
                ChangeType::ArrivedAtStation => "ArrivedAtStation"@,
                ChangeType::ExitedStation => "ExitedStation"@,
                ChangeType::PassedStationWithoutStopping => "PassedStationWithoutStopping"@,
                ChangeType::DetainedInPark => "DetainedInPark"@,
                ChangeType::DetainedAtStation => "DetainedAtStation"@,
                ChangeType::StationNoLongerPartOfTheRun => "StationNoLongerPartOfTheRun"@,
                ChangeType::PlatformChange => "PlatformChange"@,
                ChangeType::ExitLineChange => "ExitLineChange"@,
                ChangeType::ScheduleChange => "ScheduleChange"@,
            },
    {
        let s = match self {
            ChangeType::ExitedFirstStation => "ExitedFirstStation",
            ChangeType::ReachedFinalDestination => "ReachedFinalDestination",
            ChangeType::ArrivedAtStation => "ArrivedAtStation",
            ChangeType::ExitedStation => "ExitedStation",
            ChangeType::PassedStationWithoutStopping => "PassedStationWithoutStopping",
            ChangeType::DetainedInPark => "DetainedInPark",
            ChangeType::DetainedAtStation => "DetainedAtStation",
            ChangeType::StationNoLongerPartOfTheRun => "StationNoLongerPartOfTheRun",
            ChangeType::PlatformChange => "PlatformChange",
            ChangeType::ExitLineChange => "ExitLineChange",
            ChangeType::ScheduleChange => "ScheduleChange",
        };
        String::from_str(s)
    }
}

impl Direction {
    /// The numeric code of the direction on the wire.
    pub fn code(&self) -> (r: i8)
        ensures
            r == match self {
                Direction::Right => 0i8,
                Direction::Left => 1i8,
                Direction::Unspecified => -1i8,
            },
    {
        match self {
            Direction::Right => 0,
            Direction::Left => 1,
            Direction::Unspecified => -1,
        }
    }

    /// The direction with the given numeric code.
    pub fn from_code(code: i8) -> (r: Option<Direction>)
        ensures
            r == match code {
                0 => Some(Direction::Right),
                1 => Some(Direction::Left),
                -1 => Some(Direction::Unspecified),
                _ => None::<Direction>,
            },
    {
        match code {
            0 => Some(Direction::Right),
            1 => Some(Direction::Left),
            -1 => Some(Direction::Unspecified),
            _ => None,
        }
    }
}

impl StopType {
    /// The numeric code of the stop type on the wire.
    pub fn code(&self) -> (r: i8)
        ensures
            r == match self {
                StopType::Original => 4i8,
                StopType::Intermediate => 5i8,
            },
    {
        match self {
            StopType::Original => 4,
            StopType::Intermediate => 5,
        }
    }

    /// The stop type with the given numeric code.
    pub fn from_code(code: i8) -> (r: Option<StopType>)
        ensures
            r == match code {
                4 => Some(StopType::Original),
                5 => Some(StopType::Intermediate),
                _ => None::<StopType>,
            },
    {
        match code {
            4 => Some(StopType::Original),
            5 => Some(StopType::Intermediate),
            _ => None,
        }
    }
}

/// Seconds from midnight of the actual departure (if departed) or arrival
/// (if arrived) in a change; `None` when neither happened.
pub open spec fn actual_secs(c: Change) -> Option<i32> {
    if c.has_departed {
        Some(c.actual_departure_time)
    } else if c.has_arrived {
        Some(c.actual_arrival_time)
    } else {
        None
    }
}

/// The view of a validation result.
pub open spec fn result_view(r: Result<(), Error>) -> Result<(), ErrorView> {
    match r {
        Ok(()) => Ok(()),
        Err(e) => Err(e@),
    }
}

/// Two decimal digits of a number below 100.
pub open spec fn two_digits(n: int) -> Seq<char> {
    seq![digit_char(n / 10), digit_char(n % 10)]
}

/// A year as `chrono` writes it: four digits for years 0 to 9999, otherwise
/// a sign and at least four digits (`{:+05}`).
pub open spec fn year_text(y: int) -> Seq<char> {
    if 0 <= y <= 9999 {
        two_digits(y / 100) + two_digits(y % 100)
    } else {
        let digits = nat_decimal((if y < 0 { -y } else { y }) as nat);
        let padded = if digits.len() < 4 { Seq::new((4 - digits.len()) as nat, |i: int| '0') + digits } else { digits };
        seq![if y < 0 { '-' } else { '+' }] + padded
    }
}

/// How `chrono` displays midnight of a date (`NaiveDateTime`'s `Display`,
/// `YYYY-MM-DD 00:00:00`); a date `chrono` does not accept is shown as its
/// default, 1970-01-01.
pub open spec fn naive_midnight_text(year: i32, month: u32, day: u32) -> Seq<char> {
    if chrono_ymd(year as int, month as int, day as int) {
        year_text(year as int) + seq!['-'] + two_digits(month as int) + seq!['-'] + two_digits(day as int)
            + " 00:00:00"@
    } else {
        "1970-01-01 00:00:00"@
    }
}

/// Renders midnight of `date` as `chrono` displays a `NaiveDateTime`
/// (`NaiveDate::and_hms_opt(0, 0, 0)` then `to_string`; a date that `chrono`
/// does not accept renders its default). Claimed: the text is
/// [`naive_midnight_text`] of the date, as chrono's `Debug` of `NaiveDate`
/// and `NaiveTime` write it.
#[verifier::external_body]
pub(crate) fn midnight_text(date: &CivilDate) -> (r: String)
    ensures
        r@ == naive_midnight_text(date.year, date.month, date.day),
{
    chrono::NaiveDate::from_ymd_opt(date.year, date.month, date.day)
        .and_then(|d| d.and_hms_opt(0, 0, 0))
        .unwrap_or_default()
        .to_string()
}

/// A date `chrono::NaiveDate` accepts: years -262143 to 262142, a month,
/// and a day of that month.
pub open spec fn chrono_ymd(year: int, month: int, day: int) -> bool {
    -262143 <= year <= 262142 && 1 <= month <= 12 && 1 <= day <= days_in_month(year, month)
}

/// A creation date `chrono::NaiveDate` accepts.
pub open spec fn chrono_date(date: CivilDate) -> bool {
    chrono_ymd(date.year as int, date.month as int, date.day as int)
}

/// The date `chrono::NaiveDate::parse_from_str(text, "%d/%m/%Y")` reads from
/// a text, as year, month and day.
pub uninterp spec fn chrono_dmy(text: Seq<char>) -> Option<(i32, u32, u32)>;

/// `chrono::NaiveDate::parse_from_str(text, "%d/%m/%Y")`, giving the date as
/// year, month and day, or chrono's error as text. Claimed: the result is
/// `Ok` exactly when `chrono_dmy` of the text is a date, and then it is that
/// date, one chrono accepts; what the error says is not stated.
#[verifier::external_body]
fn parse_chrono_dmy(text: &str) -> (r: Result<(i32, u32, u32), String>)
    ensures
        match r {
            Ok((y, m, d)) => chrono_dmy(text@) == Some((y, m, d)) && chrono_ymd(y as int, m as int, d as int),
            Err(_) => chrono_dmy(text@) is None,
        },
{
    chrono::NaiveDate::parse_from_str(text, "%d/%m/%Y")
        .map(|d| (chrono::Datelike::year(&d), chrono::Datelike::month(&d), chrono::Datelike::day(&d)))
        .map_err(|e| e.to_string())
}

/// Reads the creation date of an R9K message (`dd/mm/yyyy`); on failure,
/// chrono's message.
pub fn parse_created_date(text: &str) -> (r: Result<CivilDate, String>)
    ensures
        match r {
            Ok(d) => chrono_dmy(text@) == Some((d.year, d.month, d.day)) && chrono_date(d),
            Err(_) => chrono_dmy(text@) is None,
        },
{
    match parse_chrono_dmy(text) {
        Ok((year, month, day)) => Ok(CivilDate { year, month, day }),
        Err(e) => Err(e),
    }
}

/// Days from 1970-01-01 to a date of the proleptic Gregorian calendar.
pub open spec fn days_from_civil(y: int, m: int, d: int) -> int {
    let yy = if m <= 2 { y - 1 } else { y };
    let era = yy / 400;
    let yoe = yy - era * 400;
    let doy = (153 * (if m > 2 { m - 3 } else { m + 9 }) + 2) / 5 + d - 1;
    era * 146097 + yoe * 365 + yoe / 4 - yoe / 100 + doy - 719468
}

/// Unix time of midnight of a date read as UTC. A date `chrono` does not
/// accept is read as 1970-01-01, as [`local_midnight`] reads it.
pub open spec fn naive_utc_seconds(date: CivilDate) -> int {
    if chrono_date(date) {
        days_from_civil(date.year as int, date.month as int, date.day as int) * 86400
    } else {
        0
    }
}

/// Unix time of the earliest instant at which the machine's local time
/// zone shows midnight of `date` (`chrono::Local::from_local_datetime`,
/// `earliest`), or `None` when no such instant exists. Which instant it is
/// depends on the machine's time zone; claimed is only what chrono's
/// `FixedOffset` guarantees of every local offset, that it lies strictly
/// within a day of UTC, so the instant lies strictly within a day of
/// midnight of the date read as UTC.
#[verifier::external_body]
pub(crate) fn local_midnight(date: &CivilDate) -> (r: Option<i64>)
    ensures
        r matches Some(t) ==> -86400 < t - naive_utc_seconds(*date) < 86400,
{
    let naive = chrono::NaiveDate::from_ymd_opt(date.year, date.month, date.day)
        .and_then(|d| d.and_hms_opt(0, 0, 0))
        .unwrap_or_default();
    chrono::TimeZone::from_local_datetime(&chrono::Local, &naive).earliest().map(|t| t.timestamp())
}

/// The current Unix time in seconds (`chrono::Local::now`). It depends on
/// the clock, so nothing is claimed of the value.
#[verifier::external_body]
pub(crate) fn now_secs() -> (r: i64)
{
    chrono::Local::now().timestamp()
}

impl TrainUpdate {
    /// The train ID: the even ID if present, else the odd ID, else empty.
    pub open spec fn train_id_spec(self) -> Seq<char> {
        match self.even_train_id {
            Some(e) => e@,
            None => match self.odd_train_id {
                Some(o) => o@,
                None => Seq::empty(),
            },
        }
    }

    /// What validation answers for the given Unix time of local midnight
    /// of the creation date (`None` when the local time does not exist)
    /// and the current Unix time.
    pub open spec fn validation(self, midnight: Option<i64>, now: i64) -> Result<(), ErrorView> {
        if self.changes.len() == 0 {
            Err(ErrorView::NoUpdate)
        } else {
            match actual_secs(self.changes[0]) {
                None => Err(ErrorView::NoActualUpdate),
                Some(secs) => if secs <= 0 {
                    Err(ErrorView::NoActualUpdate)
                } else {
                    match midnight {
                        None => Err(ErrorView::WrongTime("invalid local time: "@
                            + naive_midnight_text(self.created_date.year,
                                self.created_date.month, self.created_date.day))),
                        Some(m) => {
                            let delay = now - (m + secs);
                            if delay > MAX_DELAY_SECS {
                                Err(ErrorView::Outdated("message delayed by "@
                                    + int_decimal(delay) + " seconds"@))
                            } else if delay < MIN_DELAY_SECS {
                                Err(ErrorView::WrongTime("message ahead by "@
                                    + int_decimal(delay) + " seconds"@))
                            } else {
                                Ok(())
                            }
                        },
                    }
                },
            }
        }
    }

    /// Get the train ID, preferring even over odd.
    pub fn train_id(&self) -> (r: String)
        ensures
            r@ == self.train_id_spec(),
    {
        match &self.even_train_id {
            Some(e) => e.clone(),
            None => match &self.odd_train_id {
                Some(o) => o.clone(),
                None => String::new(),
            },
        }
    }

    /// Validates the message against the given Unix time of local midnight
    /// of its creation date and the given current Unix time.
    ///
    /// Errors: `NoUpdate` without changes; `NoActualUpdate` when the first
    /// change has no positive actual departure or arrival time;
    /// `WrongTime` when local midnight does not exist; `Outdated` when the
    /// event is more than a minute old; `WrongTime` when it is more than
    /// half a minute ahead.
    pub fn validate_at(&self, midnight: Option<i64>, now: i64) -> (r: Result<(), Error>)
        ensures
            result_view(r) == self.validation(midnight, now),
    {
        if self.changes.len() == 0 {
            return Err(Error::NoUpdate);
        }
        let change = &self.changes[0];
        let from_midnight_secs: i32 = if change.has_departed {
            change.actual_departure_time
        } else if change.has_arrived {
            change.actual_arrival_time
        } else {
            return Err(Error::NoActualUpdate);
        };
        if from_midnight_secs <= 0 {
            return Err(Error::NoActualUpdate);
        }
        let m = match midnight {
            None => {
                let text = midnight_text(&self.created_date);
                return Err(Error::WrongTime(String::from_str("invalid local time: ").concat(text.as_str())));
            },
            Some(m) => m,
        };
        let event_ts: i128 = m as i128 + from_midnight_secs as i128;
        let delay_secs: i128 = now as i128 - event_ts;
        if delay_secs > MAX_DELAY_SECS as i128 {
            let d = i128_to_string(delay_secs);
            return Err(Error::Outdated(String::from_str("message delayed by ").concat(d.as_str()).concat(" seconds")));
        }
        if delay_secs < MIN_DELAY_SECS as i128 {
            let d = i128_to_string(delay_secs);
            return Err(Error::WrongTime(String::from_str("message ahead by ").concat(d.as_str()).concat(" seconds")));
        }
        Ok(())
    }

    /// Validates the message against the machine's local time zone and
    /// clock. The answer is the one [`TrainUpdate::validate_at`] gives for
    /// some current time and a local midnight of the creation date, which
    /// lies strictly within a day of that midnight read as UTC; without
    /// changes or an actual time it is fixed.
    pub fn validate(&self) -> (r: Result<(), Error>)
        ensures
            exists|midnight: Option<i64>, now: i64|
                (midnight matches Some(t) ==> -86400 < t - naive_utc_seconds(self.created_date) < 86400)
                && result_view(r) == #[trigger] self.validation(midnight, now),
            self.changes.len() == 0 ==> result_view(r) == Err::<(), ErrorView>(ErrorView::NoUpdate),
    {
        if self.changes.len() == 0 {
            assert(result_view(Err(Error::NoUpdate)) == self.validation(None, 0));
            return Err(Error::NoUpdate);
        }
        let midnight = local_midnight(&self.created_date);
        let now = now_secs();
        self.validate_at(midnight, now)
    }
}


/// The changes that concern a trip's progress are exactly: reaching the
/// final destination, arriving at a station, leaving the first station,
/// leaving a station, passing a station without stopping, and a schedule
/// change. The arrivals (arriving at a station, reaching the final
/// destination) are among them.
pub proof fn relevant_changes(c: ChangeType)
    ensures
        c.relevant() <==> (c is ReachedFinalDestination || c is ArrivedAtStation || c is ExitedFirstStation
            || c is ExitedStation || c is PassedStationWithoutStopping || c is ScheduleChange),
        c.arrival() <==> (c is ArrivedAtStation || c is ReachedFinalDestination),
        c.arrival() ==> c.relevant(),
{
}


/// The actual time of a change is its departure time once the train has
/// left, else its arrival time once it has arrived, and there is none
/// before either.
pub proof fn actual_time_of_change(c: Change)
    ensures
        c.has_departed ==> actual_secs(c) == Some(c.actual_departure_time),
        !c.has_departed && c.has_arrived ==> actual_secs(c) == Some(c.actual_arrival_time),
        !c.has_departed && !c.has_arrived ==> actual_secs(c) is None,
{
}

/// A train update is accepted exactly when it has a change with a positive
/// actual time, local midnight of its date exists, and the event it
/// reports is at most a minute old and at most half a minute ahead of
/// `now`. One more than a minute old is outdated; one more than half a
/// minute ahead is at the wrong time.
pub proof fn validation_window(update: TrainUpdate, midnight: Option<i64>, now: i64)
    ensures
        update.validation(midnight, now) is Ok <==> {
            &&& update.changes.len() > 0
            &&& actual_secs(update.changes[0]) matches Some(secs) && secs > 0
            &&& midnight matches Some(m) && -30 <= now - (m + actual_secs(update.changes[0]).unwrap()) <= 60
        },
        update.changes.len() == 0 ==> update.validation(midnight, now) == Err::<(), ErrorView>(ErrorView::NoUpdate),
        ({
            let secs = actual_secs(update.changes[0]);
            update.changes.len() > 0 && secs is Some && secs.unwrap() > 0 && midnight is Some
                ==> (now - (midnight.unwrap() + secs.unwrap()) > 60
                    <==> update.validation(midnight, now) matches Err(ErrorView::Outdated(_)))
        }),
{
}

} // verus!
