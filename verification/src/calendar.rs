//! Plain calendar values and the calendar questions the verified core
//! delegates to `chrono`: weekday-name recognition, calendar-date
//! validity, clock-time validity, and the conversion of a US-Eastern
//! civil time to a UTC timestamp (which needs the time-zone database).

use core::str::FromStr;
use chrono::TimeZone;

use vstd::prelude::*;

verus! {

/// A calendar date as plain fields (proleptic Gregorian).
#[derive(Clone, Copy, Debug, PartialEq, Eq, Structural)]
pub struct CalendarDate {
    pub year: i32,
    pub month: u32,
    pub day: u32,
}

/// A time of day as plain fields.
#[derive(Clone, Copy, Debug, PartialEq, Eq, Structural)]
pub struct ClockTime {
    pub hour: u32,
    pub minute: u32,
    pub second: u32,
}

/// Whether `chrono` recognizes the text as a weekday name (full or
/// three-letter, case-insensitive).
pub uninterp spec fn weekday_parse_ok(s: Seq<char>) -> bool;

/// Relies on `chrono::Weekday::from_str`: whether the text parses as a
/// weekday name depends on the text alone.
#[verifier::external_body]
pub fn parse_weekday_ok(s: &str) -> (r: bool)
    ensures
        r == weekday_parse_ok(s@),
{
    chrono::Weekday::from_str(s).is_ok()
}

/// True in the leap years of the proleptic Gregorian calendar.
pub open spec fn spec_is_leap_year(year: i32) -> bool {
    year as int % 4 == 0 && (year as int % 100 != 0 || year as int % 400 == 0)
}

/// The number of days of the given month.
pub open spec fn spec_days_in_month(year: i32, month: u32) -> int {
    if month == 2 {
        if spec_is_leap_year(year) {
            29
        } else {
            28
        }
    } else if month == 4 || month == 6 || month == 9 || month == 11 {
        30
    } else {
        31
    }
}

/// A valid calendar date: a real day of the proleptic Gregorian calendar.
pub open spec fn spec_valid_date(d: CalendarDate) -> bool {
    &&& 1 <= d.month <= 12
    &&& 1 <= d.day <= spec_days_in_month(d.year, d.month)
}

/// Relies on `chrono::NaiveDate::from_ymd_opt`: within the years the
/// sheets can carry, it accepts exactly the real days of the proleptic
/// Gregorian calendar.
#[verifier::external_body]
pub fn chrono_date_valid(d: &CalendarDate) -> (r: bool)
    requires
        0 <= d.year <= 9999,
    ensures
        r == spec_valid_date(*d),
{
    chrono::NaiveDate::from_ymd_opt(d.year, d.month, d.day).is_some()
}

/// A valid time of day.
pub open spec fn spec_valid_time(t: ClockTime) -> bool {
    t.hour < 24 && t.minute < 60 && t.second < 60
}

/// Relies on `chrono::NaiveTime::from_hms_opt`: it accepts exactly the
/// hours below 24 and the minutes and seconds below 60.
#[verifier::external_body]
pub fn chrono_time_valid(t: &ClockTime) -> (r: bool)
    ensures
        r == spec_valid_time(*t),
{
    chrono::NaiveTime::from_hms_opt(t.hour, t.minute, t.second).is_some()
}

/// The UTC timestamp (seconds) of a US-Eastern civil date and time, or
/// nothing when the civil time does not name exactly one instant (it
/// falls in a daylight-saving gap or overlap, or is invalid).
pub uninterp spec fn eastern_utc_of(d: CalendarDate, t: ClockTime) -> Option<i64>;

/// Relies on `chrono_tz::US::Eastern` with
/// `chrono::TimeZone::with_ymd_and_hms`: the time-zone database is fixed,
/// so the answer depends on the civil date and time alone.
#[verifier::external_body]
pub fn eastern_civil_to_utc(d: &CalendarDate, t: &ClockTime) -> (r: Option<i64>)
    ensures
        r == eastern_utc_of(*d, *t),
{
    chrono_tz::US::Eastern.with_ymd_and_hms(d.year, d.month, d.day, t.hour, t.minute, t.second)
        .single()
        .map(|dt| dt.timestamp())
}

} // verus!
