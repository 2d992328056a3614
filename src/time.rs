//! Points in time, held as broken-down UTC calendar fields.

use chrono::{Datelike, Timelike};
use vstd::prelude::*;

verus! {

/// The earliest year a timestamp may carry.
pub const MIN_YEAR: i32 = -262143;

/// The latest year a timestamp may carry.
pub const MAX_YEAR: i32 = 262142;

/// A UTC instant as calendar date and time of day.
///
/// A nanosecond value of one billion or more marks a leap second, which
/// only the last second of a minute may hold.
#[derive(Clone, Copy, Debug, PartialEq, Eq, Structural)]
pub struct Timestamp {
    pub year: i32,
    pub month: u32,
    pub day: u32,
    pub hour: u32,
    pub minute: u32,
    pub second: u32,
    pub nanosecond: u32,
}

/// Whether `y` is a leap year of the proleptic Gregorian calendar.
pub open spec fn is_leap_year(y: int) -> bool {
    y % 4 == 0 && (y % 100 != 0 || y % 400 == 0)
}

/// The number of days in month `m` (1 to 12) of year `y`.
pub open spec fn days_in_month(y: int, m: int) -> int {
    if m == 2 {
        if is_leap_year(y) { 29 } else { 28 }
    } else if m == 4 || m == 6 || m == 9 || m == 11 {
        30
    } else {
        31
    }
}

impl Timestamp {
    /// The fields name an existing date and time of day.
    pub open spec fn wf(self) -> bool {
        &&& MIN_YEAR <= self.year <= MAX_YEAR
        &&& 1 <= self.month <= 12
        &&& 1 <= self.day <= days_in_month(self.year as int, self.month as int)
        &&& self.hour < 24
        &&& self.minute < 60
        &&& self.second < 60
        &&& (self.nanosecond < 1_000_000_000 || (self.second == 59 && self.nanosecond
            < 2_000_000_000))
    }

    /// Builds a timestamp from its fields, or `None` when they name no instant.
    pub fn new(
        year: i32,
        month: u32,
        day: u32,
        hour: u32,
        minute: u32,
        second: u32,
        nanosecond: u32,
    ) -> (r: Option<Timestamp>)
        ensures
            ({
                let t = Timestamp { year, month, day, hour, minute, second, nanosecond };
                &&& t.wf() ==> r == Some(t)
                &&& !t.wf() ==> r is None
            }),
    {
        let t = Timestamp { year, month, day, hour, minute, second, nanosecond };
        if year < MIN_YEAR || year > MAX_YEAR || month < 1 || month > 12 || day < 1 {
            return None;
        }
        let leap = year % 4 == 0 && (year % 100 != 0 || year % 400 == 0);
        assert(leap == is_leap_year(year as int));
        let dim: u32 = if month == 2 {
            if leap { 29 } else { 28 }
        } else if month == 4 || month == 6 || month == 9 || month == 11 {
            30
        } else {
            31
        };
        if day > dim || hour >= 24 || minute >= 60 || second >= 60 {
            return None;
        }
        if nanosecond >= 2_000_000_000 || (nanosecond >= 1_000_000_000 && second != 59) {
            return None;
        }
        Some(t)
    }
}

/// The RFC 3339 text that chrono writes for a timestamp.
pub uninterp spec fn rfc3339_text(t: Timestamp) -> Seq<char>;

/// The timestamp that chrono reads from a text, if any.
pub uninterp spec fn parsed_rfc3339(s: Seq<char>) -> Option<Timestamp>;

/// Relies on chrono's RFC 3339 writer, the form its serde support writes for
/// `DateTime<Utc>` (`to_rfc3339_opts` with `SecondsFormat::AutoSi` and `Z`):
/// a function of the instant alone, which chrono's own parser reads back to
/// the same instant.
#[verifier::external_body]
pub(crate) fn format_rfc3339(t: &Timestamp) -> (r: String)
    requires
        t.wf(),
    ensures
        r@ == rfc3339_text(*t),
        parsed_rfc3339(r@) == Some(*t),
{
    let date = chrono::NaiveDate::from_ymd_opt(t.year, t.month, t.day).unwrap();
    let time = chrono::NaiveTime::from_hms_nano_opt(t.hour, t.minute, t.second, t.nanosecond)
        .unwrap();
    date.and_time(time).and_utc().to_rfc3339_opts(chrono::SecondsFormat::AutoSi, true)
}

/// Relies on `<DateTime<Utc> as FromStr>::from_str` and chrono's field getters:
/// the result depends on the text alone, and a parsed instant has valid fields.
#[verifier::external_body]
pub(crate) fn parse_rfc3339(s: &str) -> (r: Option<Timestamp>)
    ensures
        r == parsed_rfc3339(s@),
        r matches Some(t) ==> t.wf(),
{
    match s.parse::<chrono::DateTime<chrono::Utc>>() {
        Ok(d) => Some(Timestamp {
            year: d.year(),
            month: d.month(),
            day: d.day(),
            hour: d.hour(),
            minute: d.minute(),
            second: d.second(),
            nanosecond: d.nanosecond(),
        }),
        Err(_) => None,
    }
}

} // verus!

verus! {

impl Timestamp {
    /// Reads an RFC 3339 date and time, as chrono reads it.
    pub fn parse(s: &str) -> (r: Option<Timestamp>)
        ensures
            r == parsed_rfc3339(s@),
            r matches Some(t) ==> t.wf(),
    {
        parse_rfc3339(s)
    }

    /// The RFC 3339 text of this instant, as chrono writes it; chrono reads
    /// it back to the same instant.
    pub fn to_rfc3339(&self) -> (r: String)
        requires
            self.wf(),
        ensures
            r@ == rfc3339_text(*self),
            parsed_rfc3339(r@) == Some(*self),
    {
        format_rfc3339(self)
    }
}

} // verus!
