//! Calendar types for the timestamps that Bugzilla reports, and the
//! trusted bridges that parse the server's textual formats into them.

use chrono::Datelike;
use chrono::Timelike;
use vstd::prelude::*;

verus! {

/// A timezone-aware instant, normalized to UTC and split into its
/// calendar and clock fields.
#[derive(Clone, Copy, Debug, PartialEq, Eq, Structural)]
pub struct DateTime {
    pub year: i32,
    pub month: u8,
    pub day: u8,
    pub hour: u8,
    pub minute: u8,
    pub second: u8,
}

impl DateTime {
    /// The fields lie in their calendar and clock ranges.
    pub open spec fn wf(self) -> bool {
        &&& 1 <= self.month <= 12
        &&& 1 <= self.day <= 31
        &&& self.hour < 24
        &&& self.minute < 60
        &&& self.second < 60
    }
}

/// A calendar date without a time of day, as Bugzilla stores a deadline.
#[derive(Clone, Copy, Debug, PartialEq, Eq, Structural)]
pub struct Date {
    pub year: i32,
    pub month: u8,
    pub day: u8,
}

impl Date {
    /// The fields lie in their calendar ranges.
    pub open spec fn wf(self) -> bool {
        &&& 1 <= self.month <= 12
        &&& 1 <= self.day <= 31
    }
}

/// What parsing an RFC 3339 timestamp yields: the instant's UTC calendar
/// and clock fields for a well-formed timestamp, nothing for anything
/// else. The result depends on the text alone.
pub uninterp spec fn rfc3339_parsed(s: Seq<char>) -> Option<DateTime>;

/// Relies on chrono's `DateTime::parse_from_rfc3339`, `with_timezone`,
/// and the `Datelike` and `Timelike` accessors, whose documentation fixes
/// the field ranges (month 1..=12, day 1..=31, hour below 24, minute and
/// second below 60).
#[verifier::external_body]
pub fn parse_rfc3339_utc(s: &str) -> (r: Option<DateTime>)
    ensures
        r == rfc3339_parsed(s@),
        r matches Some(dt) ==> dt.wf(),
{
    match chrono::DateTime::parse_from_rfc3339(s) {
        Ok(t) => {
            let u = t.with_timezone(&chrono::Utc);
            Some(DateTime {
                year: u.year(),
                month: u.month() as u8,
                day: u.day() as u8,
                hour: u.hour() as u8,
                minute: u.minute() as u8,
                second: u.second() as u8,
            })
        },
        Err(_) => None,
    }
}

/// What parsing a `year-month-day` date yields: the calendar fields for a
/// well-formed date, nothing for anything else. The result depends on the
/// text alone.
pub uninterp spec fn date_parsed(s: Seq<char>) -> Option<Date>;

/// Relies on chrono's `NaiveDate::parse_from_str` with the year-month-day
/// format that Bugzilla uses for deadlines, and on the `Datelike`
/// accessors, whose documentation fixes the field ranges.
#[verifier::external_body]
pub fn parse_date(s: &str) -> (r: Option<Date>)
    ensures
        r == date_parsed(s@),
        r matches Some(d) ==> d.wf(),
{
    match chrono::NaiveDate::parse_from_str(s, "%Y-%m-%d") {
        Ok(d) => Some(Date { year: d.year(), month: d.month() as u8, day: d.day() as u8 }),
        Err(_) => None,
    }
}

} // verus!
