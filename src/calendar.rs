//! Calendar dates and instants in the proleptic Gregorian calendar, as plain
//! numbers: a date is a year, month and day; an instant is a count of seconds
//! since 1970-01-01T00:00:00Z.

use vstd::prelude::*;
use chrono::NaiveDate;
use chrono::NaiveTime;
use crate::text::decimal;
use crate::text::padded;

verus! {

/// Earliest year that a date may have.
pub const MIN_YEAR: i32 = -262143;

/// Latest year that a date may have.
pub const MAX_YEAR: i32 = 262142;

/// Seconds in a calendar day; instants carry no leap seconds.
pub const SECONDS_PER_DAY: i64 = 86400;

pub open spec fn is_leap_year(y: int) -> bool {
    (y % 4 == 0 && y % 100 != 0) || y % 400 == 0
}

pub open spec fn days_in_month(y: int, m: int) -> int {
    if m == 2 {
        if is_leap_year(y) {
            29
        } else {
            28
        }
    } else if m == 4 || m == 6 || m == 9 || m == 11 {
        30
    } else {
        31
    }
}

/// Whether year, month and day name a day of the calendar in the supported range.
pub open spec fn valid_date(y: int, m: int, d: int) -> bool {
    &&& MIN_YEAR <= y <= MAX_YEAR
    &&& 1 <= m <= 12
    &&& 1 <= d <= days_in_month(y, m)
}

/// Leap years before year `y`, counted from a fixed origin: the difference of
/// two values counts the leap years in between.
pub open spec fn leap_years_before(y: int) -> int {
    (y - 1) / 4 - (y - 1) / 100 + (y - 1) / 400
}

/// Days from the first of January to the first of month `m` of year `y`.
pub open spec fn days_before_month(y: int, m: int) -> int {
    let common: int = if m == 1 {
        0
    } else if m == 2 {
        31
    } else if m == 3 {
        59
    } else if m == 4 {
        90
    } else if m == 5 {
        120
    } else if m == 6 {
        151
    } else if m == 7 {
        181
    } else if m == 8 {
        212
    } else if m == 9 {
        243
    } else if m == 10 {
        273
    } else if m == 11 {
        304
    } else {
        334
    };
    if m > 2 && is_leap_year(y) {
        common + 1
    } else {
        common
    }
}

/// Days from 1970-01-01 to the given date (negative before it).
pub open spec fn epoch_day(y: int, m: int, d: int) -> int {
    365 * (y - 1970) + leap_years_before(y) - leap_years_before(1970) + days_before_month(y, m)
        + d - 1
}

/// Last day number that a date may have: that of 262142-12-31.
pub open spec fn max_epoch_day() -> int {
    epoch_day(MAX_YEAR as int, 12, 31)
}

/// The year as chrono's `%Y` writes it: four digits with zeros in front for
/// years 0 to 9999, else with a sign and at least four digits.
pub open spec fn year_text(y: int) -> Seq<char> {
    if 0 <= y <= 9999 {
        padded(y as nat, 4)
    } else if y > 9999 {
        seq!['+'] + decimal(y as nat)
    } else if y >= -9999 {
        seq!['-'] + padded((-y) as nat, 4)
    } else {
        seq!['-'] + decimal((-y) as nat)
    }
}

/// A date as `YYYY-MM-DD`.
pub open spec fn date_text(y: int, m: int, d: int) -> Seq<char> {
    year_text(y) + seq!['-'] + padded(m as nat, 2) + seq!['-'] + padded(d as nat, 2)
}

/// A day of the calendar.
#[derive(Clone, Copy, Debug, PartialEq, Eq, Structural)]
pub struct Date {
    pub year: i32,
    pub month: u32,
    pub day: u32,
}

impl Date {
    pub open spec fn wf(&self) -> bool {
        valid_date(self.year as int, self.month as int, self.day as int)
    }

    /// Days from 1970-01-01 to this date.
    pub open spec fn day_number(&self) -> int {
        epoch_day(self.year as int, self.month as int, self.day as int)
    }

    /// The date with the given year, month and day, when it exists.
    pub fn new(year: i32, month: u32, day: u32) -> (r: Option<Date>)
        ensures
            r is Some <==> valid_date(year as int, month as int, day as int),
            r is Some ==> r->0 == (Date { year, month, day }),
    {
        if chrono_accepts(year, month, day) {
            Some(Date { year, month, day })
        } else {
            None
        }
    }

    /// The instant at which this date begins in UTC.
    pub fn midnight_utc(&self) -> (r: i64)
        requires
            self.wf(),
        ensures
            r == SECONDS_PER_DAY * self.day_number(),
    {
        chrono_midnight_utc(self)
    }

    /// The date as `YYYY-MM-DD`.
    pub fn to_text(&self) -> (r: String)
        requires
            self.wf(),
        ensures
            r@ == date_text(self.year as int, self.month as int, self.day as int),
    {
        chrono_date_text(self)
    }
}

/// Relies on `chrono::NaiveDate::from_ymd_opt`: it yields a date exactly when
/// the year lies in chrono's range and the month and day exist in it.
#[verifier::external_body]
fn chrono_accepts(year: i32, month: u32, day: u32) -> (r: bool)
    ensures
        r == valid_date(year as int, month as int, day as int),
{
    NaiveDate::from_ymd_opt(year, month, day).is_some()
}

/// Relies on chrono's `NaiveDate::and_time`, `NaiveDateTime::and_utc` and
/// `DateTime::timestamp`: midnight of a date in UTC, in seconds since the epoch.
#[verifier::external_body]
fn chrono_midnight_utc(date: &Date) -> (r: i64)
    requires
        date.wf(),
    ensures
        r == SECONDS_PER_DAY * date.day_number(),
{
    let d = NaiveDate::from_ymd_opt(date.year, date.month, date.day).unwrap();
    d.and_time(NaiveTime::MIN).and_utc().timestamp()
}

/// Relies on chrono's `NaiveDate::format` with `%Y-%m-%d`.
#[verifier::external_body]
fn chrono_date_text(date: &Date) -> (r: String)
    requires
        date.wf(),
    ensures
        r@ == date_text(date.year as int, date.month as int, date.day as int),
{
    let d = NaiveDate::from_ymd_opt(date.year, date.month, date.day).unwrap();
    d.format("%Y-%m-%d").to_string()
}

/// Relies on `chrono::DateTime::<Utc>::MIN_UTC`, the earliest instant chrono
/// represents: midnight UTC of the first day of its earliest year.
#[verifier::external_body]
pub(crate) fn earliest_instant() -> (r: i64)
    ensures
        r == SECONDS_PER_DAY * epoch_day(MIN_YEAR as int, 1, 1),
{
    chrono::DateTime::<chrono::Utc>::MIN_UTC.timestamp()
}

} // verus!
