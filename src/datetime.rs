//! Naive calendar dates and date-times (no time zone: the vendor reports in the
//! site's local time), and their text forms on the wire: `YYYY-MM-DD` and
//! `YYYY-MM-DD HH:MM:SS`.

use chrono::{Datelike, Timelike};
use vstd::prelude::*;

use crate::text::padded_decimal;

verus! {

/// The earliest year that a date can hold.
pub const MIN_YEAR: i32 = -262143;

/// The latest year that a date can hold.
pub const MAX_YEAR: i32 = 262142;

/// Whether `y` is a leap year of the proleptic Gregorian calendar.
pub open spec fn is_leap_year(y: int) -> bool {
    y % 4 == 0 && (y % 100 != 0 || y % 400 == 0)
}

/// The number of days of month `m` (1 to 12) of year `y`.
pub open spec fn days_in_month(y: int, m: int) -> int {
    if m == 2 {
        if is_leap_year(y) {
            29
        } else {
            28
        }
    } else if m == 4 || m == 6 || m == 9 || m == 11 {
        30
    } else {
        31
    }
}

/// A calendar date.
#[derive(Clone, Copy, Debug, PartialEq, Eq, Structural)]
pub struct Date {
    pub year: i32,
    /// 1 to 12
    pub month: u32,
    /// 1 to the length of the month
    pub day: u32,
}

/// A calendar date with a time of day, to the second.
#[derive(Clone, Copy, Debug, PartialEq, Eq, Structural)]
pub struct DateTime {
    pub date: Date,
    /// 0 to 23
    pub hour: u32,
    /// 0 to 59
    pub minute: u32,
    /// 0 to 59
    pub second: u32,
}

impl Date {
    /// The date exists in the calendar and lies in the supported range of years.
    pub open spec fn wf(self) -> bool {
        &&& MIN_YEAR <= self.year <= MAX_YEAR
        &&& 1 <= self.month <= 12
        &&& 1 <= self.day <= days_in_month(self.year as int, self.month as int)
    }

    /// The first second of the date.
    pub open spec fn spec_midnight(self) -> DateTime {
        DateTime { date: self, hour: 0, minute: 0, second: 0 }
    }

    /// The date of the given year, month and day, if it exists.
    pub fn new(year: i32, month: u32, day: u32) -> (r: Option<Date>)
        ensures
            r is Some <==> (Date { year, month, day }).wf(),
            r is Some ==> r->Some_0 == (Date { year, month, day }),
    {
        if year < MIN_YEAR || year > MAX_YEAR || month < 1 || month > 12 || day < 1 {
            return None;
        }
        let leap = year % 4 == 0 && (year % 100 != 0 || year % 400 == 0);
        let last: u32 = if month == 2 {
            if leap {
                29
            } else {
                28
            }
        } else if month == 4 || month == 6 || month == 9 || month == 11 {
            30
        } else {
            31
        };
        assert(leap == is_leap_year(year as int));
        if day > last {
            None
        } else {
            Some(Date { year, month, day })
        }
    }

    /// Whether the date exists in the calendar and lies in the supported range.
    pub fn is_valid(&self) -> (r: bool)
        ensures
            r == self.wf(),
    {
        match Date::new(self.year, self.month, self.day) {
            Some(_) => true,
            None => false,
        }
    }

    /// The first second of the date.
    pub fn midnight(&self) -> (r: DateTime)
        ensures
            r == self.spec_midnight(),
    {
        DateTime { date: *self, hour: 0, minute: 0, second: 0 }
    }
}

impl DateTime {
    /// The date is valid and the time lies within a day.
    pub open spec fn wf(self) -> bool {
        &&& self.date.wf()
        &&& self.hour < 24
        &&& self.minute < 60
        &&& self.second < 60
    }

    /// Whether the date is valid and the time lies within a day.
    pub fn is_valid(&self) -> (r: bool)
        ensures
            r == self.wf(),
    {
        self.date.is_valid() && self.hour < 24 && self.minute < 60 && self.second < 60
    }

    /// The moment at the given time of day of `date`, if the time exists.
    pub fn new(date: Date, hour: u32, minute: u32, second: u32) -> (r: Option<DateTime>)
        requires
            date.wf(),
        ensures
            r is Some <==> (hour < 24 && minute < 60 && second < 60),
            r is Some ==> r->Some_0 == (DateTime { date, hour, minute, second }),
    {
        if hour < 24 && minute < 60 && second < 60 {
            Some(DateTime { date, hour, minute, second })
        } else {
            None
        }
    }
}

/// The year as `%Y` writes it: four digits at least, with a sign outside 0 to 9999.
pub open spec fn year_text(y: int) -> Seq<char> {
    if 0 <= y <= 9999 {
        padded_decimal(y as nat, 4)
    } else if y < 0 {
        seq!['-'] + padded_decimal((-y) as nat, 4)
    } else {
        seq!['+'] + padded_decimal(y as nat, 4)
    }
}

/// The `YYYY-MM-DD` form of a date.
pub open spec fn date_text(d: Date) -> Seq<char> {
    year_text(d.year as int) + seq!['-'] + padded_decimal(d.month as nat, 2) + seq!['-']
        + padded_decimal(d.day as nat, 2)
}

/// The `YYYY-MM-DD HH:MM:SS` form of a date-time.
pub open spec fn datetime_text(t: DateTime) -> Seq<char> {
    date_text(t.date) + seq![' '] + padded_decimal(t.hour as nat, 2) + seq![':']
        + padded_decimal(t.minute as nat, 2) + seq![':'] + padded_decimal(t.second as nat, 2)
}

/// What chrono reads from `s` with the format `%Y-%m-%d %H:%M:%S`.
pub uninterp spec fn parsed_datetime(s: Seq<char>) -> Option<DateTime>;

/// What chrono reads from `s` with the format `%Y-%m-%d`.
pub uninterp spec fn parsed_date(s: Seq<char>) -> Option<Date>;

#[verifier::external_type_specification]
#[verifier::external_body]
pub struct ExParseError(chrono::ParseError);

/// Relies on chrono's `NaiveDate::format` with `%Y-%m-%d`: the year zero-padded to
/// four digits (signed outside 0 to 9999), month and day zero-padded to two.
#[verifier::external_body]
fn chrono_format_date(d: &Date) -> (r: String)
    requires
        d.wf(),
    ensures
        r@ == date_text(*d),
{
    chrono::NaiveDate::from_ymd_opt(d.year, d.month, d.day).unwrap().format("%Y-%m-%d").to_string()
}

/// Relies on chrono's `NaiveDateTime::format` with `%Y-%m-%d %H:%M:%S`: the date as
/// `%Y-%m-%d` writes it, then hour, minute and second zero-padded to two digits.
#[verifier::external_body]
fn chrono_format_datetime(t: &DateTime) -> (r: String)
    requires
        t.wf(),
    ensures
        r@ == datetime_text(*t),
{
    let d = chrono::NaiveDate::from_ymd_opt(t.date.year, t.date.month, t.date.day).unwrap();
    d.and_hms_opt(t.hour, t.minute, t.second).unwrap().format("%Y-%m-%d %H:%M:%S").to_string()
}

/// Relies on chrono's `NaiveDateTime::parse_from_str` with `%Y-%m-%d %H:%M:%S`: the
/// outcome depends on the text alone, and what it reads is a valid date-time.
#[verifier::external_body]
fn chrono_parse_datetime(s: &str) -> (r: Result<DateTime, chrono::ParseError>)
    ensures
        match r {
            Ok(t) => parsed_datetime(s@) == Some(t) && t.wf(),
            Err(_) => parsed_datetime(s@) is None,
        },
{
    match chrono::NaiveDateTime::parse_from_str(s, "%Y-%m-%d %H:%M:%S") {
        Ok(t) => Ok(
            DateTime {
                date: Date { year: t.year(), month: t.month(), day: t.day() },
                hour: t.hour(),
                minute: t.minute(),
                second: t.second(),
            },
        ),
        Err(e) => Err(e),
    }
}

/// Relies on chrono's `NaiveDate::parse_from_str` with `%Y-%m-%d`: the outcome
/// depends on the text alone, and what it reads is a valid date.
#[verifier::external_body]
fn chrono_parse_date(s: &str) -> (r: Result<Date, chrono::ParseError>)
    ensures
        match r {
            Ok(d) => parsed_date(s@) == Some(d) && d.wf(),
            Err(_) => parsed_date(s@) is None,
        },
{
    match chrono::NaiveDate::parse_from_str(s, "%Y-%m-%d") {
        Ok(d) => Ok(Date { year: d.year(), month: d.month(), day: d.day() }),
        Err(e) => Err(e),
    }
}

/// What reading a date-time field gives: the full form, or else a bare date taken
/// as its midnight.
pub open spec fn spec_str_to_datetime(s: Seq<char>) -> Option<DateTime> {
    match parsed_datetime(s) {
        Some(t) => Some(t),
        None => match parsed_date(s) {
            Some(d) => Some(d.spec_midnight()),
            None => None,
        },
    }
}

/// Formats a date as `YYYY-MM-DD`.
pub fn date_to_str(d: &Date) -> (r: String)
    requires
        d.wf(),
    ensures
        r@ == date_text(*d),
{
    chrono_format_date(d)
}

/// Formats a date-time as `YYYY-MM-DD HH:MM:SS`.
pub fn datetime_to_str(t: &DateTime) -> (r: String)
    requires
        t.wf(),
    ensures
        r@ == datetime_text(*t),
{
    chrono_format_datetime(t)
}

/// Reads a date-time in the form `YYYY-MM-DD HH:MM:SS`; a bare `YYYY-MM-DD` is read
/// as midnight of that date.
pub fn str_to_datetime(s: &str) -> (r: Result<DateTime, chrono::ParseError>)
    ensures
        r is Ok <==> spec_str_to_datetime(s@) is Some,
        r is Ok ==> Some(r->Ok_0) == spec_str_to_datetime(s@) && r->Ok_0.wf(),
{
    match chrono_parse_datetime(s) {
        Ok(t) => Ok(t),
        Err(_) => match chrono_parse_date(s) {
            Ok(d) => Ok(d.midnight()),
            Err(e) => Err(e),
        },
    }
}

/// Reads a date in the form `YYYY-MM-DD`.
pub fn str_to_date(s: &str) -> (r: Result<Date, chrono::ParseError>)
    ensures
        r is Ok <==> parsed_date(s@) is Some,
        r is Ok ==> Some(r->Ok_0) == parsed_date(s@) && r->Ok_0.wf(),
{
    chrono_parse_date(s)
}

/// Reads an optional date-time field: absent stays absent, present is read as
/// `str_to_datetime` reads it.
pub fn opt_str_to_datetime(s: Option<&str>) -> (r: Result<Option<DateTime>, chrono::ParseError>)
    ensures
        match s {
            None => r == Ok::<Option<DateTime>, chrono::ParseError>(None),
            Some(t) => {
                &&& r is Ok <==> spec_str_to_datetime(t@) is Some
                &&& r is Ok ==> r->Ok_0 == spec_str_to_datetime(t@)
            },
        },
{
    match s {
        None => Ok(None),
        Some(t) => match str_to_datetime(t) {
            Ok(d) => Ok(Some(d)),
            Err(e) => Err(e),
        },
    }
}

} // verus!
