use vstd::prelude::*;

use crate::error::ValuationError;

verus! {

/// Earliest year that a calendar date may carry.
pub const MIN_YEAR: i32 = -262143;

/// Latest year that a calendar date may carry.
pub const MAX_YEAR: i32 = 262142;

/// Text layout of a date: four-digit year, month and day, joined by dashes.
pub const DATE_FORMAT: &'static str = "%Y-%m-%d";

/// Leap years of the proleptic Gregorian calendar.
pub open spec fn is_leap_year(y: int) -> bool {
    (y % 4 == 0 && y % 100 != 0) || y % 400 == 0
}

pub open spec fn days_in_month(y: int, m: int) -> int {
    if m == 2 {
        if is_leap_year(y) { 29 } else { 28 }
    } else if m == 4 || m == 6 || m == 9 || m == 11 {
        30
    } else {
        31
    }
}

/// Days of the months of year `y` that come before month `m`.
pub open spec fn days_before_month(y: int, m: int) -> int
    decreases m,
{
    if m <= 1 {
        0
    } else {
        days_before_month(y, m - 1) + days_in_month(y, m - 1)
    }
}

/// Days of the years before year `y`, counted from the start of year 1
/// (negative for years up to 0).
pub open spec fn days_before_year(y: int) -> int {
    let p = y - 1;
    365 * p + p / 4 - p / 100 + p / 400
}

/// Day number of a date: 1 for January 1 of year 1, one more for each later day.
pub open spec fn day_number(y: int, m: int, d: int) -> int {
    days_before_year(y) + days_before_month(y, m) + d
}

pub open spec fn is_valid_date(y: int, m: int, d: int) -> bool {
    MIN_YEAR <= y <= MAX_YEAR && 1 <= m <= 12 && 1 <= d <= days_in_month(y, m)
}

/// A day of the proleptic Gregorian calendar.
#[derive(Debug, Clone, Copy, PartialEq, Eq, Structural)]
pub struct CalendarDate {
    pub year: i32,
    pub month: u32,
    pub day: u32,
}

impl CalendarDate {
    pub open spec fn wf(&self) -> bool {
        is_valid_date(self.year as int, self.month as int, self.day as int)
    }

    pub open spec fn ordinal(&self) -> int {
        day_number(self.year as int, self.month as int, self.day as int)
    }
}

/// What chrono's date parser reads from `text` under `format`: year, month
/// and day, or nothing where the text does not fit.
pub uninterp spec fn parsed_date_fields(text: Seq<char>, format: Seq<char>) -> Option<(i32, u32, u32)>;

/// Relies on chrono's `NaiveDate::parse_from_str`: its result depends on the
/// two strings alone, and every date it returns exists in chrono's range.
#[verifier::external_body]
fn parse_ymd(text: &str, format: &str) -> (r: Option<(i32, u32, u32)>)
    ensures
        r == parsed_date_fields(text@, format@),
        r matches Some((y, m, d)) ==> is_valid_date(y as int, m as int, d as int),
{
    chrono::NaiveDate::parse_from_str(text, format).ok().map(
        |d| (chrono::Datelike::year(&d), chrono::Datelike::month(&d), chrono::Datelike::day(&d)),
    )
}

/// Relies on chrono's `NaiveDate::from_ymd_opt`, which accepts every valid
/// date in its range, and on `signed_duration_since` with `num_days`, which
/// count the days between two dates of the proleptic Gregorian calendar.
#[verifier::external_body]
fn days_between(later: CalendarDate, earlier: CalendarDate) -> (r: i64)
    requires
        later.wf(),
        earlier.wf(),
    ensures
        r == later.ordinal() - earlier.ordinal(),
{
    let a = chrono::NaiveDate::from_ymd_opt(later.year, later.month, later.day).unwrap();
    let b = chrono::NaiveDate::from_ymd_opt(earlier.year, earlier.month, earlier.day).unwrap();
    a.signed_duration_since(b).num_days()
}

/// The date fields that a text in the `YYYY-MM-DD` layout names.
pub open spec fn date_of_text(text: Seq<char>) -> Option<CalendarDate> {
    match parsed_date_fields(text, DATE_FORMAT@) {
        Some((y, m, d)) => Some(CalendarDate { year: y, month: m, day: d }),
        None => None,
    }
}

impl CalendarDate {
    /// Reads a date written as `YYYY-MM-DD`.
    pub fn parse(text: &str) -> (r: Option<CalendarDate>)
        ensures
            r == date_of_text(text@),
            r matches Some(d) ==> d.wf(),
    {
        match parse_ymd(text, DATE_FORMAT) {
            Some((y, m, d)) => Some(CalendarDate { year: y, month: m, day: d }),
            None => None,
        }
    }

    /// Signed number of days from `origin` to `self`.
    pub fn days_since(&self, origin: &CalendarDate) -> (r: i64)
        requires
            self.wf(),
            origin.wf(),
        ensures
            r == self.ordinal() - origin.ordinal(),
    {
        days_between(*self, *origin)
    }
}

} // verus!
