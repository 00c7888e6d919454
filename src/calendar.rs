use chrono::Datelike;
use vstd::prelude::*;
use crate::error::EtError;

verus! {

/// Earliest year that a calendar date may have.
pub const MIN_YEAR: i32 = -262143;

/// Latest year that a calendar date may have.
pub const MAX_YEAR: i32 = 262142;

/// Leap years of the proleptic Gregorian calendar.
pub open spec fn is_leap_year(y: int) -> bool {
    y % 4 == 0 && (y % 100 != 0 || y % 400 == 0)
}

/// Number of days of month `m` (1 to 12) in year `y`.
pub open spec fn days_in_month(y: int, m: int) -> int {
    if m == 2 {
        if is_leap_year(y) { 29 } else { 28 }
    } else if m == 4 || m == 6 || m == 9 || m == 11 {
        30
    } else {
        31
    }
}

/// Number of days of year `y` that come before the first of month `m`.
pub open spec fn days_before_month(y: int, m: int) -> int {
    let common: int = if m <= 1 { 0 }
        else if m == 2 { 31 }
        else if m == 3 { 59 }
        else if m == 4 { 90 }
        else if m == 5 { 120 }
        else if m == 6 { 151 }
        else if m == 7 { 181 }
        else if m == 8 { 212 }
        else if m == 9 { 243 }
        else if m == 10 { 273 }
        else if m == 11 { 304 }
        else { 334 };
    if m > 2 && is_leap_year(y) { common + 1 } else { common }
}

/// A day that exists in the proleptic Gregorian calendar, within the
/// supported range of years.
pub open spec fn is_valid_date(y: int, m: int, d: int) -> bool {
    MIN_YEAR <= y <= MAX_YEAR && 1 <= m <= 12 && 1 <= d <= days_in_month(y, m)
}

/// Day of the year of a date, counting the first of January as 1.
pub open spec fn ordinal_of(y: int, m: int, d: int) -> int {
    days_before_month(y, m) + d
}

/// What chrono reads from `s` as a date laid out by `fmt`, as year, month and day.
pub uninterp spec fn parsed_ymd(s: Seq<char>, fmt: Seq<char>) -> Option<(i32, u32, u32)>;

/// Relies on chrono's `NaiveDate::from_ymd_opt`, which returns a date exactly
/// when year, month and day name a day of the proleptic Gregorian calendar
/// between `MIN_YEAR` and `MAX_YEAR`, and on its `ordinal`, the day of the year
/// counted from 1.
#[verifier::external_body]
fn ymd_ordinal(year: i32, month: u32, day: u32) -> (r: Option<u32>)
    ensures
        r.is_some() == is_valid_date(year as int, month as int, day as int),
        r matches Some(n) ==> n as int == ordinal_of(year as int, month as int, day as int),
{
    chrono::NaiveDate::from_ymd_opt(year, month, day).map(|d| d.ordinal())
}

/// Relies on chrono's `NaiveDate::parse_from_str`: the result depends on the
/// text and the layout alone, and a date it returns always exists.
#[verifier::external_body]
fn parse_ymd(s: &str, fmt: &str) -> (r: Option<(i32, u32, u32)>)
    ensures
        r == parsed_ymd(s@, fmt@),
        r matches Some(t) ==> is_valid_date(t.0 as int, t.1 as int, t.2 as int),
{
    match chrono::NaiveDate::parse_from_str(s, fmt) {
        Ok(d) => Some((d.year(), d.month(), d.day())),
        Err(_) => None,
    }
}

/// A calendar day, as year, month (1 to 12) and day of the month.
#[derive(PartialEq, Eq, Structural, Clone, Copy, Debug)]
pub struct CalendarDate {
    year: i32,
    month: u32,
    day: u32,
}

impl View for CalendarDate {
    type V = (int, int, int);

    closed spec fn view(&self) -> (int, int, int) {
        (self.year as int, self.month as int, self.day as int)
    }
}

impl CalendarDate {
    #[verifier::type_invariant]
    spec fn exists_in_calendar(self) -> bool {
        is_valid_date(self.year as int, self.month as int, self.day as int)
    }

    /// The date with the given year, month and day, or `InvalidInput` when
    /// no such day exists.
    pub fn new(year: i32, month: u32, day: u32) -> (r: Result<CalendarDate, EtError>)
        ensures
            r is Ok <==> is_valid_date(year as int, month as int, day as int),
            r matches Ok(d) ==> d@ == (year as int, month as int, day as int),
            r matches Err(e) ==> e == EtError::InvalidInput,
    {
        match ymd_ordinal(year, month, day) {
            Some(_) => Ok(CalendarDate { year, month, day }),
            None => Err(EtError::InvalidInput),
        }
    }

    /// Reads a date written as `YYYY-MM-DD`; text that names no date gives
    /// `InvalidInput`.
    pub fn parse(s: &str) -> (r: Result<CalendarDate, EtError>)
        ensures
            match parsed_ymd(s@, "%Y-%m-%d"@) {
                Some(t) => r matches Ok(d) && d@ == (t.0 as int, t.1 as int, t.2 as int),
                None => r == Err::<CalendarDate, EtError>(EtError::InvalidInput),
            },
    {
        match parse_ymd(s, "%Y-%m-%d") {
            Some((year, month, day)) => Ok(CalendarDate { year, month, day }),
            None => Err(EtError::InvalidInput),
        }
    }

    /// The year.
    pub fn year(&self) -> (r: i32)
        ensures
            r as int == self@.0,
    {
        self.year
    }

    /// The month, from 1 to 12.
    pub fn month(&self) -> (r: u32)
        ensures
            r as int == self@.1,
    {
        self.month
    }

    /// The day of the month, from 1.
    pub fn day(&self) -> (r: u32)
        ensures
            r as int == self@.2,
    {
        self.day
    }
}

/// The day of the year of `date`, from 1 for the first of January to 365, or
/// 366 in a leap year.
pub fn day_of_year(date: &CalendarDate) -> (r: Result<u32, String>)
    ensures
        r matches Ok(n) && n as int == ordinal_of(date@.0, date@.1, date@.2),
        r matches Ok(n) && 1 <= n <= (if is_leap_year(date@.0) { 366int } else { 365int }),
{
    proof {
        use_type_invariant(date);
    }
    match ymd_ordinal(date.year(), date.month(), date.day()) {
        Some(n) => Ok(n),
        None => Err(String::new()),
    }
}

} // verus!
