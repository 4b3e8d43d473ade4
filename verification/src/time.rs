//! Calendar dates, local time, and the source of the current local time.
use vstd::prelude::*;

use crate::text::{decimal, zero_padded};

verus! {

/// The earliest year that `chrono::NaiveDate` represents.
pub const MIN_YEAR: i32 = -262143;

/// The latest year that `chrono::NaiveDate` represents.
pub const MAX_YEAR: i32 = 262142;

/// Leap years of the proleptic Gregorian calendar.
pub open spec fn is_leap_year(year: int) -> bool {
    year % 4 == 0 && (year % 100 != 0 || year % 400 == 0)
}

/// The number of days of a month of the proleptic Gregorian calendar.
pub open spec fn days_in_month(year: int, month: int) -> int {
    if month == 2 {
        if is_leap_year(year) {
            29
        } else {
            28
        }
    } else if month == 4 || month == 6 || month == 9 || month == 11 {
        30
    } else {
        31
    }
}

/// Whether the year, month and day name a day that `chrono::NaiveDate` holds.
pub open spec fn spec_valid_ymd(year: int, month: int, day: int) -> bool {
    &&& MIN_YEAR <= year <= MAX_YEAR
    &&& 1 <= month <= 12
    &&& 1 <= day <= days_in_month(year, month)
}

/// The year as chrono writes it in a date: four digits for the years 0 to
/// 9999, otherwise a sign and at least four digits.
pub open spec fn spec_year_text(year: int) -> Seq<char> {
    if 0 <= year <= 9999 {
        zero_padded(decimal(year as nat), 4)
    } else if year < 0 {
        seq!['-'] + zero_padded(decimal((-year) as nat), 4)
    } else {
        seq!['+'] + zero_padded(decimal(year as nat), 4)
    }
}

/// The ISO 8601 text of a date, `%Y-%m-%d`, as `NaiveDate`'s `Display` writes it.
pub open spec fn spec_date_text(year: int, month: int, day: int) -> Seq<char> {
    spec_year_text(year) + seq!['-'] + zero_padded(decimal(month as nat), 2) + seq!['-']
        + zero_padded(decimal(day as nat), 2)
}

/// Calls `chrono::NaiveDate::from_ymd_opt`, which returns `Some` exactly for
/// the days of the proleptic Gregorian calendar from `MIN_YEAR` to `MAX_YEAR`,
/// and tells whether it did.
#[verifier::external_body]
fn chrono_date_exists(year: i32, month: u32, day: u32) -> (r: bool)
    ensures
        r == spec_valid_ymd(year as int, month as int, day as int),
{
    chrono::NaiveDate::from_ymd_opt(year, month, day).is_some()
}

/// Writes the date with `chrono::NaiveDate`'s `Display`, which is `%Y-%m-%d`
/// with the year written as `spec_year_text` says.
#[verifier::external_body]
fn chrono_date_text(year: i32, month: u32, day: u32) -> (s: String)
    requires
        spec_valid_ymd(year as int, month as int, day as int),
    ensures
        s@ == spec_date_text(year as int, month as int, day as int),
{
    chrono::NaiveDate::from_ymd_opt(year, month, day).unwrap().to_string()
}

/// A day of the proleptic Gregorian calendar, as `chrono::NaiveDate` holds it.
#[derive(Debug, Clone, Copy, PartialEq, Eq, Structural)]
pub struct CalendarDate {
    year: i32,
    month: u32,
    day: u32,
}

impl View for CalendarDate {
    type V = (int, int, int);

    closed spec fn view(&self) -> (int, int, int) {
        (self.year as int, self.month as int, self.day as int)
    }
}

impl CalendarDate {
    #[verifier::type_invariant]
    spec fn valid(self) -> bool {
        spec_valid_ymd(self.year as int, self.month as int, self.day as int)
    }

    /// The text of the date, `%Y-%m-%d`.
    pub open spec fn spec_text(self) -> Seq<char> {
        spec_date_text(self@.0, self@.1, self@.2)
    }

    /// The date with the given year, month and day, if that day exists.
    pub fn from_ymd_opt(year: i32, month: u32, day: u32) -> (r: Option<CalendarDate>)
        ensures
            r is Some <==> spec_valid_ymd(year as int, month as int, day as int),
            r matches Some(d) ==> d@ == (year as int, month as int, day as int),
    {
        if chrono_date_exists(year, month, day) {
            Some(CalendarDate { year, month, day })
        } else {
            None
        }
    }

    pub fn year(&self) -> (y: i32)
        ensures
            y == self@.0,
    {
        self.year
    }

    pub fn month(&self) -> (m: u32)
        ensures
            m == self@.1,
    {
        self.month
    }

    pub fn day(&self) -> (d: u32)
        ensures
            d == self@.2,
    {
        self.day
    }

    /// The text of the date, as `date.to_string()` writes it.
    pub fn to_text(&self) -> (s: String)
        ensures
            s@ == self.spec_text(),
    {
        proof {
            use_type_invariant(self);
        }
        chrono_date_text(self.year, self.month, self.day)
    }
}

/// A moment in local time: a calendar date and the time of day.
#[derive(Debug, Clone, Copy, PartialEq, Eq, Structural)]
pub struct LocalDateTime {
    date: CalendarDate,
    hour: u32,
    minute: u32,
    second: u32,
}

impl LocalDateTime {
    #[verifier::type_invariant]
    spec fn valid(self) -> bool {
        self.hour < 24 && self.minute < 60 && self.second < 60
    }

    /// The moment on `date` at the given time of day, if that time exists.
    pub fn new(date: CalendarDate, hour: u32, minute: u32, second: u32) -> (r: Option<LocalDateTime>)
        ensures
            r is Some <==> (hour < 24 && minute < 60 && second < 60),
            r matches Some(t) ==> t.spec_date() == date && t.spec_time() == (hour, minute, second),
    {
        if hour < 24 && minute < 60 && second < 60 {
            Some(LocalDateTime { date, hour, minute, second })
        } else {
            None
        }
    }

    pub closed spec fn spec_date(self) -> CalendarDate {
        self.date
    }

    pub closed spec fn spec_time(self) -> (u32, u32, u32) {
        (self.hour, self.minute, self.second)
    }

    /// The calendar date of the moment.
    pub fn date_naive(&self) -> (d: CalendarDate)
        ensures
            d == self.spec_date(),
    {
        self.date
    }

    /// The hour, minute and second of the moment.
    pub fn time_of_day(&self) -> (t: (u32, u32, u32))
        ensures
            t == self.spec_time(),
            t.0 < 24 && t.1 < 60 && t.2 < 60,
    {
        proof {
            use_type_invariant(self);
        }
        (self.hour, self.minute, self.second)
    }
}

/// A source of the current local time.
pub trait CurrentLocalTime {
    fn now(&self) -> LocalDateTime;
}

} // verus!
