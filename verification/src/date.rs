//! Calendar dates of the proleptic Gregorian calendar, without a time of day.
//!
//! A [`Date`] is three plain numbers that always name a day that exists. The
//! calendar itself (which days exist, how a date is written, how a written date
//! is read) is `chrono`'s; this module states what it relies on.

use chrono::Datelike;
use chrono::NaiveDate;
use vstd::prelude::*;

verus! {

/// The earliest year a [`Date`] can lie in.
pub const MIN_YEAR: i32 = -262143;

/// The latest year a [`Date`] can lie in.
pub const MAX_YEAR: i32 = 262142;

/// Whether `year` has a 29th of February.
pub open spec fn is_leap_year(year: int) -> bool {
    year % 4 == 0 && (year % 100 != 0 || year % 400 == 0)
}

/// The number of days of `month` (1 to 12) in `year`.
pub open spec fn days_in_month(year: int, month: int) -> int {
    if month == 2 {
        if is_leap_year(year) {
            29
        } else {
            28
        }
    } else if month == 4 || month == 6 || month == 9 || month == 11 {
        30
    } else {
        31
    }
}

/// Whether the three numbers name a day that exists and that a [`Date`] can hold.
pub open spec fn is_calendar_date(year: int, month: int, day: int) -> bool {
    &&& MIN_YEAR <= year <= MAX_YEAR
    &&& 1 <= month <= 12
    &&& 1 <= day <= days_in_month(year, month)
}

/// The character that writes the digit `n` (0 to 9).
pub open spec fn digit(n: int) -> char {
    if n == 0 {
        '0'
    } else if n == 1 {
        '1'
    } else if n == 2 {
        '2'
    } else if n == 3 {
        '3'
    } else if n == 4 {
        '4'
    } else if n == 5 {
        '5'
    } else if n == 6 {
        '6'
    } else if n == 7 {
        '7'
    } else if n == 8 {
        '8'
    } else {
        '9'
    }
}

/// `n` (0 to 99) written with two digits.
pub open spec fn two_digits(n: int) -> Seq<char> {
    seq![digit(n / 10), digit(n % 10)]
}

/// `n` (0 to 9999) written with four digits.
pub open spec fn four_digits(n: int) -> Seq<char> {
    two_digits(n / 100) + two_digits(n % 100)
}

/// `n` (0 to 999999) written with at least four digits and no more than it needs.
pub open spec fn at_least_four_digits(n: int) -> Seq<char> {
    if n <= 9999 {
        four_digits(n)
    } else if n <= 99999 {
        seq![digit(n / 10000)] + four_digits(n % 10000)
    } else {
        two_digits(n / 10000) + four_digits(n % 10000)
    }
}

/// How a year is written: four digits from 0 to 9999, otherwise a sign and at
/// least four digits.
pub open spec fn year_text(year: int) -> Seq<char> {
    if 0 <= year <= 9999 {
        four_digits(year)
    } else if year < 0 {
        seq!['-'] + at_least_four_digits(-year)
    } else {
        seq!['+'] + at_least_four_digits(year)
    }
}

/// How a date is written: year, month and day, joined by hyphens.
pub open spec fn date_text(year: int, month: int, day: int) -> Seq<char> {
    year_text(year) + seq!['-'] + two_digits(month) + seq!['-'] + two_digits(day)
}

/// A calendar date. Every value names a day that exists.
#[derive(Clone, Copy, Debug, PartialEq, Eq, Structural)]
pub struct Date {
    year: i32,
    month: u32,
    day: u32,
}

/// The date that a text is read as, if it is read as one: the result of
/// `chrono`'s `FromStr` for `NaiveDate` on that text.
pub uninterp spec fn date_of_text(text: Seq<char>) -> Option<Date>;

impl Date {
    #[verifier::type_invariant]
    spec fn exists_in_calendar(self) -> bool {
        is_calendar_date(self.year as int, self.month as int, self.day as int)
    }

    /// The year of the date.
    pub closed spec fn spec_year(&self) -> i32 {
        self.year
    }

    /// The month of the date, 1 to 12.
    pub closed spec fn spec_month(&self) -> u32 {
        self.month
    }

    /// The day of the month, starting at 1.
    pub closed spec fn spec_day(&self) -> u32 {
        self.day
    }

    /// The date as it is written.
    pub open spec fn text(&self) -> Seq<char> {
        date_text(self.year() as int, self.month() as int, self.day() as int)
    }

    /// The date of the given day, if that day exists.
    pub fn from_ymd(year: i32, month: u32, day: u32) -> (made: Option<Date>)
        ensures
            made is Some <==> is_calendar_date(year as int, month as int, day as int),
            made matches Some(date) ==> date.year() == year && date.month() == month
                && date.day() == day,
    {
        calendar_date(year, month, day)
    }

    /// Reads a written date. Whatever `chrono` reads as a date is accepted.
    pub fn parse(text: &str) -> (read: Option<Date>)
        ensures
            read == date_of_text(text@),
    {
        read_calendar_date(text)
    }

    #[verifier::when_used_as_spec(spec_year)]
    pub fn year(&self) -> (y: i32)
        ensures
            y == self.year(),
            MIN_YEAR <= y <= MAX_YEAR,
    {
        proof {
            use_type_invariant(self);
        }
        self.year
    }

    #[verifier::when_used_as_spec(spec_month)]
    pub fn month(&self) -> (m: u32)
        ensures
            m == self.month(),
            1 <= m <= 12,
    {
        proof {
            use_type_invariant(self);
        }
        self.month
    }

    #[verifier::when_used_as_spec(spec_day)]
    pub fn day(&self) -> (d: u32)
        ensures
            d == self.day(),
            1 <= d <= days_in_month(self.year() as int, self.month() as int),
    {
        proof {
            use_type_invariant(self);
        }
        self.day
    }

    /// Writes the date: `2024-03-01`.
    pub fn to_text(&self) -> (written: String)
        ensures
            written@ == self.text(),
    {
        proof {
            use_type_invariant(self);
        }
        write_calendar_date(self.year, self.month, self.day)
    }
}

/// Calls `chrono::NaiveDate::from_ymd_opt` and reads the result back with `Datelike`'s
/// `year`, `month` and `day`. Claimed: the call gives a date exactly for the days that
/// exist between the years `MIN_YEAR` and `MAX_YEAR`, and that date has the numbers
/// that were asked for.
#[verifier::external_body]
fn calendar_date(year: i32, month: u32, day: u32) -> (found: Option<Date>)
    ensures
        found is Some <==> is_calendar_date(year as int, month as int, day as int),
        found matches Some(date) ==> date.year() == year && date.month() == month
            && date.day() == day,
{
    NaiveDate::from_ymd_opt(year, month, day).map(
        |d| Date { year: d.year(), month: d.month(), day: d.day() },
    )
}

/// Calls the `Display` of `chrono::NaiveDate` (through `to_string`) on the date made of
/// the three numbers. Claimed: the result is the year, the month in two digits and the
/// day in two digits, joined by hyphens, where the year has four digits from 0 to 9999
/// and otherwise a sign followed by at least four digits.
#[verifier::external_body]
fn write_calendar_date(year: i32, month: u32, day: u32) -> (written: String)
    requires
        is_calendar_date(year as int, month as int, day as int),
    ensures
        written@ == date_text(year as int, month as int, day as int),
{
    NaiveDate::from_ymd_opt(year, month, day).unwrap().to_string()
}

/// Calls the `FromStr` of `chrono::NaiveDate` (through `str::parse`) and reads the
/// result back with `Datelike`'s `year`, `month` and `day`. Claimed: only that the
/// result depends on the text alone; `date_of_text` is its name.
#[verifier::external_body]
fn read_calendar_date(text: &str) -> (read: Option<Date>)
    ensures
        read == date_of_text(text@),
{
    text.parse::<NaiveDate>().ok().map(
        |d| Date { year: d.year(), month: d.month(), day: d.day() },
    )
}

} // verus!
