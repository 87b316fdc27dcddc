//! A calendar date held as plain year/month/day values, with a proved
//! validity invariant (month in range, day within the month's length,
//! February 29 only in leap years). Expiration dates of futures and options
//! are stored in this form; callers that need a richer date library convert
//! at the boundary.

use vstd::prelude::*;

verus! {

/// A calendar date in the proleptic Gregorian calendar.
#[derive(Debug, Clone, Copy, PartialEq, Eq, PartialOrd, Ord, Hash, Structural)]
pub struct Date {
    pub year: i32,
    pub month: u8,
    pub day: u8,
}

/// A Gregorian leap year: divisible by 4, except centuries not divisible
/// by 400.
pub open spec fn spec_is_leap_year(year: int) -> bool {
    (year % 4 == 0 && year % 100 != 0) || year % 400 == 0
}

/// The number of days in the given month of the given year.
pub open spec fn spec_days_in_month(year: int, month: int) -> int {
    if month == 2 {
        if spec_is_leap_year(year) {
            29
        } else {
            28
        }
    } else if month == 4 || month == 6 || month == 9 || month == 11 {
        30
    } else {
        31
    }
}

/// A well-formed date of the common era: year at least 1, month in 1..=12
/// and day within the month's length.
pub open spec fn spec_valid_date(year: int, month: int, day: int) -> bool {
    &&& 1 <= year
    &&& 1 <= month <= 12
    &&& 1 <= day <= spec_days_in_month(year, month)
}

impl Date {
    /// The date's validity invariant.
    pub open spec fn valid(&self) -> bool {
        spec_valid_date(self.year as int, self.month as int, self.day as int)
    }

    /// Whether `year` is a Gregorian leap year.
    pub fn is_leap_year(year: i32) -> (r: bool)
        requires
            1 <= year,
        ensures
            r == spec_is_leap_year(year as int),
    {
        (year % 4 == 0 && year % 100 != 0) || year % 400 == 0
    }

    /// The number of days in `month` of `year`.
    pub fn days_in_month(year: i32, month: u8) -> (r: u8)
        requires
            1 <= year,
            1 <= month <= 12,
        ensures
            r as int == spec_days_in_month(year as int, month as int),
    {
        if month == 2 {
            if Self::is_leap_year(year) {
                29
            } else {
                28
            }
        } else if month == 4 || month == 6 || month == 9 || month == 11 {
            30
        } else {
            31
        }
    }

    /// Build a date, accepting exactly the well-formed year/month/day
    /// combinations.
    pub fn new(year: i32, month: u8, day: u8) -> (r: Option<Date>)
        ensures
            spec_valid_date(year as int, month as int, day as int) ==> (r == Some(
                Date { year, month, day },
            )),
            !spec_valid_date(year as int, month as int, day as int) ==> r is None,
            r matches Some(d) ==> d.valid(),
    {
        if 1 <= year && 1 <= month && month <= 12 && 1 <= day && day <= Self::days_in_month(
            year,
            month,
        ) {
            Some(Date { year, month, day })
        } else {
            None
        }
    }
}

} // verus!
