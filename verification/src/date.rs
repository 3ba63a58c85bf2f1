//! A plain proleptic-Gregorian calendar date, with the arithmetic the rest of
//! the engine needs: day-of-week, weekend test, and a day number from which
//! elapsed-day differences are taken.

use vstd::prelude::*;

verus! {

use vstd::arithmetic::div_mod::{lemma_div_basics_5, lemma_div_is_ordered_by_denominator};

/// A calendar date, held as plain year / month / day values.
///
/// The engine covers years 1 through 9999 of the proleptic Gregorian
/// calendar; `valid` is the invariant that every operation expects.
#[derive(Clone, Copy, PartialEq, Eq, Structural, Debug)]
pub struct Date {
    pub year: i32,
    pub month: u8,
    pub day: u8,
}

/// A day of the week.
#[derive(Clone, Copy, PartialEq, Eq, Structural, Debug)]
pub enum Weekday {
    Monday,
    Tuesday,
    Wednesday,
    Thursday,
    Friday,
    Saturday,
    Sunday,
}

/// A time of day with microsecond resolution, held as plain values.
#[derive(Clone, Copy, PartialEq, Eq, Structural, Debug)]
pub struct TimeOfDay {
    pub hour: u8,
    pub minute: u8,
    pub second: u8,
    pub microsecond: u32,
}

impl TimeOfDay {
    pub open spec fn valid(self) -> bool {
        self.hour < 24 && self.minute < 60 && self.second < 60 && self.microsecond < 1000000
    }
}

pub open spec fn spec_is_leap_year(year: int) -> bool {
    (year % 4 == 0 && year % 100 != 0) || year % 400 == 0
}

pub open spec fn spec_days_in_month(year: int, month: int) -> int {
    if month == 2 {
        if spec_is_leap_year(year) {
            29
        } else {
            28
        }
    } else if month == 4 || month == 6 || month == 9 || month == 11 {
        30
    } else {
        31
    }
}

/// Days of `year` that precede the first day of `month`.
pub open spec fn spec_days_before_month(year: int, month: int) -> int {
    let common: int = if month == 1 {
        0
    } else if month == 2 {
        31
    } else if month == 3 {
        59
    } else if month == 4 {
        90
    } else if month == 5 {
        120
    } else if month == 6 {
        151
    } else if month == 7 {
        181
    } else if month == 8 {
        212
    } else if month == 9 {
        243
    } else if month == 10 {
        273
    } else if month == 11 {
        304
    } else {
        334
    };
    if month > 2 && spec_is_leap_year(year) {
        common + 1
    } else {
        common
    }
}

impl Date {
    pub open spec fn valid(self) -> bool {
        &&& 1 <= self.year <= 9999
        &&& 1 <= self.month <= 12
        &&& 1 <= self.day <= spec_days_in_month(self.year as int, self.month as int)
    }

    /// Position of this date in the calendar: year 1, January 1 is day 1,
    /// and consecutive dates have consecutive day numbers.
    pub open spec fn day_number(self) -> int {
        let y = self.year - 1;
        365 * y + y / 4 - y / 100 + y / 400 + spec_days_before_month(
            self.year as int,
            self.month as int,
        ) + self.day
    }

    pub open spec fn spec_weekday(self) -> Weekday {
        weekday_from_day_number(self.day_number())
    }

    pub open spec fn spec_is_weekend(self) -> bool {
        self.spec_weekday() == Weekday::Saturday || self.spec_weekday() == Weekday::Sunday
    }

    /// Builds a date after checking that the year, month and day form a real
    /// calendar date inside the supported window; rejects anything else.
    pub fn from_ymd(year: i32, month: u8, day: u8) -> (r: Option<Date>)
        ensures
            r == (if (Date { year, month, day }).valid() {
                Some(Date { year, month, day })
            } else {
                None::<Date>
            }),
    {
        if year < 1 || year > 9999 || month < 1 || month > 12 {
            return None;
        }
        let dim = days_in_month(year, month);
        if day < 1 || day > dim {
            return None;
        }
        Some(Date { year, month, day })
    }

    pub fn is_valid(&self) -> (r: bool)
        ensures
            r == self.valid(),
    {
        if self.year < 1 || self.year > 9999 || self.month < 1 || self.month > 12 {
            false
        } else {
            1 <= self.day && self.day <= days_in_month(self.year, self.month)
        }
    }

    /// The day number as an executable value.
    pub fn to_day_number(&self) -> (n: i64)
        requires
            self.valid(),
        ensures
            n == self.day_number(),
            1 <= n,
    {
        let y: u64 = (self.year - 1) as u64;
        proof {
            lemma_div_is_ordered_by_denominator(y as int, 4, 100);
            lemma_div_basics_5(y as int, 4);
            lemma_div_basics_5(y as int, 400);
        }
        let leap_days: u64 = y / 4 + y / 400 - y / 100;
        let before_month: u64 = days_before_month(self.year, self.month);
        let n: u64 = 365 * y + leap_days + before_month + self.day as u64;
        n as i64
    }

    pub fn weekday(&self) -> (r: Weekday)
        requires
            self.valid(),
        ensures
            r == self.spec_weekday(),
    {
        let n = self.to_day_number();
        let i = (n - 1) % 7;
        if i == 0 {
            Weekday::Monday
        } else if i == 1 {
            Weekday::Tuesday
        } else if i == 2 {
            Weekday::Wednesday
        } else if i == 3 {
            Weekday::Thursday
        } else if i == 4 {
            Weekday::Friday
        } else if i == 5 {
            Weekday::Saturday
        } else {
            Weekday::Sunday
        }
    }

    /// True exactly on Saturdays and Sundays.
    pub fn is_weekend(&self) -> (r: bool)
        requires
            self.valid(),
        ensures
            r == self.spec_is_weekend(),
    {
        match self.weekday() {
            Weekday::Saturday => true,
            Weekday::Sunday => true,
            _ => false,
        }
    }
}

pub open spec fn weekday_from_day_number(n: int) -> Weekday {
    let i = (n - 1) % 7;
    if i == 0 {
        Weekday::Monday
    } else if i == 1 {
        Weekday::Tuesday
    } else if i == 2 {
        Weekday::Wednesday
    } else if i == 3 {
        Weekday::Thursday
    } else if i == 4 {
        Weekday::Friday
    } else if i == 5 {
        Weekday::Saturday
    } else {
        Weekday::Sunday
    }
}

pub fn is_leap_year(year: i32) -> (r: bool)
    requires
        year >= 1,
    ensures
        r == spec_is_leap_year(year as int),
{
    (year % 4 == 0 && year % 100 != 0) || year % 400 == 0
}

pub fn days_in_month(year: i32, month: u8) -> (r: u8)
    requires
        year >= 1,
        1 <= month <= 12,
    ensures
        r == spec_days_in_month(year as int, month as int),
{
    if month == 2 {
        if is_leap_year(year) {
            29
        } else {
            28
        }
    } else if month == 4 || month == 6 || month == 9 || month == 11 {
        30
    } else {
        31
    }
}

fn days_before_month(year: i32, month: u8) -> (r: u64)
    requires
        year >= 1,
        1 <= month <= 12,
    ensures
        r == spec_days_before_month(year as int, month as int),
{
    let common: u64 = if month == 1 {
        0
    } else if month == 2 {
        31
    } else if month == 3 {
        59
    } else if month == 4 {
        90
    } else if month == 5 {
        120
    } else if month == 6 {
        151
    } else if month == 7 {
        181
    } else if month == 8 {
        212
    } else if month == 9 {
        243
    } else if month == 10 {
        273
    } else if month == 11 {
        304
    } else {
        334
    };
    if month > 2 && is_leap_year(year) {
        common + 1
    } else {
        common
    }
}

} // verus!

