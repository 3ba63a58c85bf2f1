//! Holidays in Taiwan.
//!
//! Weekends are never business days; on top of that a fixed set of annual
//! holidays and, for each year from 2002 through 2023, a hand-curated table
//! of that year's lunar-calendar holidays and make-up adjustments apply.
//! Dates outside the curated window fall back to the weekend-only rule: a
//! known coverage gap, deliberately left as it is.

use vstd::prelude::*;

verus! {

use crate::calendars::weekendsonly::WeekendsOnly;
use crate::calendars::Calendar;
use crate::date::Date;

/// The Taiwanese trading calendar.
#[derive(Clone, Copy, PartialEq, Eq, Structural, Debug, Default)]
pub struct Taiwan;

/// Holidays observed on the same month and day every year:
/// New Year's Day, Peace Memorial Day, Labor Day and Double Tenth Day.
pub open spec fn spec_fixed_holiday(m: int, d: int) -> bool {
    ||| (d == 1 && m == 1)
    ||| (d == 28 && m == 2)
    ||| (d == 1 && m == 5)
    ||| (d == 10 && m == 10)
}

/// The year-specific table: lunar-calendar holidays and one-off adjustments
/// for each curated year; `false` for every year outside the window.
pub open spec fn spec_year_holiday(y: int, m: int, d: int) -> bool {

    if y == 2002 {
        spec_holiday_rules_2002(m, d)
    } else if y == 2003 {
        spec_holiday_rules_2003(m, d)
    } else if y == 2004 {
        spec_holiday_rules_2004(m, d)
    } else if y == 2005 {
        spec_holiday_rules_2005(m, d)
    } else if y == 2006 {
        spec_holiday_rules_2006(m, d)
    } else if y == 2007 {
        spec_holiday_rules_2007(m, d)
    } else if y == 2008 {
        spec_holiday_rules_2008(m, d)
    } else if y == 2009 {
        spec_holiday_rules_2009(m, d)
    } else if y == 2010 {
        spec_holiday_rules_2010(m, d)
    } else if y == 2011 {
        spec_holiday_rules_2011(m, d)
    } else if y == 2012 {
        spec_holiday_rules_2012(m, d)
    } else if y == 2013 {
        spec_holiday_rules_2013(m, d)
    } else if y == 2014 {
        spec_holiday_rules_2014(m, d)
    } else if y == 2015 {
        spec_holiday_rules_2015(m, d)
    } else if y == 2016 {
        spec_holiday_rules_2016(m, d)
    } else if y == 2017 {
        spec_holiday_rules_2017(m, d)
    } else if y == 2018 {
        spec_holiday_rules_2018(m, d)
    } else if y == 2019 {
        spec_holiday_rules_2019(m, d)
    } else if y == 2020 {
        spec_holiday_rules_2020(m, d)
    } else if y == 2021 {
        spec_holiday_rules_2021(m, d)
    } else if y == 2022 {
        spec_holiday_rules_2022(m, d)
    } else if y == 2023 {
        spec_holiday_rules_2023(m, d)
    } else {
        false
    }
}

/// A date is a Taiwanese holiday when a fixed annual holiday or a clause of
/// its year's table matches it.
pub open spec fn spec_taiwan_holiday(y: int, m: int, d: int) -> bool {
    spec_fixed_holiday(m, d) || spec_year_holiday(y, m, d)
}

pub open spec fn spec_holiday_rules_2002(m: int, d: int) -> bool {
    // Lunar New Year
    (9 <= d && d <= 17 && m == 2)
    // Tomb Sweeping Day
    || (d == 5 && m == 4)
}

pub open spec fn spec_holiday_rules_2003(m: int, d: int) -> bool {
    // Lunar New Year, end of January
    (d >= 31 && m == 1)
    // Lunar New Year, start of February
    || (d <= 5 && m == 2)
    // Dragon Boat Festival
    || (d == 4 && m == 6)
    // Moon Festival
    || (d == 11 && m == 9)
}

pub open spec fn spec_holiday_rules_2004(m: int, d: int) -> bool {
    // Lunar New Year
    (21 <= d && d <= 26 && m == 1)
    // Dragon Boat Festival
    || (d == 22 && m == 6)
    // Moon Festival
    || (d == 28 && m == 9)
}

pub open spec fn spec_holiday_rules_2005(m: int, d: int) -> bool {
    // Lunar New Year
    (6 <= d && d <= 13 && m == 2)
    // Tomb Sweeping Day
    || (d == 5 && m == 4)
    // Labor Day, made up
    || (d == 2 && m == 5)
}

pub open spec fn spec_holiday_rules_2006(m: int, d: int) -> bool {
    // Lunar New Year, end of January
    (d >= 28 && m == 1)
    // Lunar New Year, start of February
    || (d <= 5 && m == 2)
    // Tomb Sweeping Day
    || (d == 5 && m == 4)
    // Dragon Boat Festival
    || (d == 31 && m == 5)
    // Moon Festival
    || (d == 6 && m == 10)
}

pub open spec fn spec_holiday_rules_2007(m: int, d: int) -> bool {
    // Lunar New Year
    (17 <= d && d <= 25 && m == 2)
    // Tomb Sweeping Day
    || (d == 5 && m == 4)
    // adjusted holiday
    || (d == 6 && m == 4)
    // adjusted holiday
    || (d == 18 && m == 6)
    // Dragon Boat Festival
    || (d == 19 && m == 6)
    // adjusted holiday
    || (d == 24 && m == 9)
    // Moon Festival
    || (d == 25 && m == 9)
}

pub open spec fn spec_holiday_rules_2008(m: int, d: int) -> bool {
    // Lunar New Year
    (4 <= d && d <= 11 && m == 2)
    // Tomb Sweeping Day
    || (d == 4 && m == 4)
}

pub open spec fn spec_holiday_rules_2009(m: int, d: int) -> bool {
    // adjusted holiday
    (d == 2 && m == 1)
    // Lunar New Year
    || (d >= 24 && m == 1)
    // Tomb Sweeping Day
    || (d == 4 && m == 4)
    // Dragon Boat Festival
    || ((d == 28 || d == 29) && m == 5)
    // Moon Festival
    || (d == 3 && m == 10)
}

pub open spec fn spec_holiday_rules_2010(m: int, d: int) -> bool {
    // Lunar New Year
    (13 <= d && d <= 21 && m == 1)
    // Tomb Sweeping Day
    || (d == 5 && m == 4)
    // Dragon Boat Festival
    || (d == 16 && m == 5)
    // Moon Festival
    || (d == 22 && m == 9)
}

pub open spec fn spec_holiday_rules_2011(m: int, d: int) -> bool {
    // Spring Festival
    (2 <= d && d <= 7 && m == 2)
    // Children's Day
    || (d == 4 && m == 4)
    // Tomb Sweeping Day
    || (d == 5 && m == 4)
    // Labour Day, made up
    || (d == 2 && m == 5)
    // Dragon Boat Festival
    || (d == 6 && m == 6)
    // Mid-Autumn Festival
    || (d == 12 && m == 9)
}

pub open spec fn spec_holiday_rules_2012(m: int, d: int) -> bool {
    // Spring Festival
    (23 <= d && d <= 27 && m == 1)
    // Peace Memorial Day, made up
    || (d == 27 && m == 2)
    // Children's Day and Tomb Sweeping Day
    || (d == 4 && m == 4)
    // Labour Day
    || (d == 1 && m == 5)
    // Dragon Boat Festival
    || (d == 23 && m == 6)
    // Mid-Autumn Festival
    || (d == 30 && m == 9)
    // Founding of the Republic of China, memorial
    || (d == 31 && m == 12)
}

pub open spec fn spec_holiday_rules_2013(m: int, d: int) -> bool {
    // Spring Festival
    (10 <= d && d <= 15 && m == 2)
    // Children's Day
    || (d == 4 && m == 4)
    // Tomb Sweeping Day
    || (d == 5 && m == 4)
    // Labour Day
    || (d == 1 && m == 5)
    // Dragon Boat Festival
    || (d == 12 && m == 6)
    // Mid-Autumn Festival
    || (19 <= d && d <= 20 && m == 9)
}

pub open spec fn spec_holiday_rules_2014(m: int, d: int) -> bool {
    // Lunar New Year
    (28 <= d && d <= 30 && m == 1)
    // Spring Festival, end of January
    || (d == 31 && m == 1)
    // Spring Festival, start of February
    || (d <= 4 && m == 2)
    // Children's Day
    || (d == 4 && m == 4)
    // Tomb Sweeping Day
    || (d == 5 && m == 4)
    // Dragon Boat Festival
    || (d == 2 && m == 6)
    // Mid-Autumn Festival
    || (d == 8 && m == 9)
}

pub open spec fn spec_holiday_rules_2015(m: int, d: int) -> bool {
    // adjusted holiday
    (d == 2 && m == 1)
    // Lunar New Year
    || (18 <= d && d <= 23 && m == 2)
    // adjusted holiday
    || (d == 27 && m == 2)
    // adjusted holiday
    || (d == 3 && m == 4)
    // adjusted holiday
    || (d == 6 && m == 4)
    // adjusted holiday
    || (d == 19 && m == 6)
    // adjusted holiday
    || (d == 28 && m == 9)
    // adjusted holiday
    || (d == 9 && m == 10)
}

pub open spec fn spec_holiday_rules_2016(m: int, d: int) -> bool {
    // Lunar New Year
    (8 <= d && d <= 12 && m == 2)
    // adjusted holiday
    || (d == 29 && m == 2)
    // Children's Day
    || (d == 4 && m == 4)
    // adjusted holiday
    || (d == 5 && m == 4)
    // adjusted holiday
    || (d == 2 && m == 5)
    // Dragon Boat Festival
    || (d == 9 && m == 6)
    // adjusted holiday
    || (d == 10 && m == 6)
    // Mid-Autumn Festival
    || (d == 15 && m == 9)
    // adjusted holiday
    || (d == 16 && m == 9)
}

pub open spec fn spec_holiday_rules_2017(m: int, d: int) -> bool {
    // adjusted holiday
    (d == 2 && m == 1)
    // Lunar New Year, end of January
    || (d >= 27 && m == 1)
    // Lunar New Year, start of February
    || (d == 1 && m == 2)
    // adjusted holiday
    || (d == 27 && m == 2)
    // adjusted holiday
    || (d == 3 && m == 4)
    // Children's Day
    || (d == 4 && m == 4)
    // adjusted holiday
    || (d == 29 && m == 5)
    // Dragon Boat Festival
    || (d == 30 && m == 5)
    // Mid-Autumn Festival
    || (d == 4 && m == 10)
    // adjusted holiday
    || (d == 9 && m == 10)
}

pub open spec fn spec_holiday_rules_2018(m: int, d: int) -> bool {
    // Lunar New Year
    (15 <= d && d <= 20 && m == 2)
    // Children's Day
    || (d == 4 && m == 4)
    // Tomb Sweeping Day
    || (d == 5 && m == 4)
    // adjusted holiday
    || (d == 6 && m == 4)
    // Dragon Boat Festival
    || (d == 18 && m == 6)
    // Mid-Autumn Festival
    || (d == 24 && m == 9)
    // adjusted holiday
    || (d == 31 && m == 12)
}

pub open spec fn spec_holiday_rules_2019(m: int, d: int) -> bool {
    // Lunar New Year
    (4 <= d && d <= 8 && m == 2)
    // adjusted holiday
    || (d == 1 && m == 3)
    // Children's Day
    || (d == 4 && m == 4)
    // Tomb Sweeping Day
    || (d == 5 && m == 4)
    // Dragon Boat Festival
    || (d == 7 && m == 6)
    // Mid-Autumn Festival
    || (d == 13 && m == 9)
    // adjusted holiday
    || (d == 11 && m == 10)
}

pub open spec fn spec_holiday_rules_2020(m: int, d: int) -> bool {
    // adjusted holiday
    (d == 23 && m == 1)
    // Lunar New Year
    || (24 <= d && d <= 29 && m == 1)
    // adjusted holiday
    || (d == 2 && m == 4)
    // adjusted holiday
    || (d == 3 && m == 4)
    // Dragon Boat Festival
    || (d == 25 && m == 6)
    // adjusted holiday
    || (d == 26 && m == 6)
    // Mid-Autumn Festival
    || (d == 1 && m == 10)
    // adjusted holiday
    || (d == 2 && m == 10)
    // adjusted holiday
    || (d == 9 && m == 10)
}

pub open spec fn spec_holiday_rules_2021(m: int, d: int) -> bool {
    // adjusted holiday
    (d == 10 && m == 2)
    // Lunar New Year
    || (11 <= d && d <= 16 && m == 2)
    // adjusted holiday
    || (d == 1 && m == 3)
    // Children's Day
    || (d == 2 && m == 4)
    // adjusted holiday
    || (d == 5 && m == 4)
    // adjusted holiday
    || (d == 30 && m == 4)
    // Dragon Boat Festival
    || (d == 14 && m == 6)
    // adjusted holiday
    || (d == 20 && m == 9)
    // Mid-Autumn Festival
    || (d == 21 && m == 9)
    // adjusted holiday
    || (d == 11 && m == 10)
    // adjusted holiday
    || (d == 31 && m == 12)
}

pub open spec fn spec_holiday_rules_2022(m: int, d: int) -> bool {
    // Lunar New Year, end of January
    (d == 31 && m == 1)
    // Lunar New Year, start of February
    || (d <= 4 && m == 2)
    // Children's Day
    || (d == 4 && m == 4)
    // Tomb Sweeping Day
    || (d == 5 && m == 4)
    // adjusted holiday
    || (d == 2 && m == 5)
    // Dragon Boat Festival
    || (d == 3 && m == 6)
    // adjusted holiday
    || (d == 9 && m == 9)
}

pub open spec fn spec_holiday_rules_2023(m: int, d: int) -> bool {
    // adjusted holiday
    (d == 2 && m == 1)
    // adjusted holiday
    || (d == 20 && m == 1)
    // Lunar New Year
    || (21 <= d && d <= 24 && m == 1)
    // adjusted holiday
    || (25 <= d && d <= 27 && m == 1)
    // adjusted holiday
    || (d == 27 && m == 2)
    // adjusted holiday
    || (d == 3 && m == 4)
    // Children's Day
    || (d == 4 && m == 4)
    // Tomb Sweeping Day
    || (d == 5 && m == 4)
    // Dragon Boat Festival
    || (d == 22 && m == 6)
    // adjusted holiday
    || (d == 23 && m == 6)
    // Mid-Autumn Festival
    || (d == 29 && m == 9)
    // adjusted holiday
    || (d == 9 && m == 10)
}

impl Calendar for Taiwan {
    /// A business day in Taiwan: a weekday that no holiday rule matches.
    open spec fn spec_is_business_day(&self, date: Date) -> bool {
        !date.spec_is_weekend() && !spec_taiwan_holiday(
            date.year as int,
            date.month as int,
            date.day as int,
        )
    }

    fn is_business_day(&self, date: Date) -> (r: bool) {
        if date.is_weekend() {
            return false;
        }
        !taiwan_holiday(date.year, date.month, date.day)
    }
}

/// Whether any holiday rule, fixed or year-specific, matches the given
/// year, month and day.
pub fn taiwan_holiday(y: i32, m: u8, d: u8) -> (r: bool)
    ensures
        r == spec_taiwan_holiday(y as int, m as int, d as int),
{
    fixed_holiday(m, d) || year_holiday(y, m, d)
}

fn fixed_holiday(m: u8, d: u8) -> (r: bool)
    ensures
        r == spec_fixed_holiday(m as int, d as int),
{
    (d == 1 && m == 1) || (d == 28 && m == 2) || (d == 1 && m == 5) || (d == 10 && m == 10)
}

fn year_holiday(y: i32, m: u8, d: u8) -> (r: bool)
    ensures
        r == spec_year_holiday(y as int, m as int, d as int),
{
    if y == 2002 {
        holiday_rules_2002(m, d)
    } else if y == 2003 {
        holiday_rules_2003(m, d)
    } else if y == 2004 {
        holiday_rules_2004(m, d)
    } else if y == 2005 {
        holiday_rules_2005(m, d)
    } else if y == 2006 {
        holiday_rules_2006(m, d)
    } else if y == 2007 {
        holiday_rules_2007(m, d)
    } else if y == 2008 {
        holiday_rules_2008(m, d)
    } else if y == 2009 {
        holiday_rules_2009(m, d)
    } else if y == 2010 {
        holiday_rules_2010(m, d)
    } else if y == 2011 {
        holiday_rules_2011(m, d)
    } else if y == 2012 {
        holiday_rules_2012(m, d)
    } else if y == 2013 {
        holiday_rules_2013(m, d)
    } else if y == 2014 {
        holiday_rules_2014(m, d)
    } else if y == 2015 {
        holiday_rules_2015(m, d)
    } else if y == 2016 {
        holiday_rules_2016(m, d)
    } else if y == 2017 {
        holiday_rules_2017(m, d)
    } else if y == 2018 {
        holiday_rules_2018(m, d)
    } else if y == 2019 {
        holiday_rules_2019(m, d)
    } else if y == 2020 {
        holiday_rules_2020(m, d)
    } else if y == 2021 {
        holiday_rules_2021(m, d)
    } else if y == 2022 {
        holiday_rules_2022(m, d)
    } else if y == 2023 {
        holiday_rules_2023(m, d)
    } else {
        false
    }
}

fn holiday_rules_2002(m: u8, d: u8) -> (r: bool)
    ensures
        r == spec_holiday_rules_2002(m as int, d as int),
{
    // Lunar New Year
    (9 <= d && d <= 17 && m == 2)
    // Tomb Sweeping Day
    || (d == 5 && m == 4)
}

fn holiday_rules_2003(m: u8, d: u8) -> (r: bool)
    ensures
        r == spec_holiday_rules_2003(m as int, d as int),
{
    // Lunar New Year, end of January
    (d >= 31 && m == 1)
    // Lunar New Year, start of February
    || (d <= 5 && m == 2)
    // Dragon Boat Festival
    || (d == 4 && m == 6)
    // Moon Festival
    || (d == 11 && m == 9)
}

fn holiday_rules_2004(m: u8, d: u8) -> (r: bool)
    ensures
        r == spec_holiday_rules_2004(m as int, d as int),
{
    // Lunar New Year
    (21 <= d && d <= 26 && m == 1)
    // Dragon Boat Festival
    || (d == 22 && m == 6)
    // Moon Festival
    || (d == 28 && m == 9)
}

fn holiday_rules_2005(m: u8, d: u8) -> (r: bool)
    ensures
        r == spec_holiday_rules_2005(m as int, d as int),
{
    // Lunar New Year
    (6 <= d && d <= 13 && m == 2)
    // Tomb Sweeping Day
    || (d == 5 && m == 4)
    // Labor Day, made up
    || (d == 2 && m == 5)
}

fn holiday_rules_2006(m: u8, d: u8) -> (r: bool)
    ensures
        r == spec_holiday_rules_2006(m as int, d as int),
{
    // Lunar New Year, end of January
    (d >= 28 && m == 1)
    // Lunar New Year, start of February
    || (d <= 5 && m == 2)
    // Tomb Sweeping Day
    || (d == 5 && m == 4)
    // Dragon Boat Festival
    || (d == 31 && m == 5)
    // Moon Festival
    || (d == 6 && m == 10)
}

fn holiday_rules_2007(m: u8, d: u8) -> (r: bool)
    ensures
        r == spec_holiday_rules_2007(m as int, d as int),
{
    // Lunar New Year
    (17 <= d && d <= 25 && m == 2)
    // Tomb Sweeping Day
    || (d == 5 && m == 4)
    // adjusted holiday
    || (d == 6 && m == 4)
    // adjusted holiday
    || (d == 18 && m == 6)
    // Dragon Boat Festival
    || (d == 19 && m == 6)
    // adjusted holiday
    || (d == 24 && m == 9)
    // Moon Festival
    || (d == 25 && m == 9)
}

fn holiday_rules_2008(m: u8, d: u8) -> (r: bool)
    ensures
        r == spec_holiday_rules_2008(m as int, d as int),
{
    // Lunar New Year
    (4 <= d && d <= 11 && m == 2)
    // Tomb Sweeping Day
    || (d == 4 && m == 4)
}

fn holiday_rules_2009(m: u8, d: u8) -> (r: bool)
    ensures
        r == spec_holiday_rules_2009(m as int, d as int),
{
    // adjusted holiday
    (d == 2 && m == 1)
    // Lunar New Year
    || (d >= 24 && m == 1)
    // Tomb Sweeping Day
    || (d == 4 && m == 4)
    // Dragon Boat Festival
    || ((d == 28 || d == 29) && m == 5)
    // Moon Festival
    || (d == 3 && m == 10)
}

fn holiday_rules_2010(m: u8, d: u8) -> (r: bool)
    ensures
        r == spec_holiday_rules_2010(m as int, d as int),
{
    // Lunar New Year
    (13 <= d && d <= 21 && m == 1)
    // Tomb Sweeping Day
    || (d == 5 && m == 4)
    // Dragon Boat Festival
    || (d == 16 && m == 5)
    // Moon Festival
    || (d == 22 && m == 9)
}

fn holiday_rules_2011(m: u8, d: u8) -> (r: bool)
    ensures
        r == spec_holiday_rules_2011(m as int, d as int),
{
    // Spring Festival
    (2 <= d && d <= 7 && m == 2)
    // Children's Day
    || (d == 4 && m == 4)
    // Tomb Sweeping Day
    || (d == 5 && m == 4)
    // Labour Day, made up
    || (d == 2 && m == 5)
    // Dragon Boat Festival
    || (d == 6 && m == 6)
    // Mid-Autumn Festival
    || (d == 12 && m == 9)
}

fn holiday_rules_2012(m: u8, d: u8) -> (r: bool)
    ensures
        r == spec_holiday_rules_2012(m as int, d as int),
{
    // Spring Festival
    (23 <= d && d <= 27 && m == 1)
    // Peace Memorial Day, made up
    || (d == 27 && m == 2)
    // Children's Day and Tomb Sweeping Day
    || (d == 4 && m == 4)
    // Labour Day
    || (d == 1 && m == 5)
    // Dragon Boat Festival
    || (d == 23 && m == 6)
    // Mid-Autumn Festival
    || (d == 30 && m == 9)
    // Founding of the Republic of China, memorial
    || (d == 31 && m == 12)
}

fn holiday_rules_2013(m: u8, d: u8) -> (r: bool)
    ensures
        r == spec_holiday_rules_2013(m as int, d as int),
{
    // Spring Festival
    (10 <= d && d <= 15 && m == 2)
    // Children's Day
    || (d == 4 && m == 4)
    // Tomb Sweeping Day
    || (d == 5 && m == 4)
    // Labour Day
    || (d == 1 && m == 5)
    // Dragon Boat Festival
    || (d == 12 && m == 6)
    // Mid-Autumn Festival
    || (19 <= d && d <= 20 && m == 9)
}

fn holiday_rules_2014(m: u8, d: u8) -> (r: bool)
    ensures
        r == spec_holiday_rules_2014(m as int, d as int),
{
    // Lunar New Year
    (28 <= d && d <= 30 && m == 1)
    // Spring Festival, end of January
    || (d == 31 && m == 1)
    // Spring Festival, start of February
    || (d <= 4 && m == 2)
    // Children's Day
    || (d == 4 && m == 4)
    // Tomb Sweeping Day
    || (d == 5 && m == 4)
    // Dragon Boat Festival
    || (d == 2 && m == 6)
    // Mid-Autumn Festival
    || (d == 8 && m == 9)
}

fn holiday_rules_2015(m: u8, d: u8) -> (r: bool)
    ensures
        r == spec_holiday_rules_2015(m as int, d as int),
{
    // adjusted holiday
    (d == 2 && m == 1)
    // Lunar New Year
    || (18 <= d && d <= 23 && m == 2)
    // adjusted holiday
    || (d == 27 && m == 2)
    // adjusted holiday
    || (d == 3 && m == 4)
    // adjusted holiday
    || (d == 6 && m == 4)
    // adjusted holiday
    || (d == 19 && m == 6)
    // adjusted holiday
    || (d == 28 && m == 9)
    // adjusted holiday
    || (d == 9 && m == 10)
}

fn holiday_rules_2016(m: u8, d: u8) -> (r: bool)
    ensures
        r == spec_holiday_rules_2016(m as int, d as int),
{
    // Lunar New Year
    (8 <= d && d <= 12 && m == 2)
    // adjusted holiday
    || (d == 29 && m == 2)
    // Children's Day
    || (d == 4 && m == 4)
    // adjusted holiday
    || (d == 5 && m == 4)
    // adjusted holiday
    || (d == 2 && m == 5)
    // Dragon Boat Festival
    || (d == 9 && m == 6)
    // adjusted holiday
    || (d == 10 && m == 6)
    // Mid-Autumn Festival
    || (d == 15 && m == 9)
    // adjusted holiday
    || (d == 16 && m == 9)
}

fn holiday_rules_2017(m: u8, d: u8) -> (r: bool)
    ensures
        r == spec_holiday_rules_2017(m as int, d as int),
{
    // adjusted holiday
    (d == 2 && m == 1)
    // Lunar New Year, end of January
    || (d >= 27 && m == 1)
    // Lunar New Year, start of February
    || (d == 1 && m == 2)
    // adjusted holiday
    || (d == 27 && m == 2)
    // adjusted holiday
    || (d == 3 && m == 4)
    // Children's Day
    || (d == 4 && m == 4)
    // adjusted holiday
    || (d == 29 && m == 5)
    // Dragon Boat Festival
    || (d == 30 && m == 5)
    // Mid-Autumn Festival
    || (d == 4 && m == 10)
    // adjusted holiday
    || (d == 9 && m == 10)
}

fn holiday_rules_2018(m: u8, d: u8) -> (r: bool)
    ensures
        r == spec_holiday_rules_2018(m as int, d as int),
{
    // Lunar New Year
    (15 <= d && d <= 20 && m == 2)
    // Children's Day
    || (d == 4 && m == 4)
    // Tomb Sweeping Day
    || (d == 5 && m == 4)
    // adjusted holiday
    || (d == 6 && m == 4)
    // Dragon Boat Festival
    || (d == 18 && m == 6)
    // Mid-Autumn Festival
    || (d == 24 && m == 9)
    // adjusted holiday
    || (d == 31 && m == 12)
}

fn holiday_rules_2019(m: u8, d: u8) -> (r: bool)
    ensures
        r == spec_holiday_rules_2019(m as int, d as int),
{
    // Lunar New Year
    (4 <= d && d <= 8 && m == 2)
    // adjusted holiday
    || (d == 1 && m == 3)
    // Children's Day
    || (d == 4 && m == 4)
    // Tomb Sweeping Day
    || (d == 5 && m == 4)
    // Dragon Boat Festival
    || (d == 7 && m == 6)
    // Mid-Autumn Festival
    || (d == 13 && m == 9)
    // adjusted holiday
    || (d == 11 && m == 10)
}

fn holiday_rules_2020(m: u8, d: u8) -> (r: bool)
    ensures
        r == spec_holiday_rules_2020(m as int, d as int),
{
    // adjusted holiday
    (d == 23 && m == 1)
    // Lunar New Year
    || (24 <= d && d <= 29 && m == 1)
    // adjusted holiday
    || (d == 2 && m == 4)
    // adjusted holiday
    || (d == 3 && m == 4)
    // Dragon Boat Festival
    || (d == 25 && m == 6)
    // adjusted holiday
    || (d == 26 && m == 6)
    // Mid-Autumn Festival
    || (d == 1 && m == 10)
    // adjusted holiday
    || (d == 2 && m == 10)
    // adjusted holiday
    || (d == 9 && m == 10)
}

fn holiday_rules_2021(m: u8, d: u8) -> (r: bool)
    ensures
        r == spec_holiday_rules_2021(m as int, d as int),
{
    // adjusted holiday
    (d == 10 && m == 2)
    // Lunar New Year
    || (11 <= d && d <= 16 && m == 2)
    // adjusted holiday
    || (d == 1 && m == 3)
    // Children's Day
    || (d == 2 && m == 4)
    // adjusted holiday
    || (d == 5 && m == 4)
    // adjusted holiday
    || (d == 30 && m == 4)
    // Dragon Boat Festival
    || (d == 14 && m == 6)
    // adjusted holiday
    || (d == 20 && m == 9)
    // Mid-Autumn Festival
    || (d == 21 && m == 9)
    // adjusted holiday
    || (d == 11 && m == 10)
    // adjusted holiday
    || (d == 31 && m == 12)
}

fn holiday_rules_2022(m: u8, d: u8) -> (r: bool)
    ensures
        r == spec_holiday_rules_2022(m as int, d as int),
{
    // Lunar New Year, end of January
    (d == 31 && m == 1)
    // Lunar New Year, start of February
    || (d <= 4 && m == 2)
    // Children's Day
    || (d == 4 && m == 4)
    // Tomb Sweeping Day
    || (d == 5 && m == 4)
    // adjusted holiday
    || (d == 2 && m == 5)
    // Dragon Boat Festival
    || (d == 3 && m == 6)
    // adjusted holiday
    || (d == 9 && m == 9)
}

fn holiday_rules_2023(m: u8, d: u8) -> (r: bool)
    ensures
        r == spec_holiday_rules_2023(m as int, d as int),
{
    // adjusted holiday
    (d == 2 && m == 1)
    // adjusted holiday
    || (d == 20 && m == 1)
    // Lunar New Year
    || (21 <= d && d <= 24 && m == 1)
    // adjusted holiday
    || (25 <= d && d <= 27 && m == 1)
    // adjusted holiday
    || (d == 27 && m == 2)
    // adjusted holiday
    || (d == 3 && m == 4)
    // Children's Day
    || (d == 4 && m == 4)
    // Tomb Sweeping Day
    || (d == 5 && m == 4)
    // Dragon Boat Festival
    || (d == 22 && m == 6)
    // adjusted holiday
    || (d == 23 && m == 6)
    // Mid-Autumn Festival
    || (d == 29 && m == 9)
    // adjusted holiday
    || (d == 9 && m == 10)
}


/// The table only covers 2002 through 2023. Outside that window, and away
/// from the fixed annual holidays, Taiwan's calendar falls back to the
/// weekend-only rule: a documented coverage gap, not extrapolated.
pub proof fn lemma_out_of_window_fallback(t: Taiwan, w: WeekendsOnly, date: Date)
    requires
        date.year < 2002 || date.year > 2023,
        !spec_fixed_holiday(date.month as int, date.day as int),
    ensures
        t.spec_is_business_day(date) == w.spec_is_business_day(date),
{
}

} // verus!
