//! Actual/365: actual elapsed days over a 365-day year. The denominator is
//! a fixed constant regardless of leap years, so this convention and
//! Actual/365 Fixed are numerically the same rule under two names.

use vstd::prelude::*;

verus! {

use crate::date::Date;
use crate::daycounters::DayCounters;

#[derive(Clone, Copy, PartialEq, Eq, Structural, Debug, Default)]
pub struct Actual365;

impl DayCounters for Actual365 {
    open spec fn spec_denominator(&self) -> int {
        365
    }

    fn day_count(&self, d1: Date, d2: Date) -> (r: i64) {
        d2.to_day_number() - d1.to_day_number()
    }

    fn denominator(&self) -> (r: u32) {
        365
    }
}

} // verus!
