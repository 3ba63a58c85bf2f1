//! Actual/360: actual elapsed days over a 360-day year.

use vstd::prelude::*;

verus! {

use crate::date::Date;
use crate::daycounters::DayCounters;

#[derive(Clone, Copy, PartialEq, Eq, Structural, Debug, Default)]
pub struct Actual360;

impl DayCounters for Actual360 {
    open spec fn spec_denominator(&self) -> int {
        360
    }

    fn day_count(&self, d1: Date, d2: Date) -> (r: i64) {
        d2.to_day_number() - d1.to_day_number()
    }

    fn denominator(&self) -> (r: u32) {
        360
    }
}

} // verus!
