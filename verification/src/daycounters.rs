//! The day-count capability: a convention turns the span between two dates
//! into an elapsed-day count and, through a fixed denominator, a year
//! fraction `day_count / denominator`. The division itself is floating-point
//! work for the caller; the library supplies the two exact integers.

use vstd::prelude::*;

pub mod actual360;
pub mod actual365;
pub mod actual365fixed;

verus! {

use crate::date::Date;

/// Elapsed calendar days from `d1` to `d2`: the signed difference of their
/// day numbers, negative when `d2` precedes `d1`. No calendar awareness —
/// holidays are irrelevant to a day count.
pub open spec fn spec_elapsed_days(d1: Date, d2: Date) -> int {
    d2.day_number() - d1.day_number()
}

/// A day-count convention. Every convention of this engine counts actual
/// elapsed days; they differ only in the fixed denominator of the year
/// fraction.
pub trait DayCounters: Sized {
    /// The convention's fixed year-fraction denominator.
    spec fn spec_denominator(&self) -> int;

    fn day_count(&self, d1: Date, d2: Date) -> (r: i64)
        requires
            d1.valid(),
            d2.valid(),
        ensures
            r == spec_elapsed_days(d1, d2),
    ;

    fn denominator(&self) -> (r: u32)
        ensures
            r as int == self.spec_denominator(),
    ;
}

/// Day counters are pure: any two calls of `day_count` on one convention
/// and one pair of dates return the same count, since each is pinned to
/// `spec_elapsed_days`, a function of the two dates alone.
pub proof fn lemma_day_count_pure<D: DayCounters>(c: &D, d1: Date, d2: Date, r1: i64, r2: i64)
    requires
        r1 == spec_elapsed_days(d1, d2),
        r2 == spec_elapsed_days(d1, d2),
    ensures
        r1 == r2,
{
}

/// The closed set of conventions an FX pair can select, as plain data.
#[derive(Clone, Copy, PartialEq, Eq, Structural, Debug)]
pub enum DayCountConvention {
    Actual360,
    Actual365,
}

impl DayCounters for DayCountConvention {
    open spec fn spec_denominator(&self) -> int {
        match self {
            DayCountConvention::Actual360 => 360,
            DayCountConvention::Actual365 => 365,
        }
    }

    fn day_count(&self, d1: Date, d2: Date) -> (r: i64) {
        d2.to_day_number() - d1.to_day_number()
    }

    fn denominator(&self) -> (r: u32) {
        match self {
            DayCountConvention::Actual360 => 360,
            DayCountConvention::Actual365 => 365,
        }
    }
}

} // verus!
