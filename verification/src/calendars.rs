//! The business-day calendar capability: a calendar decides, for any valid
//! date, whether a market is open for settlement on it.

use vstd::prelude::*;

pub mod joincalendar;
pub mod taiwan;
pub mod weekendsonly;

verus! {

use crate::date::Date;

/// A business-day calendar. Each implementation fixes its meaning once in
/// `spec_is_business_day`, a pure function of the date, and the executable
/// `is_business_day` must return exactly that.
pub trait Calendar: Sized {
    spec fn spec_is_business_day(&self, date: Date) -> bool;

    fn is_business_day(&self, date: Date) -> (r: bool)
        requires
            date.valid(),
        ensures
            r == self.spec_is_business_day(date),
    ;
}

/// Calendars are pure: any two calls of `is_business_day` on one calendar
/// and one date return the same answer, since each is pinned to
/// `spec_is_business_day`, a function of the date alone.
pub proof fn lemma_calendar_pure<C: Calendar>(c: &C, date: Date, r1: bool, r2: bool)
    requires
        r1 == c.spec_is_business_day(date),
        r2 == c.spec_is_business_day(date),
    ensures
        r1 == r2,
{
}

} // verus!
