//! Holidays for weekends-only.

use vstd::prelude::*;

verus! {

use crate::calendars::Calendar;
use crate::date::Date;

/// The calendar with no holidays: every weekday is a business day.
#[derive(Clone, Copy, PartialEq, Eq, Structural, Debug, Default)]
pub struct WeekendsOnly;

impl Calendar for WeekendsOnly {
    /// A date is a business day exactly when it is not a weekend.
    open spec fn spec_is_business_day(&self, date: Date) -> bool {
        !date.spec_is_weekend()
    }

    fn is_business_day(&self, date: Date) -> (r: bool) {
        !date.is_weekend()
    }
}

/// Every date is a business day of `WeekendsOnly` exactly when it is not a
/// weekend.
pub proof fn lemma_weekends_only_is_business_day(c: WeekendsOnly, date: Date)
    ensures
        c.spec_is_business_day(date) == !date.spec_is_weekend(),
{
}

} // verus!
