//! Composition of two calendars under logical AND.

use vstd::prelude::*;

verus! {

use crate::calendars::Calendar;
use crate::date::Date;

/// Combines two calendars: a date is a business day of the join exactly when
/// it is a business day of both.
#[derive(Clone, Copy, PartialEq, Eq, Debug, Default)]
pub struct JoinCalendar<T1: Calendar, T2: Calendar> {
    pub c1: T1,
    pub c2: T2,
}

impl<T1: Calendar, T2: Calendar> JoinCalendar<T1, T2> {
    pub fn new(c1: T1, c2: T2) -> (r: Self)
        ensures
            r.c1 == c1,
            r.c2 == c2,
    {
        Self { c1, c2 }
    }
}

impl<T1: Calendar, T2: Calendar> Calendar for JoinCalendar<T1, T2> {
    /// The conjunction of the two held calendars' rules.
    open spec fn spec_is_business_day(&self, date: Date) -> bool {
        self.c1.spec_is_business_day(date) && self.c2.spec_is_business_day(date)
    }

    fn is_business_day(&self, date: Date) -> (r: bool) {
        self.c1.is_business_day(date) && self.c2.is_business_day(date)
    }
}

/// Joining calendars is symmetric: the two orders agree on every date.
pub proof fn lemma_join_symmetric<T1: Calendar, T2: Calendar>(
    a: JoinCalendar<T1, T2>,
    b: JoinCalendar<T2, T1>,
    date: Date,
)
    requires
        a.c1 == b.c2,
        a.c2 == b.c1,
    ensures
        a.spec_is_business_day(date) == b.spec_is_business_day(date),
{
}

/// Joining calendars is associative: however a join of three calendars is
/// nested, it agrees on every date.
pub proof fn lemma_join_associative<T1: Calendar, T2: Calendar, T3: Calendar>(
    a: JoinCalendar<JoinCalendar<T1, T2>, T3>,
    b: JoinCalendar<T1, JoinCalendar<T2, T3>>,
    date: Date,
)
    requires
        a.c1.c1 == b.c1,
        a.c1.c2 == b.c2.c1,
        a.c2 == b.c2.c2,
    ensures
        a.spec_is_business_day(date) == b.spec_is_business_day(date),
{
}

} // verus!
