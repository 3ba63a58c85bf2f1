use chrono::{Datelike, Duration, NaiveDate, Weekday};
use finquant::calendars::joincalendar::JoinCalendar;
use finquant::calendars::taiwan::Taiwan;
use finquant::calendars::weekendsonly::WeekendsOnly;
use finquant::calendars::Calendar;
use finquant::date::Date;

fn to_date(nd: NaiveDate) -> Date {
    Date::from_ymd(nd.year(), nd.month() as u8, nd.day() as u8).unwrap()
}

#[test]
fn test_weekends_only() {
    let first_date = NaiveDate::from_ymd_opt(2023, 1, 1).unwrap();
    for n in 0i32..365 {
        let target_date = first_date + Duration::days(n as i64);

        assert_eq!(
            WeekendsOnly::default().is_business_day(to_date(target_date)),
            match target_date.weekday() {
                Weekday::Sat | Weekday::Sun => false,
                _ => true,
            }
        );
    }
}

// Exactly the documented 2023 Taiwanese holidays (with the Lunar New Year
// window of January 20 through 27), every Saturday and Sunday, and nothing
// else, fails the business-day test in 2023.
#[test]
fn test_taiwan_2023() {
    let holidays_2023: Vec<(u8, u8)> = vec![
        (1, 1),
        (1, 2),
        (1, 20),
        (1, 21),
        (1, 22),
        (1, 23),
        (1, 24),
        (1, 25),
        (1, 26),
        (1, 27),
        (2, 27),
        (2, 28),
        (4, 3),
        (4, 4),
        (4, 5),
        (5, 1),
        (6, 22),
        (6, 23),
        (9, 29),
        (10, 9),
        (10, 10),
    ];
    let first_date = NaiveDate::from_ymd_opt(2023, 1, 1).unwrap();
    for n in 0i64..365 {
        let target_date = first_date + Duration::days(n);
        let md = (target_date.month() as u8, target_date.day() as u8);
        let weekend = matches!(target_date.weekday(), Weekday::Sat | Weekday::Sun);
        let holiday = holidays_2023.contains(&md);
        let expected = !weekend && !holiday;
        assert_eq!(
            Taiwan::default().is_business_day(to_date(target_date)),
            expected,
            "wrong answer on 2023-{:02}-{:02}",
            md.0,
            md.1
        );
    }
}

#[test]
fn test_taiwan_fixed_holidays_on_weekdays() {
    // 2021-10-10 is a Sunday but 2022-02-28 (Monday) and 2022-10-10 (Monday)
    // show the fixed rules outside any weekend.
    assert!(!Taiwan.is_business_day(Date { year: 2022, month: 2, day: 28 }));
    assert!(!Taiwan.is_business_day(Date { year: 2022, month: 10, day: 10 }));
    // A plain Taiwanese business day.
    assert!(Taiwan.is_business_day(Date { year: 2022, month: 3, day: 1 }));
}

#[test]
fn test_taiwan_spot_holidays_across_years() {
    // Lunar New Year 2008: February 4 through 11.
    assert!(!Taiwan.is_business_day(Date { year: 2008, month: 2, day: 4 }));
    assert!(!Taiwan.is_business_day(Date { year: 2008, month: 2, day: 11 }));
    // The first weekday after it (2008-02-12, a Tuesday) is business again.
    assert!(Taiwan.is_business_day(Date { year: 2008, month: 2, day: 12 }));
    // Adjusted holiday 2015-06-19 (a Friday); the Thursday before is open.
    assert!(!Taiwan.is_business_day(Date { year: 2015, month: 6, day: 19 }));
    assert!(Taiwan.is_business_day(Date { year: 2015, month: 6, day: 18 }));
    // Tomb Sweeping Day 2010-04-05 (a Monday).
    assert!(!Taiwan.is_business_day(Date { year: 2010, month: 4, day: 5 }));
    // Memorial day 2012-12-31 (a Monday).
    assert!(!Taiwan.is_business_day(Date { year: 2012, month: 12, day: 31 }));
    // Mid-Autumn Festival 2021-09-21 (a Tuesday).
    assert!(!Taiwan.is_business_day(Date { year: 2021, month: 9, day: 21 }));
}

#[test]
fn test_taiwan_out_of_window_falls_back_to_weekends() {
    // 2024-02-12 (a Monday, during the real-world Lunar New Year) is past
    // the curated window: the year table no longer applies and only the
    // weekend and fixed rules are left.
    assert!(Taiwan.is_business_day(Date { year: 2024, month: 2, day: 12 }));
    // The fixed holidays still apply outside the window: 2024-01-01 is
    // New Year's Day (a Monday).
    assert!(!Taiwan.is_business_day(Date { year: 2024, month: 1, day: 1 }));
    // 2001-02-28 (Wednesday) is a fixed holiday even before the window...
    assert!(!Taiwan.is_business_day(Date { year: 2001, month: 2, day: 28 }));
    // ...but 2001's Lunar New Year (around January 24) is not in the table.
    assert!(Taiwan.is_business_day(Date { year: 2001, month: 1, day: 24 }));
}

#[test]
fn test_join_calendar_is_conjunction() {
    let first_date = NaiveDate::from_ymd_opt(2023, 1, 1).unwrap();
    for n in 0i64..365 {
        let d = to_date(first_date + Duration::days(n));
        let joined = JoinCalendar::new(Taiwan, WeekendsOnly);
        assert_eq!(
            joined.is_business_day(d),
            Taiwan.is_business_day(d) && WeekendsOnly.is_business_day(d)
        );
    }
}

#[test]
fn test_join_calendar_is_symmetric() {
    let first_date = NaiveDate::from_ymd_opt(2023, 1, 1).unwrap();
    for n in 0i64..365 {
        let d = to_date(first_date + Duration::days(n));
        let a = JoinCalendar::new(Taiwan, WeekendsOnly);
        let b = JoinCalendar::new(WeekendsOnly, Taiwan);
        assert_eq!(a.is_business_day(d), b.is_business_day(d));
    }
}

#[test]
fn test_join_calendar_nests() {
    let d = Date { year: 2023, month: 6, day: 22 };
    let nested = JoinCalendar::new(WeekendsOnly, JoinCalendar::new(Taiwan, WeekendsOnly));
    assert!(!nested.is_business_day(d));
    let e = Date { year: 2023, month: 6, day: 26 };
    assert!(nested.is_business_day(e));
}

#[test]
fn test_calendar_is_pure() {
    let d = Date { year: 2023, month: 1, day: 23 };
    assert_eq!(Taiwan.is_business_day(d), Taiwan.is_business_day(d));
    assert_eq!(WeekendsOnly.is_business_day(d), WeekendsOnly.is_business_day(d));
}
