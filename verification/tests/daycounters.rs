use chrono::{Datelike, Duration, NaiveDate};
use finquant::date::Date;
use finquant::date::Weekday;
use finquant::daycounters::actual360::Actual360;
use finquant::daycounters::actual365::Actual365;
use finquant::daycounters::actual365fixed::Actual365Fixed;
use finquant::daycounters::{DayCountConvention, DayCounters};

fn year_fraction<D: DayCounters>(counter: &D, d1: Date, d2: Date) -> f32 {
    counter.day_count(d1, d2) as f32 / counter.denominator() as f32
}

#[test]
fn test_actual360_january() {
    let d1 = Date { year: 2023, month: 1, day: 1 };
    let d2 = Date { year: 2023, month: 2, day: 1 };
    assert_eq!(Actual360.day_count(d1, d2), 31);
    assert_eq!(year_fraction(&Actual360, d1, d2), 31.0 / 360.0);
    assert_eq!(year_fraction(&Actual365, d1, d2), 31.0 / 365.0);
}

#[test]
fn test_day_count_agrees_across_conventions() {
    let d1 = Date { year: 2020, month: 2, day: 28 };
    let d2 = Date { year: 2020, month: 3, day: 1 };
    // 2020 is a leap year: February 29 lies between the two dates.
    assert_eq!(Actual360.day_count(d1, d2), 2);
    assert_eq!(Actual365.day_count(d1, d2), 2);
    assert_eq!(Actual365Fixed.day_count(d1, d2), 2);
    assert_eq!(DayCountConvention::Actual360.day_count(d1, d2), 2);
    assert_eq!(DayCountConvention::Actual365.day_count(d1, d2), 2);
}

#[test]
fn test_day_count_signed() {
    let d1 = Date { year: 2023, month: 2, day: 1 };
    let d2 = Date { year: 2023, month: 1, day: 1 };
    assert_eq!(Actual360.day_count(d1, d2), -31);
    assert_eq!(Actual365.day_count(d1, d1), 0);
}

#[test]
fn test_denominators() {
    assert_eq!(Actual360.denominator(), 360);
    assert_eq!(Actual365.denominator(), 365);
    assert_eq!(Actual365Fixed.denominator(), 365);
    assert_eq!(DayCountConvention::Actual360.denominator(), 360);
    assert_eq!(DayCountConvention::Actual365.denominator(), 365);
}

#[test]
fn test_day_count_over_years() {
    let d1 = Date { year: 2000, month: 1, day: 1 };
    let d2 = Date { year: 2001, month: 1, day: 1 };
    // 2000 is a leap year.
    assert_eq!(Actual365.day_count(d1, d2), 366);
    let d3 = Date { year: 1999, month: 1, day: 1 };
    assert_eq!(Actual365.day_count(d3, d1), 365);
}

#[test]
fn test_day_count_matches_chrono() {
    let samples = [
        ((2002, 1, 1), (2023, 12, 31)),
        ((1900, 2, 28), (1900, 3, 1)),
        ((2000, 2, 28), (2000, 3, 1)),
        ((1997, 7, 19), (2038, 1, 19)),
        ((2023, 6, 22), (2023, 6, 21)),
    ];
    for ((y1, m1, d1), (y2, m2, d2)) in samples {
        let a = NaiveDate::from_ymd_opt(y1, m1, d1).unwrap();
        let b = NaiveDate::from_ymd_opt(y2, m2, d2).unwrap();
        let da = Date::from_ymd(y1, m1 as u8, d1 as u8).unwrap();
        let db = Date::from_ymd(y2, m2 as u8, d2 as u8).unwrap();
        assert_eq!(Actual360.day_count(da, db), (b - a).num_days());
    }
}

#[test]
fn test_day_count_is_pure() {
    let d1 = Date { year: 2023, month: 1, day: 1 };
    let d2 = Date { year: 2023, month: 2, day: 1 };
    assert_eq!(Actual360.day_count(d1, d2), Actual360.day_count(d1, d2));
    assert_eq!(
        year_fraction(&Actual365, d1, d2),
        year_fraction(&Actual365, d1, d2)
    );
}

fn as_chrono_weekday(w: Weekday) -> chrono::Weekday {
    match w {
        Weekday::Monday => chrono::Weekday::Mon,
        Weekday::Tuesday => chrono::Weekday::Tue,
        Weekday::Wednesday => chrono::Weekday::Wed,
        Weekday::Thursday => chrono::Weekday::Thu,
        Weekday::Friday => chrono::Weekday::Fri,
        Weekday::Saturday => chrono::Weekday::Sat,
        Weekday::Sunday => chrono::Weekday::Sun,
    }
}

#[test]
fn test_weekday_matches_chrono() {
    // Sweep a window wide enough to cross month, year and leap boundaries.
    let first = NaiveDate::from_ymd_opt(1999, 12, 1).unwrap();
    for n in 0i64..3700 {
        let nd = first + Duration::days(n);
        let d = Date::from_ymd(nd.year(), nd.month() as u8, nd.day() as u8).unwrap();
        assert_eq!(
            as_chrono_weekday(d.weekday()),
            nd.weekday(),
            "weekday mismatch on {nd}"
        );
        assert_eq!(
            d.is_weekend(),
            matches!(nd.weekday(), chrono::Weekday::Sat | chrono::Weekday::Sun)
        );
    }
}

#[test]
fn test_from_ymd_validates() {
    assert!(Date::from_ymd(2023, 2, 29).is_none());
    assert!(Date::from_ymd(2024, 2, 29).is_some());
    assert!(Date::from_ymd(1900, 2, 29).is_none());
    assert!(Date::from_ymd(2000, 2, 29).is_some());
    assert!(Date::from_ymd(2023, 0, 1).is_none());
    assert!(Date::from_ymd(2023, 13, 1).is_none());
    assert!(Date::from_ymd(2023, 4, 31).is_none());
    assert!(Date::from_ymd(0, 1, 1).is_none());
    assert!(Date::from_ymd(10000, 1, 1).is_none());
    assert_eq!(
        Date::from_ymd(2023, 4, 30),
        Some(Date { year: 2023, month: 4, day: 30 })
    );
}
