use finquant::date::TimeOfDay;
use finquant::daycounters::{DayCountConvention, DayCounters};
use finquant::fx::{Currency, FXUnderlying, ParseError};

const ALL_PAIRS: [FXUnderlying; 10] = [
    FXUnderlying::EURGBP,
    FXUnderlying::EURUSD,
    FXUnderlying::EURCAD,
    FXUnderlying::EURJPY,
    FXUnderlying::GBPUSD,
    FXUnderlying::GBPCAD,
    FXUnderlying::GBPJPY,
    FXUnderlying::USDCAD,
    FXUnderlying::USDJPY,
    FXUnderlying::CADJPY,
];

const ALL_CURRENCIES: [Currency; 5] =
    [Currency::EUR, Currency::GBP, Currency::USD, Currency::CAD, Currency::JPY];

#[test]
fn test_dom_frn_currency() {
    let underlying = FXUnderlying::EURUSD;
    assert_eq!(underlying.dom_currency(), Currency::USD);
    assert_eq!(underlying.frn_currency(), Currency::EUR);
}

#[test]
fn test_settles() {
    assert_eq!(FXUnderlying::USDCAD.settles(), 1);
    assert_eq!(FXUnderlying::EURUSD.settles(), 2);
}

#[test]
fn test_settles_all_pairs() {
    for u in ALL_PAIRS {
        let expected: i8 = if u == FXUnderlying::USDCAD { 1 } else { 2 };
        assert_eq!(u.settles(), expected);
    }
}

#[test]
fn test_day_count_conventions() {
    assert_eq!(FXUnderlying::EURUSD.day_count(), DayCountConvention::Actual360);
    assert_eq!(FXUnderlying::USDJPY.day_count(), DayCountConvention::Actual360);
    for u in ALL_PAIRS {
        let expected = if u == FXUnderlying::EURUSD || u == FXUnderlying::USDJPY {
            DayCountConvention::Actual360
        } else {
            DayCountConvention::Actual365
        };
        assert_eq!(u.day_count(), expected);
        let denominator = if expected == DayCountConvention::Actual360 { 360 } else { 365 };
        assert_eq!(u.day_count().denominator(), denominator);
    }
}

#[test]
fn test_currency_codes_round_trip() {
    for c in ALL_CURRENCIES {
        let code = c.code();
        assert_eq!(code.len(), 3);
        assert_eq!(Currency::from_code(&code), Ok(c));
    }
    assert_eq!(Currency::EUR.code(), "EUR");
    assert_eq!(Currency::JPY.code(), "JPY");
}

#[test]
fn test_pair_codes_round_trip() {
    for u in ALL_PAIRS {
        let code = u.code();
        assert_eq!(code.len(), 6);
        assert_eq!(FXUnderlying::from_code(&code), Ok(u));
    }
    assert_eq!(FXUnderlying::EURUSD.code(), "EURUSD");
    assert_eq!(FXUnderlying::CADJPY.code(), "CADJPY");
}

#[test]
fn test_pair_code_decomposes() {
    for u in ALL_PAIRS {
        let rebuilt = format!("{}{}", u.frn_currency().code(), u.dom_currency().code());
        assert_eq!(rebuilt, u.code());
    }
}

#[test]
fn test_parse_errors() {
    assert_eq!(Currency::from_code("XXX"), Err(ParseError::UnrecognizedCode));
    assert_eq!(Currency::from_code(""), Err(ParseError::UnrecognizedCode));
    assert_eq!(Currency::from_code("eur"), Err(ParseError::UnrecognizedCode));
    assert_eq!(Currency::from_code("EURUSD"), Err(ParseError::UnrecognizedCode));
    assert_eq!(FXUnderlying::from_code("USDEUR"), Err(ParseError::UnrecognizedCode));
    assert_eq!(FXUnderlying::from_code("eurusd"), Err(ParseError::UnrecognizedCode));
    assert_eq!(FXUnderlying::from_code("EUR"), Err(ParseError::UnrecognizedCode));
    assert_eq!(FXUnderlying::from_code(""), Err(ParseError::UnrecognizedCode));
}

#[test]
fn test_hours() {
    for u in ALL_PAIRS {
        let cutoff = u.hours();
        assert_eq!(
            cutoff,
            TimeOfDay { hour: 22, minute: 0, second: 0, microsecond: 0 }
        );
    }
}

#[test]
fn test_metadata_is_pure() {
    for u in ALL_PAIRS {
        assert_eq!(u.settles(), u.settles());
        assert_eq!(u.day_count(), u.day_count());
        assert_eq!(u.dom_currency(), u.dom_currency());
        assert_eq!(u.frn_currency(), u.frn_currency());
        assert_eq!(u.hours(), u.hours());
        assert_eq!(u.code(), u.code());
    }
}
