//! FX domain metadata: the closed set of currencies, the closed set of
//! currency-pair symbols, and the pure lookup tables binding each pair to a
//! day-count convention, a settlement lag and a quoting cutoff, plus the
//! decomposition of a pair into its foreign and domestic currencies.

use vstd::prelude::*;

verus! {

use crate::date::TimeOfDay;
use crate::daycounters::{DayCountConvention, DayCounters};

/// The closed set of ISO-4217-like currency codes this engine knows.
#[derive(Clone, Copy, PartialEq, Eq, Structural, Debug)]
pub enum Currency {
    EUR,
    GBP,
    USD,
    CAD,
    JPY,
}

/// The closed set of FX currency-pair symbols: each is a foreign (base)
/// currency followed by a domestic (quote) currency, in a fixed 3+3 layout.
#[derive(Clone, Copy, PartialEq, Eq, Structural, Debug)]
pub enum FXUnderlying {
    EURGBP,
    EURUSD,
    EURCAD,
    EURJPY,
    GBPUSD,
    GBPCAD,
    GBPJPY,
    USDCAD,
    USDJPY,
    CADJPY,
}

/// An input string matched no known textual code.
#[derive(Clone, Copy, PartialEq, Eq, Structural, Debug)]
pub enum ParseError {
    UnrecognizedCode,
}

impl Currency {
    /// The canonical three-letter code of this currency.
    pub open spec fn spec_code(self) -> Seq<char> {
        match self {
            Currency::EUR => "EUR"@,
            Currency::GBP => "GBP"@,
            Currency::USD => "USD"@,
            Currency::CAD => "CAD"@,
            Currency::JPY => "JPY"@,
        }
    }

    /// Renders the canonical three-letter code.
    pub fn code(&self) -> (r: String)
        ensures
            r@ == self.spec_code(),
    {
        match self {
            Currency::EUR => "EUR".to_owned(),
            Currency::GBP => "GBP".to_owned(),
            Currency::USD => "USD".to_owned(),
            Currency::CAD => "CAD".to_owned(),
            Currency::JPY => "JPY".to_owned(),
        }
    }

    /// Parses a three-letter code; an unrecognized string is a reportable
    /// error, never silently defaulted.
    pub fn from_code(s: &str) -> (r: Result<Currency, ParseError>)
        ensures
            r == spec_currency_from_code(s@),
    {
        let t = s.to_owned();
        if t == "EUR".to_owned() {
            Ok(Currency::EUR)
        } else if t == "GBP".to_owned() {
            Ok(Currency::GBP)
        } else if t == "USD".to_owned() {
            Ok(Currency::USD)
        } else if t == "CAD".to_owned() {
            Ok(Currency::CAD)
        } else if t == "JPY".to_owned() {
            Ok(Currency::JPY)
        } else {
            Err(ParseError::UnrecognizedCode)
        }
    }
}

/// The currency whose code a string holds: `Ok` exactly on the five codes.
pub open spec fn spec_currency_from_code(s: Seq<char>) -> Result<Currency, ParseError> {
    if s == "EUR"@ {
        Ok(Currency::EUR)
    } else if s == "GBP"@ {
        Ok(Currency::GBP)
    } else if s == "USD"@ {
        Ok(Currency::USD)
    } else if s == "CAD"@ {
        Ok(Currency::CAD)
    } else if s == "JPY"@ {
        Ok(Currency::JPY)
    } else {
        Err(ParseError::UnrecognizedCode)
    }
}

/// Parsing is the inverse of rendering: every currency's code parses back to
/// it, and whatever parses successfully renders to the very string parsed.
pub proof fn lemma_currency_code_round_trip(c: Currency, s: Seq<char>)
    ensures
        spec_currency_from_code(c.spec_code()) == Ok::<Currency, ParseError>(c),
        spec_currency_from_code(s) matches Ok(parsed) ==> parsed.spec_code() == s,
{
    reveal_strlit("EUR");
    reveal_strlit("GBP");
    reveal_strlit("USD");
    reveal_strlit("CAD");
    reveal_strlit("JPY");
    // The five codes differ pairwise already in their first letter.
    assert("EUR"@[0] == 'E');
    assert("GBP"@[0] == 'G');
    assert("USD"@[0] == 'U');
    assert("CAD"@[0] == 'C');
    assert("JPY"@[0] == 'J');
}

impl FXUnderlying {
    /// The canonical six-letter pair symbol.
    pub open spec fn spec_code(self) -> Seq<char> {
        match self {
            FXUnderlying::EURGBP => "EURGBP"@,
            FXUnderlying::EURUSD => "EURUSD"@,
            FXUnderlying::EURCAD => "EURCAD"@,
            FXUnderlying::EURJPY => "EURJPY"@,
            FXUnderlying::GBPUSD => "GBPUSD"@,
            FXUnderlying::GBPCAD => "GBPCAD"@,
            FXUnderlying::GBPJPY => "GBPJPY"@,
            FXUnderlying::USDCAD => "USDCAD"@,
            FXUnderlying::USDJPY => "USDJPY"@,
            FXUnderlying::CADJPY => "CADJPY"@,
        }
    }

    /// Renders the canonical six-letter pair symbol.
    pub fn code(&self) -> (r: String)
        ensures
            r@ == self.spec_code(),
    {
        match self {
            FXUnderlying::EURGBP => "EURGBP".to_owned(),
            FXUnderlying::EURUSD => "EURUSD".to_owned(),
            FXUnderlying::EURCAD => "EURCAD".to_owned(),
            FXUnderlying::EURJPY => "EURJPY".to_owned(),
            FXUnderlying::GBPUSD => "GBPUSD".to_owned(),
            FXUnderlying::GBPCAD => "GBPCAD".to_owned(),
            FXUnderlying::GBPJPY => "GBPJPY".to_owned(),
            FXUnderlying::USDCAD => "USDCAD".to_owned(),
            FXUnderlying::USDJPY => "USDJPY".to_owned(),
            FXUnderlying::CADJPY => "CADJPY".to_owned(),
        }
    }

    /// Parses a six-letter pair symbol; an unrecognized string is a
    /// reportable error.
    pub fn from_code(s: &str) -> (r: Result<FXUnderlying, ParseError>)
        ensures
            r == spec_underlying_from_code(s@),
    {
        let t = s.to_owned();
        if t == "EURGBP".to_owned() {
            Ok(FXUnderlying::EURGBP)
        } else if t == "EURUSD".to_owned() {
            Ok(FXUnderlying::EURUSD)
        } else if t == "EURCAD".to_owned() {
            Ok(FXUnderlying::EURCAD)
        } else if t == "EURJPY".to_owned() {
            Ok(FXUnderlying::EURJPY)
        } else if t == "GBPUSD".to_owned() {
            Ok(FXUnderlying::GBPUSD)
        } else if t == "GBPCAD".to_owned() {
            Ok(FXUnderlying::GBPCAD)
        } else if t == "GBPJPY".to_owned() {
            Ok(FXUnderlying::GBPJPY)
        } else if t == "USDCAD".to_owned() {
            Ok(FXUnderlying::USDCAD)
        } else if t == "USDJPY".to_owned() {
            Ok(FXUnderlying::USDJPY)
        } else if t == "CADJPY".to_owned() {
            Ok(FXUnderlying::CADJPY)
        } else {
            Err(ParseError::UnrecognizedCode)
        }
    }

    /// The day-count convention of the pair: EURUSD and USDJPY accrue on
    /// Actual/360, every other pair on Actual/365. The table is closed and
    /// exhaustive over the ten variants.
    pub open spec fn spec_day_count(self) -> DayCountConvention {
        match self {
            FXUnderlying::EURUSD => DayCountConvention::Actual360,
            FXUnderlying::USDJPY => DayCountConvention::Actual360,
            _ => DayCountConvention::Actual365,
        }
    }

    pub fn day_count(&self) -> (r: DayCountConvention)
        ensures
            r == self.spec_day_count(),
    {
        match self {
            FXUnderlying::EURUSD | FXUnderlying::USDJPY => DayCountConvention::Actual360,
            _ => DayCountConvention::Actual365,
        }
    }

    /// The settlement lag in business days: USDCAD settles the next business
    /// day, every other pair two business days after trade.
    pub open spec fn spec_settles(self) -> int {
        match self {
            FXUnderlying::USDCAD => 1,
            _ => 2,
        }
    }

    pub fn settles(&self) -> (r: i8)
        ensures
            r as int == self.spec_settles(),
    {
        match self {
            FXUnderlying::USDCAD => 1,
            _ => 2,
        }
    }

    /// The daily quoting cutoff: 22:00:00.000000 for every pair, a single
    /// global cutoff rather than a pair-specific one.
    pub fn hours(&self) -> (r: TimeOfDay)
        ensures
            r == (TimeOfDay { hour: 22, minute: 0, second: 0, microsecond: 0 }),
            r.valid(),
    {
        TimeOfDay { hour: 22, minute: 0, second: 0, microsecond: 0 }
    }

    /// The foreign (base) currency: the first three letters of the symbol.
    pub open spec fn spec_frn_currency(self) -> Currency {
        match self {
            FXUnderlying::EURGBP => Currency::EUR,
            FXUnderlying::EURUSD => Currency::EUR,
            FXUnderlying::EURCAD => Currency::EUR,
            FXUnderlying::EURJPY => Currency::EUR,
            FXUnderlying::GBPUSD => Currency::GBP,
            FXUnderlying::GBPCAD => Currency::GBP,
            FXUnderlying::GBPJPY => Currency::GBP,
            FXUnderlying::USDCAD => Currency::USD,
            FXUnderlying::USDJPY => Currency::USD,
            FXUnderlying::CADJPY => Currency::CAD,
        }
    }

    /// The domestic (quote) currency: the last three letters of the symbol.
    pub open spec fn spec_dom_currency(self) -> Currency {
        match self {
            FXUnderlying::EURGBP => Currency::GBP,
            FXUnderlying::EURUSD => Currency::USD,
            FXUnderlying::EURCAD => Currency::CAD,
            FXUnderlying::EURJPY => Currency::JPY,
            FXUnderlying::GBPUSD => Currency::USD,
            FXUnderlying::GBPCAD => Currency::CAD,
            FXUnderlying::GBPJPY => Currency::JPY,
            FXUnderlying::USDCAD => Currency::CAD,
            FXUnderlying::USDJPY => Currency::JPY,
            FXUnderlying::CADJPY => Currency::JPY,
        }
    }

    pub fn frn_currency(&self) -> (r: Currency)
        ensures
            r == self.spec_frn_currency(),
    {
        match self {
            FXUnderlying::EURGBP => Currency::EUR,
            FXUnderlying::EURUSD => Currency::EUR,
            FXUnderlying::EURCAD => Currency::EUR,
            FXUnderlying::EURJPY => Currency::EUR,
            FXUnderlying::GBPUSD => Currency::GBP,
            FXUnderlying::GBPCAD => Currency::GBP,
            FXUnderlying::GBPJPY => Currency::GBP,
            FXUnderlying::USDCAD => Currency::USD,
            FXUnderlying::USDJPY => Currency::USD,
            FXUnderlying::CADJPY => Currency::CAD,
        }
    }

    pub fn dom_currency(&self) -> (r: Currency)
        ensures
            r == self.spec_dom_currency(),
    {
        match self {
            FXUnderlying::EURGBP => Currency::GBP,
            FXUnderlying::EURUSD => Currency::USD,
            FXUnderlying::EURCAD => Currency::CAD,
            FXUnderlying::EURJPY => Currency::JPY,
            FXUnderlying::GBPUSD => Currency::USD,
            FXUnderlying::GBPCAD => Currency::CAD,
            FXUnderlying::GBPJPY => Currency::JPY,
            FXUnderlying::USDCAD => Currency::CAD,
            FXUnderlying::USDJPY => Currency::JPY,
            FXUnderlying::CADJPY => Currency::JPY,
        }
    }
}

/// The pair symbol a string holds: `Ok` exactly on the ten symbols.
pub open spec fn spec_underlying_from_code(s: Seq<char>) -> Result<FXUnderlying, ParseError> {
    if s == "EURGBP"@ {
        Ok(FXUnderlying::EURGBP)
    } else if s == "EURUSD"@ {
        Ok(FXUnderlying::EURUSD)
    } else if s == "EURCAD"@ {
        Ok(FXUnderlying::EURCAD)
    } else if s == "EURJPY"@ {
        Ok(FXUnderlying::EURJPY)
    } else if s == "GBPUSD"@ {
        Ok(FXUnderlying::GBPUSD)
    } else if s == "GBPCAD"@ {
        Ok(FXUnderlying::GBPCAD)
    } else if s == "GBPJPY"@ {
        Ok(FXUnderlying::GBPJPY)
    } else if s == "USDCAD"@ {
        Ok(FXUnderlying::USDCAD)
    } else if s == "USDJPY"@ {
        Ok(FXUnderlying::USDJPY)
    } else if s == "CADJPY"@ {
        Ok(FXUnderlying::CADJPY)
    } else {
        Err(ParseError::UnrecognizedCode)
    }
}

/// Parsing is the inverse of rendering: every pair's symbol parses back to
/// it, and whatever parses successfully renders to the very string parsed.
pub proof fn lemma_underlying_code_round_trip(u: FXUnderlying, s: Seq<char>)
    ensures
        spec_underlying_from_code(u.spec_code()) == Ok::<FXUnderlying, ParseError>(u),
        spec_underlying_from_code(s) matches Ok(parsed) ==> parsed.spec_code() == s,
{
    reveal_strlit("EURGBP");
    reveal_strlit("EURUSD");
    reveal_strlit("EURCAD");
    reveal_strlit("EURJPY");
    reveal_strlit("GBPUSD");
    reveal_strlit("GBPCAD");
    reveal_strlit("GBPJPY");
    reveal_strlit("USDCAD");
    reveal_strlit("USDJPY");
    reveal_strlit("CADJPY");
    // The ten symbols differ pairwise in the first letter of the foreign
    // code, the first letter of the domestic code, or both.
    assert("EURGBP"@[0] == 'E' && "EURGBP"@[3] == 'G');
    assert("EURUSD"@[0] == 'E' && "EURUSD"@[3] == 'U');
    assert("EURCAD"@[0] == 'E' && "EURCAD"@[3] == 'C');
    assert("EURJPY"@[0] == 'E' && "EURJPY"@[3] == 'J');
    assert("GBPUSD"@[0] == 'G' && "GBPUSD"@[3] == 'U');
    assert("GBPCAD"@[0] == 'G' && "GBPCAD"@[3] == 'C');
    assert("GBPJPY"@[0] == 'G' && "GBPJPY"@[3] == 'J');
    assert("USDCAD"@[0] == 'U' && "USDCAD"@[3] == 'C');
    assert("USDJPY"@[0] == 'U' && "USDJPY"@[3] == 'J');
    assert("CADJPY"@[0] == 'C' && "CADJPY"@[3] == 'J');
}

/// The year-fraction denominator each pair accrues on: 360 for EURUSD and
/// USDJPY, 365 for every other pair.
pub proof fn lemma_pair_denominator(u: FXUnderlying)
    ensures
        u.spec_day_count().spec_denominator() == (if u == FXUnderlying::EURUSD || u
            == FXUnderlying::USDJPY {
            360int
        } else {
            365int
        }),
{
}

/// Every pair symbol decomposes structurally: the foreign currency's code
/// followed by the domestic currency's code is exactly the pair's code.
pub proof fn lemma_pair_code_decomposes(u: FXUnderlying)
    ensures
        u.spec_frn_currency().spec_code() + u.spec_dom_currency().spec_code() == u.spec_code(),
{
    reveal_strlit("EUR");
    reveal_strlit("GBP");
    reveal_strlit("USD");
    reveal_strlit("CAD");
    reveal_strlit("JPY");
    reveal_strlit("EURGBP");
    reveal_strlit("EURUSD");
    reveal_strlit("EURCAD");
    reveal_strlit("EURJPY");
    reveal_strlit("GBPUSD");
    reveal_strlit("GBPCAD");
    reveal_strlit("GBPJPY");
    reveal_strlit("USDCAD");
    reveal_strlit("USDJPY");
    reveal_strlit("CADJPY");
    match u {
        FXUnderlying::EURGBP => {
            assert("EUR"@ + "GBP"@ =~= "EURGBP"@);
        },
        FXUnderlying::EURUSD => {
            assert("EUR"@ + "USD"@ =~= "EURUSD"@);
        },
        FXUnderlying::EURCAD => {
            assert("EUR"@ + "CAD"@ =~= "EURCAD"@);
        },
        FXUnderlying::EURJPY => {
            assert("EUR"@ + "JPY"@ =~= "EURJPY"@);
        },
        FXUnderlying::GBPUSD => {
            assert("GBP"@ + "USD"@ =~= "GBPUSD"@);
        },
        FXUnderlying::GBPCAD => {
            assert("GBP"@ + "CAD"@ =~= "GBPCAD"@);
        },
        FXUnderlying::GBPJPY => {
            assert("GBP"@ + "JPY"@ =~= "GBPJPY"@);
        },
        FXUnderlying::USDCAD => {
            assert("USD"@ + "CAD"@ =~= "USDCAD"@);
        },
        FXUnderlying::USDJPY => {
            assert("USD"@ + "JPY"@ =~= "USDJPY"@);
        },
        FXUnderlying::CADJPY => {
            assert("CAD"@ + "JPY"@ =~= "CADJPY"@);
        },
    }
}

} // verus!
