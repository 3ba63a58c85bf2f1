//! Reference data and date arithmetic for financial instrument valuation:
//! business-day calendars (weekend rules, national holiday tables, and an
//! AND-composition of calendars), day-count conventions over a fixed
//! denominator, and FX currency-pair metadata (settlement lag, day-count
//! convention, quoting cutoff, currency decomposition).

pub mod date;
pub mod calendars;
pub mod daycounters;
pub mod fx;

