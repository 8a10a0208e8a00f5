//! Errors of the ticker data checks.

use vstd::prelude::*;

verus! {

#[derive(Debug, Clone, PartialEq, Eq)]
pub enum DataError {
    /// A ticker has a different number of candles than another one.
    NotEnoughData(String),
    /// Two tickers' candles close at different times (tickers, then the two close times).
    DataTimeMismatch(String, String, i64, i64),
    /// Computing the technical indicators failed, with the calculator's message.
    TechnicalCalculationError { error: String },
    /// A ticker has a candle with a NaN value.
    TickerHasNaN { ticker: String },
}

#[derive(Debug, Clone, PartialEq, Eq)]
pub enum ConfigurationError {
    FileNotFound,
    IntervalError(String),
}

} // verus!
