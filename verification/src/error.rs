//! Error types shared by the data, optimisation and caching code.

use vstd::prelude::*;

verus! {

/// Whether a candle time refers to the open or the close of the candle.
#[derive(Debug, Clone, Copy, PartialEq, Eq, Structural)]
pub enum When {
    Open,
    Close,
}

impl When {
    /// The lower-case name used in messages.
    pub fn as_str(&self) -> (r: &'static str)
        ensures
            r@ == (match self {
                When::Open => "open"@,
                When::Close => "close"@,
            }),
    {
        match self {
            When::Open => "open",
            When::Close => "close",
        }
    }
}

/// Failure to turn a string or a number of minutes into an `Interval`.
#[derive(Debug, Clone, PartialEq, Eq)]
pub enum ParseIntervalError {
    /// The string is not one of the interval labels.
    ParseError(String),
    /// The number is not the length of any interval in minutes.
    ParseIntError(usize),
}

/// Errors of the data, optimisation and caching code whose payloads are plain values.
#[derive(Debug, Clone, PartialEq, Eq)]
pub enum KryptoError {
    InvalidCandlestickDateTime { when: When, timestamp: i64, symbol: String, interval: String },
    CandlestickParseError { value_name: String, timestamp: i64, symbol: String, interval: String },
    OpenTimeGreaterThanCloseTime { open_time: i64, close_time: i64, symbol: String, interval: String },
    ParseIntervalError(ParseIntervalError),
    BinanceApiError(String),
    DateConversionError(String),
    EmptyCandlesOrPredictions,
    UnequalCandlesAndPredictions(usize, usize),
    InvalidDatasetLengths(usize, usize, usize),
    InsufficientData { got: usize, required: usize, context: String },
    PlsInternalError(String),
    SymbolNotFound(String),
    IntervalNotFound(String),
    ConfigError(String),
    FitnessCalculationError(String),
    TechnicalIndicatorError { indicator: String, reason: String },
    WalkForwardError(String),
}

} // verus!
