//! The candles of one ticker, and the checks that tickers line up in time.

use vstd::prelude::*;
use crate::krypto_error::DataError;
use crate::text::owned;

verus! {

/// The largest difference between two close times that still counts as the same time (10 s).
pub const MAX_TIME_DIFFERENCE: i64 = 10_000;

/// Whether the difference of two times can be taken and made positive without overflow.
pub open spec fn comparable(time_1: i64, time_2: i64) -> bool {
    i64::MIN < time_1 - time_2 <= i64::MAX
}

/// Whether two close times count as the same time.
pub open spec fn same_time(time_1: i64, time_2: i64) -> bool {
    -MAX_TIME_DIFFERENCE <= time_1 - time_2 <= MAX_TIME_DIFFERENCE
}

/// Whether two close times are at most ten seconds apart.
pub fn check_valid(time_1: &i64, time_2: &i64) -> (r: bool)
    requires
        comparable(*time_1, *time_2),
    ensures
        r == same_time(*time_1, *time_2),
{
    let d = *time_1 - *time_2;
    let a = if d < 0 { -d } else { d };
    a <= MAX_TIME_DIFFERENCE
}

/// What the checks read of a candle: its close time, and whether any of its values is NaN.
#[derive(Debug, Clone, Copy, PartialEq, Eq, Structural)]
pub struct CandleStamp {
    pub close_time: i64,
    pub has_nan: bool,
}

/// The candles of one ticker, in time order.
#[derive(Debug)]
pub struct TickerData {
    pub ticker: String,
    pub candles: Vec<CandleStamp>,
}

impl Clone for TickerData {
    fn clone(&self) -> (r: Self)
        ensures
            r.ticker == self.ticker,
            r.candles@ == self.candles@,
    {
        TickerData { ticker: self.ticker.clone(), candles: self.candles.clone() }
    }
}

/// The first position at which two candle sequences close at different times.
pub open spec fn first_mismatch(a: Seq<CandleStamp>, b: Seq<CandleStamp>) -> Option<int>
    decreases a.len(),
{
    if a.len() == 0 {
        None
    } else {
        match first_mismatch(a.drop_last(), b) {
            Some(i) => Some(i),
            None => if !same_time(a.last().close_time, b[a.len() - 1].close_time) { Some(a.len() - 1) } else { None },
        }
    }
}

/// Whether all close times at the same positions of two candle sequences are comparable.
pub open spec fn candles_comparable(a: Seq<CandleStamp>, b: Seq<CandleStamp>) -> bool {
    forall|i: int| 0 <= i < a.len() && i < b.len() ==> comparable(#[trigger] a[i].close_time, #[trigger] b[i].close_time)
}

/// The answer of `ensure_validity`.
pub open spec fn validity(x: TickerData, y: TickerData) -> Result<(), DataError> {
    if x.candles@.len() != y.candles@.len() {
        Err(DataError::NotEnoughData(x.ticker))
    } else {
        match first_mismatch(x.candles@, y.candles@) {
            Some(i) => Err(DataError::DataTimeMismatch(x.ticker, y.ticker, x.candles@[i].close_time, y.candles@[i].close_time)),
            None => Ok(()),
        }
    }
}

/// The answer of `find_nan`.
pub open spec fn nan_check(x: TickerData) -> Result<(), DataError> {
    if exists|i: int| 0 <= i < x.candles@.len() && x.candles@[i].has_nan {
        Err(DataError::TickerHasNaN { ticker: x.ticker })
    } else {
        Ok(())
    }
}

/// The header row of a ticker's CSV file, followed by the technical indicator names.
pub open spec fn csv_header_row(technical_names: Seq<String>) -> Seq<Seq<char>> {
    seq!["Open"@, "High"@, "Low"@, "Close"@, "Volume"@, "Percentage Change"@, "Date"@]
        + technical_names.map_values(|s: String| s@)
}

impl TickerData {
    pub fn new(ticker: String, candles: Vec<CandleStamp>) -> (r: Self)
        ensures
            r.ticker == ticker,
            r.candles@ == candles@,
    {
        Self { ticker, candles }
    }

    pub fn ticker(&self) -> (r: &String)
        ensures
            *r == self.ticker,
    {
        &self.ticker
    }

    pub fn candles(&self) -> (r: &Vec<CandleStamp>)
        ensures
            r@ == self.candles@,
    {
        &self.candles
    }

    /// Checks that another ticker has as many candles, closing at the same times.
    pub fn ensure_validity(&self, other: &TickerData) -> (r: Result<(), DataError>)
        requires
            candles_comparable(self.candles@, other.candles@),
        ensures
            r == validity(*self, *other),
    {
        if self.candles.len() != other.candles.len() {
            return Err(DataError::NotEnoughData(self.ticker.clone()));
        }
        let mut i: usize = 0;
        while i < self.candles.len()
            invariant
                i <= self.candles@.len(),
                self.candles@.len() == other.candles@.len(),
                candles_comparable(self.candles@, other.candles@),
                first_mismatch(self.candles@.take(i as int), other.candles@) is None,
            decreases self.candles.len() - i,
        {
            assert(self.candles@.take(i + 1).drop_last() =~= self.candles@.take(i as int));
            assert(comparable(self.candles@[i as int].close_time, other.candles@[i as int].close_time));
            if !check_valid(&self.candles[i].close_time, &other.candles[i].close_time) {
                assert(first_mismatch(self.candles@.take(i + 1), other.candles@) == Some(i as int));
                proof { lemma_mismatch_prefix(self.candles@, other.candles@, i as int + 1); }
                return Err(DataError::DataTimeMismatch(
                    self.ticker.clone(),
                    other.ticker.clone(),
                    self.candles[i].close_time,
                    other.candles[i].close_time,
                ));
            }
            i = i + 1;
        }
        assert(self.candles@.take(self.candles.len() as int) =~= self.candles@);
        Ok(())
    }

    /// The header row of the ticker's CSV file, given the technical indicator names.
    pub fn csv_headers(technical_names: &[String]) -> (r: Vec<String>)
        ensures
            r@.map_values(|s: String| s@) == csv_header_row(technical_names@),
    {
        let mut headers: Vec<String> = Vec::new();
        headers.push(owned("Open"));
        headers.push(owned("High"));
        headers.push(owned("Low"));
        headers.push(owned("Close"));
        headers.push(owned("Volume"));
        headers.push(owned("Percentage Change"));
        headers.push(owned("Date"));
        let ghost fixed = seq!["Open"@, "High"@, "Low"@, "Close"@, "Volume"@, "Percentage Change"@, "Date"@];
        let mut i: usize = 0;
        while i < technical_names.len()
            invariant
                i <= technical_names@.len(),
                headers@.len() == 7 + i,
                fixed == seq!["Open"@, "High"@, "Low"@, "Close"@, "Volume"@, "Percentage Change"@, "Date"@],
                forall|k: int| 0 <= k < 7 ==> headers@[k]@ == fixed[k],
                forall|k: int| 0 <= k < i ==> headers@[7 + k]@ == technical_names@[k]@,
            decreases technical_names.len() - i,
        {
            headers.push(technical_names[i].clone());
            i = i + 1;
        }
        assert(headers@.map_values(|s: String| s@) =~= csv_header_row(technical_names@));
        headers
    }

    /// Fails when a candle of the ticker has a NaN value.
    pub fn find_nan(&self) -> (r: Result<(), DataError>)
        ensures
            r == nan_check(*self),
    {
        let mut i: usize = 0;
        while i < self.candles.len()
            invariant
                i <= self.candles@.len(),
                forall|j: int| 0 <= j < i ==> !self.candles@[j].has_nan,
            decreases self.candles.len() - i,
        {
            if self.candles[i].has_nan {
                return Err(DataError::TickerHasNaN { ticker: self.ticker.clone() });
            }
            i = i + 1;
        }
        Ok(())
    }
}

/// Once a prefix has a mismatch, the whole sequence's first mismatch is the prefix's.
pub proof fn lemma_mismatch_prefix(a: Seq<CandleStamp>, b: Seq<CandleStamp>, k: int)
    requires
        0 <= k <= a.len(),
        first_mismatch(a.take(k), b) is Some,
    ensures
        first_mismatch(a, b) == first_mismatch(a.take(k), b),
    decreases a.len() - k,
{
    if k < a.len() {
        assert(a.take(k + 1).drop_last() =~= a.take(k));
        lemma_mismatch_prefix(a, b, k + 1);
    } else {
        assert(a.take(k) =~= a);
    }
}

} // verus!
