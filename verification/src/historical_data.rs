//! The candles of every ticker of a run, and the checks that they line up.

use vstd::prelude::*;
use crate::krypto_error::DataError;
use crate::ticker_data::{TickerData, CandleStamp, check_valid, comparable, same_time, candles_comparable, validity, nan_check, first_mismatch};

verus! {

/// Milliseconds in a minute.
pub const MINS_TO_MILLIS: i64 = 60_000;

/// The result of checking ticker `t` against the first `upto` tickers.
pub open spec fn row_check(ts: Seq<TickerData>, t: int, upto: int) -> Result<(), DataError>
    decreases upto,
{
    if upto <= 0 {
        Ok(())
    } else {
        match row_check(ts, t, upto - 1) {
            Err(e) => Err(e),
            Ok(_) => if ts[t].ticker@ != ts[upto - 1].ticker@ { validity(ts[t], ts[upto - 1]) } else { Ok(()) },
        }
    }
}

/// The result of checking the first `upto` tickers: each for NaN values, then
/// against every ticker with another symbol.
pub open spec fn all_check(ts: Seq<TickerData>, upto: int) -> Result<(), DataError>
    decreases upto,
{
    if upto <= 0 {
        Ok(())
    } else {
        match all_check(ts, upto - 1) {
            Err(e) => Err(e),
            Ok(_) => match nan_check(ts[upto - 1]) {
                Err(e) => Err(e),
                Ok(_) => row_check(ts, upto - 1, ts.len() as int),
            },
        }
    }
}

/// Whether all close times of all tickers can be compared with each other.
pub open spec fn all_comparable(ts: Seq<TickerData>) -> bool {
    forall|t: int, o: int| 0 <= t < ts.len() && 0 <= o < ts.len()
        ==> candles_comparable(#[trigger] ts[t].candles@, #[trigger] ts[o].candles@)
}

/// The first candle closing at the same time as `close_time`.
pub open spec fn first_matching(candles: Seq<CandleStamp>, close_time: i64) -> Option<int>
    decreases candles.len(),
{
    if candles.len() == 0 {
        None
    } else {
        match first_matching(candles.drop_last(), close_time) {
            Some(i) => Some(i),
            None => if same_time(candles.last().close_time, close_time) { Some(candles.len() - 1) } else { None },
        }
    }
}

pub struct HistoricalData {
    pub tickers: Vec<TickerData>,
}

impl HistoricalData {
    pub fn new(tickers: Vec<TickerData>) -> (r: Self)
        ensures
            r.tickers@ == tickers@,
    {
        Self { tickers }
    }

    pub fn tickers(&self) -> (r: &Vec<TickerData>)
        ensures
            r@ == self.tickers@,
    {
        &self.tickers
    }

    /// Takes the tickers with their technical indicators computed, then checks
    /// each for NaN values and against every ticker with another symbol.
    pub fn calculate_technicals(&mut self, computed: Vec<TickerData>) -> (r: Result<(), DataError>)
        requires
            all_comparable(computed@),
        ensures
            final(self).tickers@ == computed@,
            r == all_check(computed@, computed@.len() as int),
            // the check passes exactly when no candle has a NaN value and the
            // tickers with different symbols close at the same times
            r is Ok <==> (!some_nan(computed@) && aligned(computed@)),
            some_nan(computed@) ==> r is Err,
    {
        proof { lemma_checks_mean_clean_and_aligned(computed@); }
        self.tickers = computed;
        let n = self.tickers.len();
        let mut t: usize = 0;
        while t < n
            invariant
                n == self.tickers@.len(),
                t <= n,
                self.tickers@ == computed@,
                all_comparable(computed@),
                all_check(computed@, t as int) == Ok::<(), DataError>(()),
                all_check(computed@, computed@.len() as int) is Ok <==> (!some_nan(computed@) && aligned(computed@)),
            decreases n - t,
        {
            let nan = self.tickers[t].find_nan();
            if nan.is_err() {
                proof {
                    assert(all_check(computed@, t as int + 1) == nan);
                    lemma_all_err(computed@, t as int + 1, n as int);
                }
                return nan;
            }
            assert(nan_check(computed@[t as int]) == Ok::<(), DataError>(()));
            let mut o: usize = 0;
            while o < n
                invariant
                    n == self.tickers@.len(),
                    t < n,
                    o <= n,
                    self.tickers@ == computed@,
                    all_comparable(computed@),
                    row_check(computed@, t as int, o as int) == Ok::<(), DataError>(()),
                    all_check(computed@, t as int) == Ok::<(), DataError>(()),
                    nan_check(computed@[t as int]) == Ok::<(), DataError>(()),
                    all_check(computed@, computed@.len() as int) is Ok <==> (!some_nan(computed@) && aligned(computed@)),
                decreases n - o,
            {
                if !crate::text::str_eq(self.tickers[t].ticker.as_str(), self.tickers[o].ticker.as_str()) {
                    assert(candles_comparable(computed@[t as int].candles@, computed@[o as int].candles@));
                    let v = self.tickers[t].ensure_validity(&self.tickers[o]);
                    if v.is_err() {
                        proof {
                            assert(row_check(computed@, t as int, o as int + 1) == v);
                            lemma_row_err(computed@, t as int, o as int + 1, n as int);
                            assert(all_check(computed@, t as int + 1) == v);
                            lemma_all_err(computed@, t as int + 1, n as int);
                        }
                        return v;
                    }
                }
                o = o + 1;
            }
            t = t + 1;
        }
        Ok(())
    }

    /// The position of the first candle of the first ticker that closes within
    /// ten seconds of `close_time`, or 0 when none does.
    pub fn find_matching_close_time_index(&self, close_time: i64) -> (r: usize)
        requires
            self.tickers@.len() > 0,
            forall|i: int| 0 <= i < self.tickers@[0].candles@.len()
                ==> comparable(#[trigger] self.tickers@[0].candles@[i].close_time, close_time),
        ensures
            r == (match first_matching(self.tickers@[0].candles@, close_time) {
                Some(i) => i,
                None => 0,
            }),
    {
        let candles = &self.tickers[0].candles;
        let mut i: usize = 0;
        while i < candles.len()
            invariant
                i <= candles@.len(),
                candles@ == self.tickers@[0].candles@,
                forall|j: int| 0 <= j < candles@.len() ==> comparable(#[trigger] candles@[j].close_time, close_time),
                first_matching(candles@.take(i as int), close_time) is None,
            decreases candles.len() - i,
        {
            assert(candles@.take(i + 1).drop_last() =~= candles@.take(i as int));
            assert(comparable(candles@[i as int].close_time, close_time));
            if check_valid(&candles[i].close_time, &close_time) {
                assert(first_matching(candles@.take(i + 1), close_time) == Some(i as int));
                proof { lemma_matching_prefix(candles@, close_time, i as int + 1); }
                return i;
            }
            i = i + 1;
        }
        assert(candles@.take(candles.len() as int) =~= candles@);
        0
    }
}

/// An error in the prefix of a row is the error of the whole row.
pub proof fn lemma_row_err(ts: Seq<TickerData>, t: int, k: int, n: int)
    requires
        0 <= k <= n,
        row_check(ts, t, k) is Err,
    ensures
        row_check(ts, t, n) == row_check(ts, t, k),
    decreases n - k,
{
    if k < n {
        lemma_row_err(ts, t, k + 1, n);
    }
}

/// An error among the first tickers is the error of all tickers.
pub proof fn lemma_all_err(ts: Seq<TickerData>, k: int, n: int)
    requires
        0 <= k <= n,
        all_check(ts, k) is Err,
    ensures
        all_check(ts, n) == all_check(ts, k),
    decreases n - k,
{
    if k < n {
        lemma_all_err(ts, k + 1, n);
    }
}

/// Once a prefix has a matching candle, the first match of the whole sequence is the prefix's.
pub proof fn lemma_matching_prefix(candles: Seq<CandleStamp>, close_time: i64, k: int)
    requires
        0 <= k <= candles.len(),
        first_matching(candles.take(k), close_time) is Some,
    ensures
        first_matching(candles, close_time) == first_matching(candles.take(k), close_time),
    decreases candles.len() - k,
{
    if k < candles.len() {
        assert(candles.take(k + 1).drop_last() =~= candles.take(k));
        lemma_matching_prefix(candles, close_time, k + 1);
    } else {
        assert(candles.take(k) =~= candles);
    }
}

/// Some candle of some ticker has a NaN value.
pub open spec fn some_nan(ts: Seq<TickerData>) -> bool {
    exists|t: int, c: int| 0 <= t < ts.len() && 0 <= c < ts[t].candles@.len() && #[trigger] ts[t].candles@[c].has_nan
}

/// Two candle sequences have the same length and close at the same times, position by position.
pub open spec fn same_closes(a: Seq<CandleStamp>, b: Seq<CandleStamp>) -> bool {
    &&& a.len() == b.len()
    &&& forall|k: int| 0 <= k < a.len() ==> same_time(#[trigger] a[k].close_time, b[k].close_time)
}

/// Every two tickers with different symbols have candles that line up.
pub open spec fn aligned(ts: Seq<TickerData>) -> bool {
    forall|t: int, o: int| 0 <= t < ts.len() && 0 <= o < ts.len() && ts[t].ticker@ != ts[o].ticker@
        ==> same_closes(#[trigger] ts[t].candles@, #[trigger] ts[o].candles@)
}

proof fn lemma_no_mismatch(a: Seq<CandleStamp>, b: Seq<CandleStamp>)
    requires
        a.len() <= b.len(),
    ensures
        first_mismatch(a, b) is None <==> forall|k: int| 0 <= k < a.len() ==> same_time(#[trigger] a[k].close_time, b[k].close_time),
    decreases a.len(),
{
    if a.len() > 0 {
        lemma_no_mismatch(a.drop_last(), b);
        let p = a.drop_last();
        assert forall|k: int| 0 <= k < p.len() implies p[k] == a[k] by {}
        if first_mismatch(a, b) is None {
            assert forall|k: int| 0 <= k < a.len() implies same_time(#[trigger] a[k].close_time, b[k].close_time) by {
                if k < p.len() {
                    assert(same_time(p[k].close_time, b[k].close_time));
                }
            }
        } else if first_mismatch(p, b) is Some {
            let k = choose|k: int| 0 <= k < p.len() && !same_time(#[trigger] p[k].close_time, b[k].close_time);
            assert(!same_time(a[k].close_time, b[k].close_time));
        } else {
            assert(!same_time(a[a.len() - 1].close_time, b[a.len() - 1].close_time));
        }
    }
}

proof fn lemma_validity_ok(x: TickerData, y: TickerData)
    ensures
        validity(x, y) is Ok <==> same_closes(x.candles@, y.candles@),
{
    if x.candles@.len() == y.candles@.len() {
        lemma_no_mismatch(x.candles@, y.candles@);
    }
}

proof fn lemma_row_ok(ts: Seq<TickerData>, t: int, upto: int)
    requires
        0 <= upto <= ts.len(),
    ensures
        row_check(ts, t, upto) is Ok <==> forall|o: int| 0 <= o < upto && ts[t].ticker@ != ts[o].ticker@
            ==> same_closes(ts[t].candles@, #[trigger] ts[o].candles@),
    decreases upto,
{
    if upto > 0 {
        lemma_row_ok(ts, t, upto - 1);
        lemma_validity_ok(ts[t], ts[upto - 1]);
    }
}

proof fn lemma_all_ok(ts: Seq<TickerData>, upto: int)
    requires
        0 <= upto <= ts.len(),
    ensures
        all_check(ts, upto) is Ok <==> forall|t: int| 0 <= t < upto
            ==> (#[trigger] nan_check(ts[t])) is Ok && row_check(ts, t, ts.len() as int) is Ok,
    decreases upto,
{
    if upto > 0 {
        lemma_all_ok(ts, upto - 1);
    }
}

/// The checks of a run of tickers pass exactly when no candle has a NaN value
/// and every two tickers with different symbols close at the same times.
pub proof fn lemma_checks_mean_clean_and_aligned(ts: Seq<TickerData>)
    ensures
        all_check(ts, ts.len() as int) is Ok <==> (!some_nan(ts) && aligned(ts)),
{
    lemma_all_ok(ts, ts.len() as int);
    if all_check(ts, ts.len() as int) is Ok {
        assert forall|t: int, c: int| 0 <= t < ts.len() && 0 <= c < ts[t].candles@.len()
            implies !(#[trigger] ts[t].candles@[c].has_nan) by {
            assert(nan_check(ts[t]) is Ok);
        }
        assert forall|t: int, o: int| 0 <= t < ts.len() && 0 <= o < ts.len() && ts[t].ticker@ != ts[o].ticker@
            implies same_closes(#[trigger] ts[t].candles@, #[trigger] ts[o].candles@) by {
            assert(nan_check(ts[t]) is Ok);
            lemma_row_ok(ts, t, ts.len() as int);
        }
    }
    if !some_nan(ts) && aligned(ts) {
        assert forall|t: int| 0 <= t < ts.len() implies
            (#[trigger] nan_check(ts[t])) is Ok && row_check(ts, t, ts.len() as int) is Ok by {
            if exists|i: int| 0 <= i < ts[t].candles@.len() && ts[t].candles@[i].has_nan {
                let i = choose|i: int| 0 <= i < ts[t].candles@.len() && ts[t].candles@[i].has_nan;
                assert(ts[t].candles@[i].has_nan);
            }
            lemma_row_ok(ts, t, ts.len() as int);
            assert forall|o: int| 0 <= o < ts.len() && ts[t].ticker@ != ts[o].ticker@
                implies same_closes(ts[t].candles@, #[trigger] ts[o].candles@) by {
                assert(same_closes(ts[t].candles@, ts[o].candles@));
            }
        }
    }
}

} // verus!
