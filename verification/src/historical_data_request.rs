//! The time window of a historical data request and its split into fetches.

use vstd::prelude::*;
use crate::historical_data::MINS_TO_MILLIS;

verus! {

/// A request for the candles between two times, in milliseconds.
pub struct HistoricalDataRequest {
    pub start_time: i64,
    pub end_time: i64,
}

/// The start times `start, start + step, ...` below `end`, as the exchange takes them.
pub open spec fn chunk_starts(start: int, end: int, step: int) -> Seq<u64>
    decreases end - start,
{
    if step <= 0 || start >= end {
        Seq::empty()
    } else if start + step >= end {
        seq![start as u64]
    } else {
        seq![start as u64] + chunk_starts(start + step, end, step)
    }
}

impl HistoricalDataRequest {
    /// A request ending at `end_time` that spans `interval_minutes * periods * depth` minutes.
    pub fn new(end_time: i64, interval_minutes: usize, periods: usize, depth: usize) -> (r: Self)
        requires
            interval_minutes * periods <= usize::MAX,
            interval_minutes * periods * depth <= usize::MAX,
            end_time - interval_minutes * periods * depth * 60_000 >= i64::MIN,
            interval_minutes * periods * depth * 60_000 <= i64::MAX,
        ensures
            r.end_time == end_time,
            r.start_time == end_time - interval_minutes * periods * depth * 60_000,
    {
        let span_minutes = (interval_minutes * periods * depth) as i64;
        let start_time = end_time - (span_minutes * MINS_TO_MILLIS);
        Self { start_time, end_time }
    }

    /// The start times of the fetches, each covering a thousand candles of `interval_minutes`.
    pub fn fetch_start_times(&self, interval_minutes: usize) -> (r: Vec<u64>)
        requires
            1 <= interval_minutes,
            60_000_000 * interval_minutes <= i64::MAX,
            self.start_time < self.end_time ==> self.end_time + 60_000_000 * interval_minutes <= i64::MAX,
        ensures
            r@ == chunk_starts(self.start_time as int, self.end_time as int, 60_000_000 * interval_minutes),
    {
        assert(interval_minutes <= 153_722_867_280_u64);
        let minutes = interval_minutes as i64;
        assert(minutes == interval_minutes);
        let addition = MINS_TO_MILLIS * 1000 * minutes;
        let mut start_time = self.start_time;
        let mut start_times: Vec<u64> = Vec::new();
        while start_time < self.end_time
            invariant
                addition == 60_000_000 * interval_minutes,
                addition > 0,
                self.start_time < self.end_time ==> self.end_time + addition <= i64::MAX,
                self.start_time <= start_time,
                start_time == self.start_time || start_time < self.end_time + addition,
                start_times@ + chunk_starts(start_time as int, self.end_time as int, addition as int)
                    == chunk_starts(self.start_time as int, self.end_time as int, addition as int),
            decreases self.end_time + addition - start_time,
        {
            let end_time = start_time + addition;
            let ghost before = start_times@;
            start_times.push(start_time as u64);
            assert(start_times@ + chunk_starts(end_time as int, self.end_time as int, addition as int)
                =~= before + chunk_starts(start_time as int, self.end_time as int, addition as int));
            start_time = end_time;
        }
        assert(chunk_starts(start_time as int, self.end_time as int, addition as int) =~= Seq::<u64>::empty());
        assert(start_times@ =~= start_times@ + chunk_starts(start_time as int, self.end_time as int, addition as int));
        start_times
    }
}

} // verus!
