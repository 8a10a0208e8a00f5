//! Splitting a time range into the chunks that are fetched one request at a time.

use vstd::prelude::*;
use crate::data::interval::{Interval, spec_label, spec_minutes, lemma_label_gives_minutes};
use crate::text::label_minutes;
use crate::error::KryptoError;
use crate::historical_data::MINS_TO_MILLIS;

verus! {

/// The chunks `[start, next)` that cover `[start, end)`, each at most `step` long.
pub open spec fn chunks(start: int, end: int, step: int) -> Seq<(i64, i64)>
    decreases end - start,
{
    if step <= 0 || start >= end {
        Seq::empty()
    } else {
        let next = if start + step > end { end } else { start + step };
        seq![(start as i64, next as i64)] + chunks(next, end, step)
    }
}

/// The length of one chunk: a thousand candles of the interval, in milliseconds.
pub open spec fn chunk_millis(interval: Interval) -> int {
    spec_minutes(interval) * 60_000 * 1000
}

/// Splits `[start_time, end_time)` (in milliseconds) into chunks of a thousand
/// candles of the interval.
pub fn get_timestamps(start_time: i64, end_time: i64, interval: Interval) -> (r: Result<Vec<(i64, i64)>, KryptoError>)
    requires
        start_time < end_time ==> end_time + chunk_millis(interval) <= i64::MAX,
    ensures
        r matches Ok(v) && v@ == chunks(start_time as int, end_time as int, chunk_millis(interval)),
{
    let mut timestamps: Vec<(i64, i64)> = Vec::new();
    let mut current_time = start_time;
    let interval_millis = interval.to_minutes() * MINS_TO_MILLIS;
    let step = interval_millis * 1000;
    while current_time < end_time
        invariant
            step == chunk_millis(interval),
            step > 0,
            start_time < end_time ==> end_time + step <= i64::MAX,
            start_time <= current_time,
            start_time < end_time ==> current_time <= end_time,
            timestamps@ + chunks(current_time as int, end_time as int, step as int)
                == chunks(start_time as int, end_time as int, step as int),
        decreases end_time - current_time,
    {
        let next_time = current_time + step;
        let next_time = if next_time > end_time { end_time } else { next_time };
        let ghost before = timestamps@;
        timestamps.push((current_time, next_time));
        assert(timestamps@ + chunks(next_time as int, end_time as int, step as int)
            =~= before + chunks(current_time as int, end_time as int, step as int));
        current_time = next_time;
    }
    assert(timestamps@ =~= timestamps@ + chunks(current_time as int, end_time as int, step as int));
    Ok(timestamps)
}

/// A request chunk spans a thousand candles of the interval, whatever the
/// interval: the minutes its label names, in milliseconds, a thousand times.
pub proof fn lemma_chunk_is_thousand_candles(interval: Interval)
    ensures
        label_minutes(spec_label(interval)) matches Some(m) && chunk_millis(interval) == m * 60_000 * 1000,
{
    lemma_label_gives_minutes(interval);
}

} // verus!
