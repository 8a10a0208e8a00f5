//! How many candles an experiment loads: the configured lookback, or the
//! number of candles of the interval between the start and end dates.

use vstd::prelude::*;
use crate::data::interval::{Interval, spec_label, spec_minutes};
use crate::text::{label_minutes, lemma_one_digit_label, lemma_two_digit_label, lowercase, owned, str_eq, to_lowercase};

verus! {

/// The number of seconds of a Binance interval label.
pub open spec fn spec_interval_seconds(s: Seq<char>) -> Option<u64> {
    if s == "1m"@ { Some(60) }
    else if s == "3m"@ { Some(180) }
    else if s == "5m"@ { Some(300) }
    else if s == "15m"@ { Some(900) }
    else if s == "30m"@ { Some(1800) }
    else if s == "1h"@ { Some(3600) }
    else if s == "2h"@ { Some(7200) }
    else if s == "4h"@ { Some(14_400) }
    else if s == "6h"@ { Some(21_600) }
    else if s == "8h"@ { Some(28_800) }
    else if s == "12h"@ { Some(43_200) }
    else if s == "1d"@ { Some(86_400) }
    else if s == "3d"@ { Some(259_200) }
    else if s == "1w"@ { Some(604_800) }
    else { None }
}

/// The number of seconds of a Binance interval label, if the label is known.
pub fn interval_to_seconds(interval: &str) -> (r: Option<u64>)
    ensures
        r == spec_interval_seconds(interval@),
{
    if str_eq(interval, "1m") { Some(60) }
    else if str_eq(interval, "3m") { Some(3 * 60) }
    else if str_eq(interval, "5m") { Some(5 * 60) }
    else if str_eq(interval, "15m") { Some(15 * 60) }
    else if str_eq(interval, "30m") { Some(30 * 60) }
    else if str_eq(interval, "1h") { Some(60 * 60) }
    else if str_eq(interval, "2h") { Some(2 * 60 * 60) }
    else if str_eq(interval, "4h") { Some(4 * 60 * 60) }
    else if str_eq(interval, "6h") { Some(6 * 60 * 60) }
    else if str_eq(interval, "8h") { Some(8 * 60 * 60) }
    else if str_eq(interval, "12h") { Some(12 * 60 * 60) }
    else if str_eq(interval, "1d") { Some(24 * 60 * 60) }
    else if str_eq(interval, "3d") { Some(3 * 24 * 60 * 60) }
    else if str_eq(interval, "1w") { Some(7 * 24 * 60 * 60) }
    else { None }
}

/// What `chrono::DateTime::parse_from_rfc3339` gives for a text, as the Unix
/// seconds of the instant and the nanoseconds past that second (from one
/// billion on within a leap second).
pub uninterp spec fn rfc3339_instant(s: Seq<char>) -> Option<(i64, u32)>;

/// What `chrono::NaiveDate::parse_from_str` gives for a text and a format, as
/// the Unix seconds of that day's midnight in UTC.
pub uninterp spec fn naive_date_midnight_seconds(s: Seq<char>, fmt: Seq<char>) -> Option<i64>;

/// Calls `chrono::DateTime::parse_from_rfc3339` and takes the Unix timestamp and
/// the sub-second nanoseconds of the result; the contract only names the result.
#[verifier::external_body]
fn parse_rfc3339_instant(s: &str) -> (r: Option<(i64, u32)>)
    ensures
        r == rfc3339_instant(s@),
{
    chrono::DateTime::parse_from_rfc3339(s).ok().map(|d| (d.timestamp(), d.timestamp_subsec_nanos()))
}

/// Calls `chrono::NaiveDate::parse_from_str` and takes the Unix timestamp of
/// the date's midnight in UTC; the contract only names the result.
#[verifier::external_body]
fn parse_naive_date_midnight_seconds(s: &str, fmt: &str) -> (r: Option<i64>)
    ensures
        r == naive_date_midnight_seconds(s@, fmt@),
{
    chrono::NaiveDate::parse_from_str(s, fmt).ok().map(|d| d.and_time(chrono::NaiveTime::MIN).and_utc().timestamp())
}

/// An instant given as RFC 3339, or else as `YYYY-MM-DD` (taken at midnight
/// UTC), as Unix seconds and nanoseconds past that second.
pub open spec fn spec_date_instant(s: Seq<char>) -> Option<(i64, u32)> {
    match rfc3339_instant(s) {
        Some(t) => Some(t),
        None => match naive_date_midnight_seconds(s, "%Y-%m-%d"@) {
            Some(d) => Some((d, 0u32)),
            None => None,
        },
    }
}

/// Reads an instant as RFC 3339, or else as `YYYY-MM-DD` at midnight UTC.
pub fn parse_date_instant(s: &str) -> (r: Option<(i64, u32)>)
    ensures
        r == spec_date_instant(s@),
{
    match parse_rfc3339_instant(s) {
        Some(t) => Some(t),
        None => match parse_naive_date_midnight_seconds(s, "%Y-%m-%d") {
            Some(d) => Some((d, 0u32)),
            None => None,
        },
    }
}

/// Whether instant `a` comes before instant `b` (seconds first, then the nanoseconds).
pub open spec fn instant_before(a: (i64, u32), b: (i64, u32)) -> bool {
    a.0 < b.0 || (a.0 == b.0 && a.1 < b.1)
}

/// The second of the UTC day of a Unix timestamp.
pub open spec fn second_of_day(t: i64) -> int {
    (t as int) % 86400
}

/// The nanoseconds from `start` to `end`, as subtracting two UTC date-times
/// counts them: whole seconds plus the difference of the nanosecond parts,
/// with one more second when the earlier end lies within a leap second.
pub open spec fn elapsed_nanos(start: (i64, u32), end: (i64, u32)) -> int {
    let adjust: int = if second_of_day(end.0) > second_of_day(start.0) && start.1 >= 1_000_000_000 {
        1
    } else if second_of_day(end.0) < second_of_day(start.0) && end.1 >= 1_000_000_000 {
        -1
    } else {
        0
    };
    (end.0 - start.0 + adjust) * 1_000_000_000 + (end.1 - start.1)
}

/// The whole seconds of a span of nanoseconds, truncated toward zero.
pub open spec fn whole_seconds(nanos: int) -> int {
    if nanos >= 0 { nanos / 1_000_000_000 } else { -((-nanos) / 1_000_000_000) }
}

/// Why the number of candles could not be worked out.
#[derive(Debug, Clone, PartialEq, Eq)]
pub enum LookbackError {
    InvalidStartDate(String),
    InvalidEndDate(String),
    EndNotAfterStart,
    UnsupportedInterval(String),
}

/// The configured lookback, at least one and at most `u32::MAX`.
pub open spec fn spec_lookback_from_config(lookback: int) -> int {
    if lookback > u32::MAX { u32::MAX as int } else if lookback < 1 { 1 } else { lookback }
}

/// The number of candles of `interval_secs` seconds that cover a span of
/// `secs` whole seconds (at least one interval), rounded up, at most `u32::MAX`.
pub open spec fn spec_lookback_from_seconds(secs: int, interval_secs: int) -> int {
    let span = if secs >= interval_secs { secs } else { interval_secs };
    let estimated = (span + interval_secs - 1) / interval_secs;
    let at_least_one = if estimated >= 1 { estimated } else { 1 };
    if at_least_one > u32::MAX { u32::MAX as int } else { at_least_one }
}

/// The configured lookback, clamped to `[1, u32::MAX]`.
pub fn lookback_from_config(lookback: usize) -> (r: u32)
    ensures
        r == spec_lookback_from_config(lookback as int),
{
    let bounded: u32 = if lookback > 0xFFFF_FFFF { 0xFFFF_FFFF } else { lookback as u32 };
    if bounded < 1 { 1 } else { bounded }
}

/// The number of candles in a span of whole seconds, rounded up, clamped to `[1, u32::MAX]`.
pub fn lookback_from_seconds(secs: i128, interval_secs: u64) -> (r: u32)
    requires
        interval_secs > 0,
        -0x1_0000_0000_0000_0000_0000_0000 <= secs <= 0x1_0000_0000_0000_0000_0000_0000,
    ensures
        r == spec_lookback_from_seconds(secs as int, interval_secs as int),
{
    let iv: i128 = interval_secs as i128;
    let span: i128 = if secs >= iv { secs } else { iv };
    let estimated: i128 = (span + iv - 1) / iv;
    let at_least_one: i128 = if estimated >= 1 { estimated } else { 1 };
    if at_least_one > 0xFFFF_FFFF { 0xFFFF_FFFF } else { at_least_one as u32 }
}

fn day_second(t: i64) -> (r: i64)
    ensures
        r == second_of_day(t),
{
    let r = t % 86400;
    if r < 0 { r + 86400 } else { r }
}

/// The whole seconds from `start` to `end`, as the subtraction of two UTC
/// date-times gives them.
pub fn elapsed_whole_seconds(start: (i64, u32), end: (i64, u32)) -> (r: i128)
    ensures
        r == whole_seconds(elapsed_nanos(start, end)),
        -0x1_0000_0000_0000_0000_0000_0000 <= r <= 0x1_0000_0000_0000_0000_0000_0000,
{
    let sod_start = day_second(start.0);
    let sod_end = day_second(end.0);
    let adjust: i128 = if sod_end > sod_start && start.1 >= 1_000_000_000 {
        1
    } else if sod_end < sod_start && end.1 >= 1_000_000_000 {
        -1
    } else {
        0
    };
    let secs: i128 = end.0 as i128 - start.0 as i128 + adjust;
    assert(-0x1_0000_0000_0000_0001 <= secs <= 0x1_0000_0000_0000_0001);
    assert(-0x1_0000_0000_0000_0001 * 1_000_000_000 <= secs * 1_000_000_000 <= 0x1_0000_0000_0000_0001 * 1_000_000_000)
        by (nonlinear_arith)
        requires -0x1_0000_0000_0000_0001 <= secs <= 0x1_0000_0000_0000_0001;
    let nanos: i128 = secs * 1_000_000_000 + (end.1 as i128 - start.1 as i128);
    assert(nanos == elapsed_nanos(start, end));
    if nanos >= 0 {
        nanos / 1_000_000_000
    } else {
        -((-nanos) / 1_000_000_000)
    }
}

/// The answer of `resolve_lookback_candles`.
pub open spec fn spec_resolve_lookback(
    lookback: Option<usize>,
    interval: Seq<char>,
    start_date: Seq<char>,
    end_date: Option<Seq<char>>,
    now: (i64, u32),
    r: Result<u32, LookbackError>,
) -> bool {
    match lookback {
        Some(l) => r == Ok::<u32, LookbackError>(spec_lookback_from_config(l as int) as u32),
        None => match spec_date_instant(start_date) {
            None => r matches Err(LookbackError::InvalidStartDate(s)) && s@ == start_date,
            Some(start) => {
                let end_parsed = match end_date { Some(e) => spec_date_instant(e), None => Some(now) };
                match end_parsed {
                    None => r matches Err(LookbackError::InvalidEndDate(s)) && end_date == Some(s@),
                    Some(end) => if !instant_before(start, end) {
                        r == Err::<u32, LookbackError>(LookbackError::EndNotAfterStart)
                    } else {
                        match spec_interval_seconds(interval) {
                            None => r matches Err(LookbackError::UnsupportedInterval(s)) && s@ == interval,
                            Some(iv) => r == Ok::<u32, LookbackError>(
                                spec_lookback_from_seconds(whole_seconds(elapsed_nanos(start, end)), iv as int) as u32),
                        }
                    },
                }
            },
        },
    }
}

/// The number of candles to load: the configured lookback when there is one;
/// else the candles of the interval between the start date and the end date
/// (or `now`, the current instant as Unix seconds and nanoseconds, when there
/// is no end date).
pub fn resolve_lookback_candles(
    lookback: Option<usize>,
    interval: &str,
    start_date: &str,
    end_date: Option<&str>,
    now: (i64, u32),
) -> (r: Result<u32, LookbackError>)
    ensures
        spec_resolve_lookback(lookback, interval@, start_date@, match end_date { Some(e) => Some(e@), None => None }, now, r),
{
    if let Some(l) = lookback {
        return Ok(lookback_from_config(l));
    }
    let start = match parse_date_instant(start_date) {
        Some(t) => t,
        None => return Err(LookbackError::InvalidStartDate(owned(start_date))),
    };
    let end = match end_date {
        Some(e) => match parse_date_instant(e) {
            Some(t) => t,
            None => return Err(LookbackError::InvalidEndDate(owned(e))),
        },
        None => now,
    };
    if !(start.0 < end.0 || (start.0 == end.0 && start.1 < end.1)) {
        return Err(LookbackError::EndNotAfterStart);
    }
    let iv = match interval_to_seconds(interval) {
        Some(v) => v,
        None => return Err(LookbackError::UnsupportedInterval(owned(interval))),
    };
    proof { lemma_interval_seconds_positive(interval@); }
    Ok(lookback_from_seconds(elapsed_whole_seconds(start, end), iv))
}

/// A known interval label lasts sixty seconds for each minute that the label
/// names ("15m" is 900 seconds, "4h" is 14 400).
pub proof fn lemma_interval_seconds_match_label(s: Seq<char>)
    ensures
        spec_interval_seconds(s) matches Some(v) ==> (label_minutes(s) matches Some(m) && v == 60 * m),
{
    reveal_strlit("1m");
    reveal_strlit("3m");
    reveal_strlit("5m");
    reveal_strlit("15m");
    reveal_strlit("30m");
    reveal_strlit("1h");
    reveal_strlit("2h");
    reveal_strlit("4h");
    reveal_strlit("6h");
    reveal_strlit("8h");
    reveal_strlit("12h");
    reveal_strlit("1d");
    reveal_strlit("3d");
    reveal_strlit("1w");
    if s == "1m"@ {
        assert("1m"@ =~= seq!['1', 'm']);
        lemma_one_digit_label('1', 'm', 1, 1);
    }
    else if s == "3m"@ {
        assert("3m"@ =~= seq!['3', 'm']);
        lemma_one_digit_label('3', 'm', 3, 1);
    }
    else if s == "5m"@ {
        assert("5m"@ =~= seq!['5', 'm']);
        lemma_one_digit_label('5', 'm', 5, 1);
    }
    else if s == "15m"@ {
        assert("15m"@ =~= seq!['1', '5', 'm']);
        lemma_two_digit_label('1', '5', 'm', 15, 1);
    }
    else if s == "30m"@ {
        assert("30m"@ =~= seq!['3', '0', 'm']);
        lemma_two_digit_label('3', '0', 'm', 30, 1);
    }
    else if s == "1h"@ {
        assert("1h"@ =~= seq!['1', 'h']);
        lemma_one_digit_label('1', 'h', 1, 60);
    }
    else if s == "2h"@ {
        assert("2h"@ =~= seq!['2', 'h']);
        lemma_one_digit_label('2', 'h', 2, 60);
    }
    else if s == "4h"@ {
        assert("4h"@ =~= seq!['4', 'h']);
        lemma_one_digit_label('4', 'h', 4, 60);
    }
    else if s == "6h"@ {
        assert("6h"@ =~= seq!['6', 'h']);
        lemma_one_digit_label('6', 'h', 6, 60);
    }
    else if s == "8h"@ {
        assert("8h"@ =~= seq!['8', 'h']);
        lemma_one_digit_label('8', 'h', 8, 60);
    }
    else if s == "12h"@ {
        assert("12h"@ =~= seq!['1', '2', 'h']);
        lemma_two_digit_label('1', '2', 'h', 12, 60);
    }
    else if s == "1d"@ {
        assert("1d"@ =~= seq!['1', 'd']);
        lemma_one_digit_label('1', 'd', 1, 1440);
    }
    else if s == "3d"@ {
        assert("3d"@ =~= seq!['3', 'd']);
        lemma_one_digit_label('3', 'd', 3, 1440);
    }
    else if s == "1w"@ {
        assert("1w"@ =~= seq!['1', 'w']);
        lemma_one_digit_label('1', 'w', 1, 10080);
    }
}

/// Every candle interval but the month has its seconds known here: sixty per
/// minute of the interval.
pub proof fn lemma_interval_seconds_cover(i: Interval)
    ensures
        i != Interval::OneMonth ==> spec_interval_seconds(spec_label(i)) == Some((60 * spec_minutes(i)) as u64),
{
    reveal_strlit("1m");
    assert("1m"@ =~= seq!['1', 'm']);
    reveal_strlit("3m");
    assert("3m"@ =~= seq!['3', 'm']);
    reveal_strlit("5m");
    assert("5m"@ =~= seq!['5', 'm']);
    reveal_strlit("15m");
    assert("15m"@ =~= seq!['1', '5', 'm']);
    reveal_strlit("30m");
    assert("30m"@ =~= seq!['3', '0', 'm']);
    reveal_strlit("1h");
    assert("1h"@ =~= seq!['1', 'h']);
    reveal_strlit("2h");
    assert("2h"@ =~= seq!['2', 'h']);
    reveal_strlit("4h");
    assert("4h"@ =~= seq!['4', 'h']);
    reveal_strlit("6h");
    assert("6h"@ =~= seq!['6', 'h']);
    reveal_strlit("8h");
    assert("8h"@ =~= seq!['8', 'h']);
    reveal_strlit("12h");
    assert("12h"@ =~= seq!['1', '2', 'h']);
    reveal_strlit("1d");
    assert("1d"@ =~= seq!['1', 'd']);
    reveal_strlit("3d");
    assert("3d"@ =~= seq!['3', 'd']);
    reveal_strlit("1w");
    assert("1w"@ =~= seq!['1', 'w']);
}

/// Every known interval has a positive number of seconds.
pub proof fn lemma_interval_seconds_positive(s: Seq<char>)
    ensures
        spec_interval_seconds(s) matches Some(v) ==> v > 0,
{
}

/// The columns that every strategy reads, in the order they are checked.
pub open spec fn required_columns() -> Seq<Seq<char>> {
    seq!["open"@, "high"@, "low"@, "close"@, "volume"@]
}

/// Whether one of `columns` is named `name`.
pub open spec fn has_column(columns: Seq<String>, name: Seq<char>) -> bool {
    exists|i: int| 0 <= i < columns.len() && (#[trigger] columns[i])@ == name
}

/// `k` is the position of the first required column that is missing.
pub open spec fn first_missing_column(columns: Seq<String>, k: int) -> bool {
    &&& 0 <= k < required_columns().len()
    &&& !has_column(columns, required_columns()[k])
    &&& forall|j: int| 0 <= j < k ==> has_column(columns, #[trigger] required_columns()[j])
}

/// The message for a required column that a strategy's data lacks.
pub open spec fn missing_column_message(column: Seq<char>, strategy: Seq<char>) -> Seq<char> {
    "Required column '"@ + column + "' missing from DataFrame for strategy '"@ + strategy + "'"@
}

fn contains_column(columns: &[String], name: &str) -> (r: bool)
    ensures
        r == has_column(columns@, name@),
{
    let mut i: usize = 0;
    while i < columns.len()
        invariant
            i <= columns@.len(),
            forall|j: int| 0 <= j < i ==> (#[trigger] columns@[j])@ != name@,
        decreases columns@.len() - i,
    {
        if str_eq(columns[i].as_str(), name) {
            assert(columns@[i as int]@ == name@);
            return true;
        }
        i = i + 1;
    }
    false
}

fn missing_column(column: &str, strategy_name: &str) -> (r: String)
    ensures
        r@ == missing_column_message(column@, strategy_name@),
{
    let mut m = owned("Required column '");
    m.append(column);
    m.append("' missing from DataFrame for strategy '");
    m.append(strategy_name);
    m.append("'");
    assert(m@ =~= missing_column_message(column@, strategy_name@));
    m
}

/// Checks that a strategy's data has the price and volume columns, given the
/// names of the data's columns; the first missing one, in the order open,
/// high, low, close, volume, is reported.
pub fn validate_features(columns: &[String], strategy_name: &str) -> (r: Result<(), String>)
    ensures
        match r {
            Ok(_) => forall|k: int| 0 <= k < required_columns().len()
                ==> has_column(columns@, #[trigger] required_columns()[k]),
            Err(m) => exists|k: int| #[trigger] first_missing_column(columns@, k)
                && m@ == missing_column_message(required_columns()[k], strategy_name@),
        },
{
    let ghost req = required_columns();
    assert(req[0] == "open"@ && req[1] == "high"@ && req[2] == "low"@ && req[3] == "close"@
        && req[4] == "volume"@);
    if !contains_column(columns, "open") {
        assert(first_missing_column(columns@, 0));
        return Err(missing_column("open", strategy_name));
    }
    if !contains_column(columns, "high") {
        assert(first_missing_column(columns@, 1));
        return Err(missing_column("high", strategy_name));
    }
    if !contains_column(columns, "low") {
        assert(first_missing_column(columns@, 2));
        return Err(missing_column("low", strategy_name));
    }
    if !contains_column(columns, "close") {
        assert(first_missing_column(columns@, 3));
        return Err(missing_column("close", strategy_name));
    }
    if !contains_column(columns, "volume") {
        assert(first_missing_column(columns@, 4));
        return Err(missing_column("volume", strategy_name));
    }
    Ok(())
}

/// The trading strategies that an experiment can run.
#[derive(Debug, Clone, Copy, PartialEq, Eq, Structural)]
pub enum StrategyType {
    DynamicTrend,
    RelativeStrength,
    BollingerReversion,
    AtrBreakout,
    VolatilitySqueeze,
    LeadLag,
    ObvTrend,
    MacdTrend,
    RsiReversion,
    PriceMomentum,
    AdaptiveMaCross,
}

/// The strategy that a lower-case strategy name (or one of its aliases) names.
pub open spec fn spec_strategy_type(s: Seq<char>) -> Option<StrategyType> {
    if s == "dynamic_trend"@ || s == "dynamictrend"@ { Some(StrategyType::DynamicTrend) }
    else if s == "relative_strength"@ || s == "relativestrength"@ { Some(StrategyType::RelativeStrength) }
    else if s == "bollinger_reversion"@ || s == "bollingerreversion"@ { Some(StrategyType::BollingerReversion) }
    else if s == "atr_breakout"@ || s == "atrbreakout"@ { Some(StrategyType::AtrBreakout) }
    else if s == "volatility_squeeze"@ || s == "volatilitysqueeze"@ { Some(StrategyType::VolatilitySqueeze) }
    else if s == "lead_lag"@ || s == "leadlag"@ || s == "lead_lag_arb"@ { Some(StrategyType::LeadLag) }
    else if s == "obv_trend"@ || s == "obvtrend"@ { Some(StrategyType::ObvTrend) }
    else if s == "macd_trend"@ || s == "macdtrend"@ { Some(StrategyType::MacdTrend) }
    else if s == "rsi_reversion"@ || s == "rsireversion"@ { Some(StrategyType::RsiReversion) }
    else if s == "price_momentum"@ || s == "pricemomentum"@ { Some(StrategyType::PriceMomentum) }
    else if s == "adaptive_ma_cross"@ || s == "adaptivemacross"@ || s == "adaptive_ma_crossover"@ { Some(StrategyType::AdaptiveMaCross) }
    else { None }
}

/// The strategy named by a lower-case name or alias, if any.
pub fn parse_strategy_type(name: &str) -> (r: Option<StrategyType>)
    ensures
        r == spec_strategy_type(name@),
{
    if str_eq(name, "dynamic_trend") || str_eq(name, "dynamictrend") {
        Some(StrategyType::DynamicTrend)
    }
    else if str_eq(name, "relative_strength") || str_eq(name, "relativestrength") {
        Some(StrategyType::RelativeStrength)
    }
    else if str_eq(name, "bollinger_reversion") || str_eq(name, "bollingerreversion") {
        Some(StrategyType::BollingerReversion)
    }
    else if str_eq(name, "atr_breakout") || str_eq(name, "atrbreakout") {
        Some(StrategyType::AtrBreakout)
    }
    else if str_eq(name, "volatility_squeeze") || str_eq(name, "volatilitysqueeze") {
        Some(StrategyType::VolatilitySqueeze)
    }
    else if str_eq(name, "lead_lag") || str_eq(name, "leadlag") || str_eq(name, "lead_lag_arb") {
        Some(StrategyType::LeadLag)
    }
    else if str_eq(name, "obv_trend") || str_eq(name, "obvtrend") {
        Some(StrategyType::ObvTrend)
    }
    else if str_eq(name, "macd_trend") || str_eq(name, "macdtrend") {
        Some(StrategyType::MacdTrend)
    }
    else if str_eq(name, "rsi_reversion") || str_eq(name, "rsireversion") {
        Some(StrategyType::RsiReversion)
    }
    else if str_eq(name, "price_momentum") || str_eq(name, "pricemomentum") {
        Some(StrategyType::PriceMomentum)
    }
    else if str_eq(name, "adaptive_ma_cross") || str_eq(name, "adaptivemacross") || str_eq(name, "adaptive_ma_crossover") {
        Some(StrategyType::AdaptiveMaCross)
    }
    else {
        None
    }
}

/// The message for a strategy name that names no strategy.
pub open spec fn unknown_strategy_message(name: Seq<char>) -> Seq<char> {
    "Unknown strategy type '"@ + name
        + "'. Supported: dynamic_trend, relative_strength, bollinger_reversion, atr_breakout, volatility_squeeze, lead_lag, obv_trend, macd_trend, rsi_reversion, price_momentum, adaptive_ma_cross"@
}

/// The strategy that a configured strategy name selects, compared in lower
/// case; an unknown name is refused with the list of supported ones.
pub fn resolve_strategy_type(configured: &str) -> (r: Result<StrategyType, String>)
    ensures
        match spec_strategy_type(lowercase(configured@)) {
            Some(t) => r == Ok::<StrategyType, String>(t),
            None => r matches Err(m) && m@ == unknown_strategy_message(configured@),
        },
{
    let lower = to_lowercase(configured);
    match parse_strategy_type(lower.as_str()) {
        Some(t) => Ok(t),
        None => {
            let mut m = owned("Unknown strategy type '");
            m.append(configured);
            m.append("'. Supported: dynamic_trend, relative_strength, bollinger_reversion, atr_breakout, volatility_squeeze, lead_lag, obv_trend, macd_trend, rsi_reversion, price_momentum, adaptive_ma_cross");
            assert(m@ =~= unknown_strategy_message(configured@));
            Err(m)
        },
    }
}

/// The strategy whose signals are generated for a strategy name, compared as
/// given (callers that read the name from the configuration lower-case it
/// first); an unknown name is refused with the list of supported ones.
pub fn signal_strategy_type(strategy_type: &str) -> (r: Result<StrategyType, String>)
    ensures
        match spec_strategy_type(strategy_type@) {
            Some(t) => r == Ok::<StrategyType, String>(t),
            None => r matches Err(m) && m@ == unknown_strategy_message(strategy_type@),
        },
{
    match parse_strategy_type(strategy_type) {
        Some(t) => Ok(t),
        None => {
            let mut m = owned("Unknown strategy type '");
            m.append(strategy_type);
            m.append("'. Supported: dynamic_trend, relative_strength, bollinger_reversion, atr_breakout, volatility_squeeze, lead_lag, obv_trend, macd_trend, rsi_reversion, price_momentum, adaptive_ma_cross");
            assert(m@ =~= unknown_strategy_message(strategy_type@));
            Err(m)
        },
    }
}

/// The strategy of a single back-test run: the configured name is lower-cased
/// and then looked up as signals are generated, so an unknown name is
/// reported in lower case.
pub fn single_backtest_strategy_type(configured: &str) -> (r: Result<StrategyType, String>)
    ensures
        match spec_strategy_type(lowercase(configured@)) {
            Some(t) => r == Ok::<StrategyType, String>(t),
            None => r matches Err(m) && m@ == unknown_strategy_message(lowercase(configured@)),
        },
{
    let lower = to_lowercase(configured);
    signal_strategy_type(lower.as_str())
}

} // verus!
