//! The decisions of the optimisation and trading missions: which strategy
//! deserves a new report as generations go by, which symbol and interval are
//! traded, and which orders move the account from its position to the one the
//! model asks for.

use vstd::prelude::*;
use crate::data::interval::Interval;
use crate::error::KryptoError;
use crate::live::executor::OrderSide;
use crate::optimisation::lowest_possible_fitness;
use crate::text::owned;

verus! {

/// The columns of the optimisation summary, one row per generation.
pub open spec fn summary_header_names() -> Seq<Seq<char>> {
    seq![
        "Generation"@, "BestFitnessScore"@, "BestMonthlyReturn"@, "BestAccuracy"@,
        "BestSharpeRatio"@, "BestMaxDrawdown"@, "BestTotalTrades"@, "BestWinRate"@,
        "AvgFitnessScore"@, "AvgMonthlyReturn"@, "AvgAccuracy"@, "AvgSharpeRatio"@,
        "AvgMaxDrawdown"@, "AvgTotalTrades"@, "AvgWinRate"@, "BestStrategyPhenotype"@,
    ]
}

/// The header row of the optimisation summary.
pub fn summary_headers() -> (r: Vec<String>)
    ensures
        r@.len() == summary_header_names().len(),
        forall|i: int| 0 <= i < r@.len() ==> (#[trigger] r@[i])@ == summary_header_names()[i],
{
    let mut r: Vec<String> = Vec::new();
    r.push(owned("Generation"));
    r.push(owned("BestFitnessScore"));
    r.push(owned("BestMonthlyReturn"));
    r.push(owned("BestAccuracy"));
    r.push(owned("BestSharpeRatio"));
    r.push(owned("BestMaxDrawdown"));
    r.push(owned("BestTotalTrades"));
    r.push(owned("BestWinRate"));
    r.push(owned("AvgFitnessScore"));
    r.push(owned("AvgMonthlyReturn"));
    r.push(owned("AvgAccuracy"));
    r.push(owned("AvgSharpeRatio"));
    r.push(owned("AvgMaxDrawdown"));
    r.push(owned("AvgTotalTrades"));
    r.push(owned("AvgWinRate"));
    r.push(owned("BestStrategyPhenotype"));
    r
}

/// Whether the summary is flushed to disk after a generation: every second one.
pub fn flush_after_generation(generation: u64) -> (r: bool)
    ensures
        r == (generation % 2 == 0),
{
    generation % 2 == 0
}

/// The best fitness seen so far in an optimisation run, and whether a best
/// strategy has been reported.
#[derive(Debug, Clone, Copy, PartialEq, Eq, Structural)]
pub struct OptimisationProgress {
    pub best_fitness: i64,
    pub has_best: bool,
}

impl OptimisationProgress {
    /// No strategy seen yet: the best fitness is the lowest possible one.
    pub fn new() -> (r: Self)
        ensures
            r.best_fitness == i64::MIN / 2,
            !r.has_best,
    {
        OptimisationProgress { best_fitness: lowest_possible_fitness(), has_best: false }
    }

    /// Records the best fitness of an intermediate generation; returns whether
    /// it beats every earlier one, in which case the strategy is reported.
    pub fn on_generation(&mut self, fitness: i64) -> (new_best: bool)
        ensures
            new_best == (fitness > old(self).best_fitness),
            final(self).best_fitness >= old(self).best_fitness,
            final(self).best_fitness >= fitness,
            new_best ==> final(self).best_fitness == fitness && final(self).has_best,
            !new_best ==> *final(self) == *old(self),
    {
        if fitness > self.best_fitness {
            self.best_fitness = fitness;
            self.has_best = true;
            true
        } else {
            false
        }
    }

    /// Records the best fitness of the final generation; returns whether it
    /// is reported: when it beats every earlier one, or when no strategy was
    /// reported yet and it is better than the lowest possible fitness.
    pub fn on_final(&mut self, fitness: i64) -> (report: bool)
        ensures
            report == (fitness > old(self).best_fitness
                || (!old(self).has_best && fitness > i64::MIN / 2)),
            report ==> final(self).has_best,
            final(self).best_fitness == old(self).best_fitness,
            !report ==> *final(self) == *old(self),
    {
        if fitness > self.best_fitness {
            self.has_best = true;
            true
        } else if !self.has_best && fitness > lowest_possible_fitness() {
            self.has_best = true;
            true
        } else {
            false
        }
    }
}

/// The symbol and interval that the trading mission trades: the first ones
/// configured, once the exchange credentials are there.
pub fn trade_target(
    has_api_key: bool,
    has_api_secret: bool,
    symbols: &[String],
    intervals: &[Interval],
) -> (r: Result<(String, Interval), KryptoError>)
    ensures
        !(has_api_key && has_api_secret) ==> (r matches Err(KryptoError::ConfigError(m))
            && m@ == "API key/secret missing for trading."@),
        has_api_key && has_api_secret && symbols@.len() == 0 ==> (r matches Err(KryptoError::ConfigError(m))
            && m@ == "No symbols configured for trading."@),
        has_api_key && has_api_secret && symbols@.len() > 0 && intervals@.len() == 0
            ==> (r matches Err(KryptoError::ConfigError(m)) && m@ == "No intervals configured for trading."@),
        has_api_key && has_api_secret && symbols@.len() > 0 && intervals@.len() > 0
            ==> (r matches Ok((s, i)) && s@ == symbols@[0]@ && i == intervals@[0]),
{
    if !has_api_key || !has_api_secret {
        return Err(KryptoError::ConfigError(owned("API key/secret missing for trading.")));
    }
    if symbols.len() == 0 {
        return Err(KryptoError::ConfigError(owned("No symbols configured for trading.")));
    }
    if intervals.len() == 0 {
        return Err(KryptoError::ConfigError(owned("No intervals configured for trading.")));
    }
    Ok((symbols[0].clone(), intervals[0]))
}

/// The orders that move the account from its current side to the side the
/// model asks for: the current position is closed first, and the new one is
/// opened only if that close went through.
#[derive(Debug, Clone, Copy, PartialEq, Eq, Structural)]
pub struct Rebalance {
    pub close: Option<OrderSide>,
    pub open: Option<OrderSide>,
}

/// What moving from `current` to `desired` takes: a change to a side closes
/// the current position (if any) and opens the desired one; a neutral signal
/// closes the current position; otherwise the position is held.
pub open spec fn spec_rebalance(current: Option<OrderSide>, desired: Option<OrderSide>) -> Rebalance {
    if desired is Some && current != desired {
        Rebalance { close: current, open: desired }
    } else if desired is None && current is Some {
        Rebalance { close: current, open: None }
    } else {
        Rebalance { close: None, open: None }
    }
}

/// Decides the orders for one cycle of the trading loop.
pub fn rebalance(current: Option<OrderSide>, desired: Option<OrderSide>) -> (r: Rebalance)
    ensures
        r == spec_rebalance(current, desired),
{
    let same = match (current, desired) {
        (Some(OrderSide::Buy), Some(OrderSide::Buy)) => true,
        (Some(OrderSide::Sell), Some(OrderSide::Sell)) => true,
        (None, None) => true,
        _ => false,
    };
    if desired.is_some() && !same {
        Rebalance { close: current, open: desired }
    } else if desired.is_none() && current.is_some() {
        Rebalance { close: current, open: None }
    } else {
        Rebalance { close: None, open: None }
    }
}

/// The side the account is on after a cycle's orders: the desired side when
/// every order went through; a failed close keeps the old side (nothing is
/// opened then), and a failed open leaves the account flat.
pub open spec fn side_after(current: Option<OrderSide>, plan: Rebalance, close_ok: bool, open_ok: bool) -> Option<OrderSide> {
    if plan.close is Some && !close_ok {
        current
    } else if plan.open is Some {
        if open_ok { plan.open } else { None }
    } else if plan.close is Some {
        None
    } else {
        current
    }
}

/// Whatever the signals, once the orders of a rebalance went through, the
/// account is on the side the model asked for.
pub proof fn lemma_rebalance_reaches_desired(current: Option<OrderSide>, desired: Option<OrderSide>)
    ensures
        side_after(current, spec_rebalance(current, desired), true, true) == desired,
        spec_rebalance(current, desired).close is Some ==> spec_rebalance(current, desired).close == current,
        current == desired ==> spec_rebalance(current, desired) == (Rebalance { close: None, open: None }),
{
}

} // verus!
