//! The frozen integer parameters of the live strategy, the trading mode, and
//! the safety checks that a live configuration must pass before the bot starts.

use vstd::prelude::*;
use crate::text::owned;

verus! {

/// Trading mode — safety interlock for live execution: `DryRun` simulates
/// orders, `Testnet` places real testnet orders, `Production` places real
/// mainnet orders and must be opted into.
#[derive(Debug, Clone, Copy, PartialEq, Eq, Structural)]
pub enum TradingMode {
    DryRun,
    Testnet,
    Production,
}

impl Default for TradingMode {
    fn default() -> (r: Self)
        ensures
            r == TradingMode::DryRun,
    {
        TradingMode::DryRun
    }
}

/// Turtle entry lookback.
pub const TURTLE_EP: usize = 21;
/// Chandelier ATR period.
pub const CHAND_PERIOD: usize = 20;
/// Turtle ATR stop period.
pub const TURTLE_ATR_PERIOD: usize = 24;
/// Maximum bars a position is held.
pub const HOLD_MAX: usize = 45;
/// Maximum number of concurrent positions.
pub const POSITION_CAP: usize = 3;
/// BTC ATR period of the regime percentile filter.
pub const REGIME_ATR_PERIOD: usize = 12;
/// BTC ATR percentile lookback of the regime filter.
pub const REGIME_LOOKBACK: usize = 42;
/// Volume lookback of the research dollar-volume ranking (unused by the live entries).
pub const VOL_LOOKBACK: usize = 92;
/// BTC ATR period of the USDT hedge overlay.
pub const HEDGE_ATR_PERIOD: usize = 38;
/// BTC true-range history of the hedge percentile.
pub const HEDGE_LOOKBACK: usize = 252;
/// Bars to wait after an exit before re-entering the same symbol.
pub const FRESHNESS_COOLDOWN: usize = 0;

pub fn default_bb_period() -> (r: usize)
    ensures
        r == TURTLE_EP,
{
    TURTLE_EP
}

pub fn default_regime_atr_period() -> (r: usize)
    ensures
        r == REGIME_ATR_PERIOD,
        r == 12,
{
    REGIME_ATR_PERIOD
}

pub fn default_regime_lookback() -> (r: usize)
    ensures
        r == REGIME_LOOKBACK,
        r == 42,
{
    REGIME_LOOKBACK
}

pub fn default_vol_lookback() -> (r: usize)
    ensures
        r == VOL_LOOKBACK,
{
    VOL_LOOKBACK
}

/// What the safety checks read of a live configuration; the checks on the
/// capital, position size and ATR rank threshold come in as their outcomes.
pub struct SafetySettings {
    pub symbol_count: usize,
    /// `!(initial_capital <= 0)` (a capital that is not a number passes)
    pub capital_positive: bool,
    /// `0 < max_position_size <= 1`
    pub position_size_in_range: bool,
    pub regime_atr_period: usize,
    pub regime_lookback: usize,
    /// `0 <= atr_rank_threshold <= 100`
    pub atr_rank_in_range: bool,
    pub dry_run: bool,
    pub has_api_key: bool,
    pub has_api_secret: bool,
    pub mode: TradingMode,
    pub use_testnet: bool,
}

/// Why a live configuration is refused.
#[derive(Debug, Clone, Copy, PartialEq, Eq, Structural)]
pub enum ConfigRejection {
    NoSymbols,
    CapitalNotPositive,
    PositionSizeOutOfRange,
    RegimeAtrPeriodZero,
    RegimeLookbackZero,
    AtrRankOutOfRange,
    MissingCredentials,
    ProductionOnTestnet,
}

/// What an accepted configuration will do.
#[derive(Debug, Clone, Copy, PartialEq, Eq, Structural)]
pub enum ArmedState {
    /// No real order is placed.
    Simulated,
    /// Real orders go to the testnet.
    TestnetOrders,
    /// Real orders go to the mainnet.
    MainnetOrders,
}

/// The first check that a configuration fails, in the order they are made.
pub open spec fn spec_rejection(s: SafetySettings) -> Option<ConfigRejection> {
    if s.symbol_count == 0 { Some(ConfigRejection::NoSymbols) }
    else if !s.capital_positive { Some(ConfigRejection::CapitalNotPositive) }
    else if !s.position_size_in_range { Some(ConfigRejection::PositionSizeOutOfRange) }
    else if s.regime_atr_period == 0 { Some(ConfigRejection::RegimeAtrPeriodZero) }
    else if s.regime_lookback == 0 { Some(ConfigRejection::RegimeLookbackZero) }
    else if !s.atr_rank_in_range { Some(ConfigRejection::AtrRankOutOfRange) }
    else if !s.dry_run && (!s.has_api_key || !s.has_api_secret) { Some(ConfigRejection::MissingCredentials) }
    else if s.mode == TradingMode::Production && !s.dry_run && s.use_testnet { Some(ConfigRejection::ProductionOnTestnet) }
    else { None }
}

/// What an accepted configuration arms.
pub open spec fn spec_armed(s: SafetySettings) -> ArmedState {
    if s.mode == TradingMode::Production && !s.dry_run { ArmedState::MainnetOrders }
    else if s.mode == TradingMode::Testnet && !s.dry_run { ArmedState::TestnetOrders }
    else { ArmedState::Simulated }
}

/// Validates that a configuration is safe to start; on success tells whether
/// real orders will be placed, and where.
pub fn validate(s: &SafetySettings) -> (r: Result<ArmedState, ConfigRejection>)
    ensures
        match spec_rejection(*s) {
            Some(e) => r == Err::<ArmedState, ConfigRejection>(e),
            None => r == Ok::<ArmedState, ConfigRejection>(spec_armed(*s)),
        },
        // real mainnet orders are never armed without credentials, off the testnet, outside dry run
        r == Ok::<ArmedState, ConfigRejection>(ArmedState::MainnetOrders) ==>
            s.mode == TradingMode::Production && !s.dry_run && !s.use_testnet && s.has_api_key && s.has_api_secret,
{
    if s.symbol_count == 0 {
        return Err(ConfigRejection::NoSymbols);
    }
    if !s.capital_positive {
        return Err(ConfigRejection::CapitalNotPositive);
    }
    if !s.position_size_in_range {
        return Err(ConfigRejection::PositionSizeOutOfRange);
    }
    if s.regime_atr_period == 0 {
        return Err(ConfigRejection::RegimeAtrPeriodZero);
    }
    if s.regime_lookback == 0 {
        return Err(ConfigRejection::RegimeLookbackZero);
    }
    if !s.atr_rank_in_range {
        return Err(ConfigRejection::AtrRankOutOfRange);
    }
    if !s.dry_run && (!s.has_api_key || !s.has_api_secret) {
        return Err(ConfigRejection::MissingCredentials);
    }
    if s.mode == TradingMode::Production && !s.dry_run {
        if s.use_testnet {
            return Err(ConfigRejection::ProductionOnTestnet);
        }
        return Ok(ArmedState::MainnetOrders);
    }
    if s.mode == TradingMode::Testnet && !s.dry_run {
        return Ok(ArmedState::TestnetOrders);
    }
    Ok(ArmedState::Simulated)
}

impl ConfigRejection {
    /// The message of the rejection.
    pub fn message(&self) -> (r: String)
        ensures
            r@ == (match self {
                ConfigRejection::NoSymbols => "At least one symbol required"@,
                ConfigRejection::CapitalNotPositive => "Initial capital must be positive"@,
                ConfigRejection::PositionSizeOutOfRange => "Max position size must be between 0 and 1"@,
                ConfigRejection::RegimeAtrPeriodZero => "Regime ATR period must be positive"@,
                ConfigRejection::RegimeLookbackZero => "Regime lookback must be positive"@,
                ConfigRejection::AtrRankOutOfRange => "ATR rank threshold must be between 0 and 100"@,
                ConfigRejection::MissingCredentials => "API credentials required for live trading"@,
                ConfigRejection::ProductionOnTestnet => "CONFLICT: mode=Production but use_testnet=true. Production mode requires use_testnet=false. Edit live_turtle_chandelier.rs to set use_testnet: false before proceeding."@,
            }),
    {
        match self {
            ConfigRejection::NoSymbols => owned("At least one symbol required"),
            ConfigRejection::CapitalNotPositive => owned("Initial capital must be positive"),
            ConfigRejection::PositionSizeOutOfRange => owned("Max position size must be between 0 and 1"),
            ConfigRejection::RegimeAtrPeriodZero => owned("Regime ATR period must be positive"),
            ConfigRejection::RegimeLookbackZero => owned("Regime lookback must be positive"),
            ConfigRejection::AtrRankOutOfRange => owned("ATR rank threshold must be between 0 and 100"),
            ConfigRejection::MissingCredentials => owned("API credentials required for live trading"),
            ConfigRejection::ProductionOnTestnet => owned("CONFLICT: mode=Production but use_testnet=true. Production mode requires use_testnet=false. Edit live_turtle_chandelier.rs to set use_testnet: false before proceeding."),
        }
    }
}

} // verus!
