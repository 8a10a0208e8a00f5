use krypto::live::config::{
    default_bb_period, default_regime_atr_period, default_regime_lookback, default_vol_lookback, validate,
    ArmedState, ConfigRejection, SafetySettings, TradingMode, CHAND_PERIOD, HOLD_MAX, POSITION_CAP, TURTLE_EP,
};
use krypto::live::feed::stream_names;

fn settings() -> SafetySettings {
    SafetySettings {
        symbol_count: 1,
        capital_positive: true,
        position_size_in_range: true,
        regime_atr_period: 12,
        regime_lookback: 42,
        atr_rank_in_range: true,
        dry_run: true,
        has_api_key: false,
        has_api_secret: false,
        mode: TradingMode::DryRun,
        use_testnet: true,
    }
}

#[test]
fn defaults() {
    assert_eq!(TradingMode::default(), TradingMode::DryRun);
    assert_eq!(default_bb_period(), TURTLE_EP);
    assert_eq!(default_regime_atr_period(), 12);
    assert_eq!(default_regime_lookback(), 42);
    assert_eq!(default_vol_lookback(), 92);
    assert_eq!(POSITION_CAP, 3);
    assert_eq!(CHAND_PERIOD, 20);
    assert_eq!(HOLD_MAX, 45);
}

#[test]
fn dry_run_config_is_accepted() {
    assert_eq!(validate(&settings()), Ok(ArmedState::Simulated));
}

#[test]
fn config_without_symbols_is_rejected() {
    let s = SafetySettings { symbol_count: 0, ..settings() };
    assert_eq!(validate(&s), Err(ConfigRejection::NoSymbols));
    assert_eq!(ConfigRejection::NoSymbols.message(), "At least one symbol required");
}

#[test]
fn checks_run_in_order() {
    let s = SafetySettings { capital_positive: false, regime_lookback: 0, ..settings() };
    assert_eq!(validate(&s), Err(ConfigRejection::CapitalNotPositive));
    let s = SafetySettings { regime_lookback: 0, ..settings() };
    assert_eq!(validate(&s), Err(ConfigRejection::RegimeLookbackZero));
    let s = SafetySettings { atr_rank_in_range: false, ..settings() };
    assert_eq!(validate(&s), Err(ConfigRejection::AtrRankOutOfRange));
}

#[test]
fn live_orders_need_credentials_and_production_needs_mainnet() {
    let s = SafetySettings { dry_run: false, has_api_key: true, ..settings() };
    assert_eq!(validate(&s), Err(ConfigRejection::MissingCredentials));
    let s = SafetySettings { dry_run: false, has_api_key: true, has_api_secret: true, mode: TradingMode::Production, ..settings() };
    assert_eq!(validate(&s), Err(ConfigRejection::ProductionOnTestnet));
    let s = SafetySettings { use_testnet: false, ..s };
    assert_eq!(validate(&s), Ok(ArmedState::MainnetOrders));
    let s = SafetySettings { mode: TradingMode::Testnet, use_testnet: true, ..s };
    assert_eq!(validate(&s), Ok(ArmedState::TestnetOrders));
}

#[test]
fn websocket_stream_names() {
    let names = stream_names(&["BTCUSDT".to_string(), "EthFdusd".to_string()], "1d");
    assert_eq!(names, vec!["btcusdt@kline_1d", "ethfdusd@kline_1d"]);
}
