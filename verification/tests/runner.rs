use krypto::experiment::runner::{
    elapsed_whole_seconds, interval_to_seconds, parse_date_instant, parse_strategy_type, resolve_lookback_candles, resolve_strategy_type,
    signal_strategy_type, single_backtest_strategy_type,
    validate_features, LookbackError, StrategyType,
};

#[test]
fn interval_mapping_supports_common_binance_intervals() {
    assert_eq!(interval_to_seconds("1h"), Some(3600));
    assert_eq!(interval_to_seconds("4h"), Some(14_400));
    assert_eq!(interval_to_seconds("1d"), Some(86_400));
    assert_eq!(interval_to_seconds("bogus"), None);
}

#[test]
fn resolves_lookback_from_config_or_dates() {
    assert_eq!(resolve_lookback_candles(Some(1234), "1h", "2024-01-01", None, (0, 0)), Ok(1234));
    assert_eq!(
        resolve_lookback_candles(None, "1h", "2024-01-01", Some("2024-01-02"), (0, 0)),
        Ok(24)
    );
}

#[test]
fn lookback_clamps_and_rounds_up() {
    assert_eq!(resolve_lookback_candles(Some(0), "1h", "", None, (0, 0)), Ok(1));
    assert_eq!(resolve_lookback_candles(Some(usize::MAX), "1h", "", None, (0, 0)), Ok(u32::MAX));
    // 25 hours and one second of 1h candles round up to 26
    assert_eq!(
        resolve_lookback_candles(None, "1h", "2024-01-01T00:00:00Z", Some("2024-01-02T01:00:01Z"), (0, 0)),
        Ok(26)
    );
    // a span shorter than one candle still loads one
    assert_eq!(
        resolve_lookback_candles(None, "1d", "2024-01-01T00:00:00Z", Some("2024-01-01T01:00:00Z"), (0, 0)),
        Ok(1)
    );
}

#[test]
fn lookback_errors() {
    assert_eq!(
        resolve_lookback_candles(None, "1h", "yesterday", None, (0, 0)),
        Err(LookbackError::InvalidStartDate("yesterday".to_string()))
    );
    assert_eq!(
        resolve_lookback_candles(None, "1h", "2024-01-01", Some("soon"), (0, 0)),
        Err(LookbackError::InvalidEndDate("soon".to_string()))
    );
    assert_eq!(
        resolve_lookback_candles(None, "1h", "2024-01-02", Some("2024-01-01"), (0, 0)),
        Err(LookbackError::EndNotAfterStart)
    );
    assert_eq!(
        resolve_lookback_candles(None, "2d", "2024-01-01", Some("2024-01-02"), (0, 0)),
        Err(LookbackError::UnsupportedInterval("2d".to_string()))
    );
    // without an end date the given current time is the end
    assert_eq!(resolve_lookback_candles(None, "1d", "1970-01-01", None, (86_400 * 3, 0)), Ok(3));
}

#[test]
fn dates_in_both_formats() {
    assert_eq!(parse_date_instant("1970-01-02"), Some((86_400, 0)));
    assert_eq!(parse_date_instant("1970-01-01T01:00:00+01:00"), Some((0, 0)));
    assert_eq!(parse_date_instant("1/2/1970"), None);
}

#[test]
fn test_feature_validation_missing_columns() {
    // data with only a time and a close column
    let columns = vec!["time".to_string(), "close".to_string()];
    let result = validate_features(&columns, "test_strategy");
    assert!(result.is_err(), "Should fail with missing columns");
    let err_msg = result.unwrap_err();
    assert!(err_msg.contains("open"), "Error should mention missing 'open' column");
}

#[test]
fn feature_validation_reports_first_missing_column() {
    let columns: Vec<String> =
        ["time", "open", "high", "close", "volume"].iter().map(|s| s.to_string()).collect();
    assert_eq!(
        validate_features(&columns, "dynamic_trend"),
        Err("Required column 'low' missing from DataFrame for strategy 'dynamic_trend'".to_string())
    );
    let full: Vec<String> =
        ["volume", "close", "low", "high", "open", "rsi"].iter().map(|s| s.to_string()).collect();
    assert_eq!(validate_features(&full, "dynamic_trend"), Ok(()));
}

#[test]
fn strategy_names_and_aliases() {
    assert_eq!(parse_strategy_type("dynamic_trend"), Some(StrategyType::DynamicTrend));
    assert_eq!(parse_strategy_type("lead_lag_arb"), Some(StrategyType::LeadLag));
    assert_eq!(parse_strategy_type("adaptive_ma_crossover"), Some(StrategyType::AdaptiveMaCross));
    assert_eq!(parse_strategy_type("Dynamic_Trend"), None);
    assert_eq!(resolve_strategy_type("Dynamic_Trend"), Ok(StrategyType::DynamicTrend));
    assert_eq!(resolve_strategy_type("PRICEMOMENTUM"), Ok(StrategyType::PriceMomentum));
}

#[test]
fn unknown_strategy_lists_the_supported_ones() {
    assert_eq!(
        resolve_strategy_type("Moon_Shot"),
        Err("Unknown strategy type 'Moon_Shot'. Supported: dynamic_trend, relative_strength, bollinger_reversion, atr_breakout, volatility_squeeze, lead_lag, obv_trend, macd_trend, rsi_reversion, price_momentum, adaptive_ma_cross".to_string())
    );
}

#[test]
fn lookback_keeps_fractions_of_a_second() {
    // 0.6 s apart: the end is after the start, and one candle covers it
    assert_eq!(
        resolve_lookback_candles(None, "1m", "2024-01-01T00:00:00.2Z", Some("2024-01-01T00:00:00.8Z"), (0, 0)),
        Ok(1)
    );
    // 60.1 s is 60 whole seconds: one one-minute candle
    assert_eq!(
        resolve_lookback_candles(None, "1m", "2024-01-01T00:00:00.9Z", Some("2024-01-01T00:01:01Z"), (0, 0)),
        Ok(1)
    );
    // equal instants are refused
    assert_eq!(
        resolve_lookback_candles(None, "1m", "2024-01-01T00:00:00.5Z", Some("2024-01-01T00:00:00.5Z"), (0, 0)),
        Err(LookbackError::EndNotAfterStart)
    );
    assert_eq!(parse_date_instant("1970-01-01T00:00:01.25Z"), Some((1, 250_000_000)));
}

#[test]
fn elapsed_seconds_count_leap_seconds_as_date_time_subtraction_does() {
    let t = 1_483_228_799; // 2016-12-31T23:59:59Z
    assert_eq!(elapsed_whole_seconds((t, 0), (t + 60, 500_000_000)), 60);
    assert_eq!(elapsed_whole_seconds((t + 60, 0), (t, 0)), -60);
    // from within the leap second 23:59:60.5 to midnight is half a second
    assert_eq!(elapsed_whole_seconds((t, 1_500_000_000), (t + 1, 0)), 0);
    // from 23:59:58 to within the leap second is two seconds and a half
    assert_eq!(elapsed_whole_seconds((t - 1, 0), (t, 1_500_000_000)), 2);
    assert_eq!(parse_date_instant("2016-12-31T23:59:60.5Z"), Some((t, 1_500_000_000)));
}

#[test]
fn signal_generation_looks_names_up_as_given() {
    assert_eq!(signal_strategy_type("rsi_reversion"), Ok(StrategyType::RsiReversion));
    assert_eq!(
        signal_strategy_type("RSI_Reversion"),
        Err("Unknown strategy type 'RSI_Reversion'. Supported: dynamic_trend, relative_strength, bollinger_reversion, atr_breakout, volatility_squeeze, lead_lag, obv_trend, macd_trend, rsi_reversion, price_momentum, adaptive_ma_cross".to_string())
    );
    assert_eq!(single_backtest_strategy_type("RSI_Reversion"), Ok(StrategyType::RsiReversion));
    assert_eq!(
        single_backtest_strategy_type("Moon_Shot"),
        Err("Unknown strategy type 'moon_shot'. Supported: dynamic_trend, relative_strength, bollinger_reversion, atr_breakout, volatility_squeeze, lead_lag, obv_trend, macd_trend, rsi_reversion, price_momentum, adaptive_ma_cross".to_string())
    );
}
