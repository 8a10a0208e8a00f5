use krypto::data::interval::Interval;
use krypto::error::KryptoError;
use krypto::live::executor::OrderSide;
use krypto::order_event::OrderError;
use krypto::mission::{
    flush_after_generation, rebalance, summary_headers, trade_target, OptimisationProgress, Rebalance,
};

#[test]
fn summary_header_row() {
    let h = summary_headers();
    assert_eq!(h.len(), 16);
    assert_eq!(h[0], "Generation");
    assert_eq!(h[8], "AvgFitnessScore");
    assert_eq!(h[15], "BestStrategyPhenotype");
}

#[test]
fn flushes_every_second_generation() {
    assert!(flush_after_generation(0));
    assert!(!flush_after_generation(1));
    assert!(flush_after_generation(10));
}

#[test]
fn best_fitness_only_rises() {
    let mut p = OptimisationProgress::new();
    assert_eq!(p.best_fitness, i64::MIN / 2);
    assert!(p.on_generation(10));
    assert!(!p.on_generation(10));
    assert!(!p.on_generation(5));
    assert!(p.on_generation(11));
    assert_eq!(p.best_fitness, 11);
    assert!(!p.on_final(11));
    assert!(p.on_final(12));
    assert_eq!(p.best_fitness, 11);
}

#[test]
fn final_generation_reports_the_only_valid_strategy() {
    let mut p = OptimisationProgress::new();
    // nothing beat the lowest fitness during the run
    assert!(!p.on_generation(i64::MIN / 2));
    assert!(p.on_final(i64::MIN / 2 + 1));
    let mut q = OptimisationProgress::new();
    assert!(!q.on_final(i64::MIN / 2));
}

#[test]
fn trade_target_needs_credentials_symbols_and_intervals() {
    let symbols = vec!["BTCUSDT".to_string(), "ETHUSDT".to_string()];
    let intervals = vec![Interval::OneHour, Interval::OneDay];
    assert_eq!(
        trade_target(true, false, &symbols, &intervals),
        Err(KryptoError::ConfigError("API key/secret missing for trading.".to_string()))
    );
    assert_eq!(
        trade_target(true, true, &[], &intervals),
        Err(KryptoError::ConfigError("No symbols configured for trading.".to_string()))
    );
    assert_eq!(
        trade_target(true, true, &symbols, &[]),
        Err(KryptoError::ConfigError("No intervals configured for trading.".to_string()))
    );
    assert_eq!(
        trade_target(true, true, &symbols, &intervals),
        Ok(("BTCUSDT".to_string(), Interval::OneHour))
    );
}

#[test]
fn rebalance_orders() {
    assert_eq!(rebalance(Some(OrderSide::Buy), Some(OrderSide::Sell)), Rebalance { close: Some(OrderSide::Buy), open: Some(OrderSide::Sell) });
    assert_eq!(rebalance(None, Some(OrderSide::Buy)), Rebalance { close: None, open: Some(OrderSide::Buy) });
    assert_eq!(rebalance(Some(OrderSide::Sell), None), Rebalance { close: Some(OrderSide::Sell), open: None });
    assert_eq!(rebalance(Some(OrderSide::Buy), Some(OrderSide::Buy)), Rebalance { close: None, open: None });
    assert_eq!(rebalance(None, None), Rebalance { close: None, open: None });
}

#[test]
fn order_error_messages() {
    assert_eq!(OrderError::OrderTimeout.message(), "Order timed out");
    assert_eq!(OrderError::OrderCanceled("abc".to_string()).message(), "Order canceled unexpectedly: abc");
    assert_eq!(OrderError::OrderQueryError("x".to_string()).message(), "Order status error: x");
    assert_eq!(OrderError::OrderError("y".to_string()).message(), "Order error: y");
}
