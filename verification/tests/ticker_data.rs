use krypto::historical_data::HistoricalData;
use krypto::krypto_error::DataError;
use krypto::ticker_data::{check_valid, CandleStamp, TickerData};

fn stamps(times: &[i64]) -> Vec<CandleStamp> {
    times.iter().map(|&t| CandleStamp { close_time: t, has_nan: false }).collect()
}

#[test]
fn close_times_within_ten_seconds_match() {
    assert!(check_valid(&1_000_000, &1_010_000));
    assert!(check_valid(&1_010_000, &1_000_000));
    assert!(!check_valid(&1_000_000, &1_010_001));
}

#[test]
fn validity_of_two_tickers() {
    let a = TickerData::new("BTC".to_string(), stamps(&[0, 60_000, 120_000]));
    let b = TickerData::new("ETH".to_string(), stamps(&[5, 60_005, 150_000]));
    let c = TickerData::new("SOL".to_string(), stamps(&[0, 60_000]));
    assert_eq!(a.ensure_validity(&b), Err(DataError::DataTimeMismatch("BTC".to_string(), "ETH".to_string(), 120_000, 150_000)));
    assert_eq!(a.ensure_validity(&c), Err(DataError::NotEnoughData("BTC".to_string())));
    assert_eq!(a.ensure_validity(&a.clone()), Ok(()));
}

#[test]
fn nan_candles_are_reported() {
    let mut candles = stamps(&[0, 1]);
    candles[1].has_nan = true;
    let t = TickerData::new("BTC".to_string(), candles);
    assert_eq!(t.find_nan(), Err(DataError::TickerHasNaN { ticker: "BTC".to_string() }));
    assert_eq!(TickerData::new("X".to_string(), stamps(&[1])).find_nan(), Ok(()));
}

#[test]
fn csv_headers_then_technicals() {
    let h = TickerData::csv_headers(&["RSI".to_string(), "MACD".to_string()]);
    assert_eq!(h, vec!["Open", "High", "Low", "Close", "Volume", "Percentage Change", "Date", "RSI", "MACD"]);
}

#[test]
fn historical_data_checks_every_pair() {
    let mut data = HistoricalData::new(vec![]);
    let ok = vec![
        TickerData::new("BTC".to_string(), stamps(&[0, 60_000])),
        TickerData::new("ETH".to_string(), stamps(&[1_000, 61_000])),
    ];
    assert_eq!(data.calculate_technicals(ok), Ok(()));
    assert_eq!(data.tickers().len(), 2);
    let bad = vec![
        TickerData::new("BTC".to_string(), stamps(&[0, 60_000])),
        TickerData::new("BTC".to_string(), stamps(&[0])),
        TickerData::new("ETH".to_string(), stamps(&[0, 90_000])),
    ];
    // same-symbol tickers are not compared; BTC against ETH mismatches first
    assert_eq!(
        data.calculate_technicals(bad),
        Err(DataError::DataTimeMismatch("BTC".to_string(), "ETH".to_string(), 60_000, 90_000))
    );
}

#[test]
fn matching_close_time_index() {
    let data = HistoricalData::new(vec![TickerData::new("BTC".to_string(), stamps(&[0, 60_000, 120_000]))]);
    assert_eq!(data.find_matching_close_time_index(119_995), 2);
    assert_eq!(data.find_matching_close_time_index(60_000), 1);
    assert_eq!(data.find_matching_close_time_index(500_000), 0);
}
