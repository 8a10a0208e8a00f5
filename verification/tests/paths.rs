use krypto::data::dataset::cache::{get_cache_path, join_path};
use krypto::data::funding_rate::FUNDING_INTERVAL_MS;
use krypto::data::interval::Interval;
use krypto::data::loader::CacheConfig;
use krypto::error::KryptoError;
use krypto::relationships::blacklist_indexes;

#[test]
fn test_cache_key_format() {
    let cache = CacheConfig::default();
    let key = cache.cache_key("BTCUSDT", "1h");
    assert!(key.contains("btcusdt"));
    assert!(key.contains("1h"));
    assert!(key.ends_with(".parquet"));
    assert_eq!(key, "data/cache/btcusdt_1h.parquet");
}

#[test]
fn test_cache_config_default() {
    let config = CacheConfig::default();
    assert!(config.enabled);
    assert_eq!(config.cache_dir, "data/cache");
}

#[test]
fn test_funding_interval_ms() {
    assert_eq!(FUNDING_INTERVAL_MS, 28_800_000); // 8h in ms
}

#[test]
fn cache_paths() {
    assert_eq!(
        get_cache_path(&Some("cache".to_string()), "BTCUSDT", &Interval::FourHours),
        Ok("cache/BTCUSDT_4h_v1.bin".to_string())
    );
    assert_eq!(
        get_cache_path(&Some("cache/".to_string()), "ETHUSDT", &Interval::OneMonth),
        Ok("cache/ETHUSDT_1M_v1.bin".to_string())
    );
    assert_eq!(
        get_cache_path(&None, "BTCUSDT", &Interval::OneDay),
        Err(KryptoError::ConfigError("Cache directory is not configured.".to_string()))
    );
}

#[test]
fn joins_like_pathbuf() {
    for (dir, name) in [("a", "b"), ("a/", "b"), ("", "b"), ("a", "/b"), ("/x/y", "z.bin")] {
        let expected = std::path::Path::new(dir).join(name).to_string_lossy().into_owned();
        assert_eq!(join_path(dir, name), expected);
    }
}

#[test]
fn blacklisted_positions() {
    let tickers: Vec<String> = ["BTC", "USDC", "ETH", "FDUSD"].iter().map(|s| s.to_string()).collect();
    let blacklist: Vec<String> = ["FDUSD", "USDC", "DAI"].iter().map(|s| s.to_string()).collect();
    assert_eq!(blacklist_indexes(&tickers, &blacklist), vec![1, 3]);
    assert!(blacklist_indexes(&tickers, &vec![]).is_empty());
}
