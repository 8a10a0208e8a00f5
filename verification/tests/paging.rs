use krypto::data::funding_rate::{FundingCacheConfig, FundingPager, FUNDING_HISTORY_START_MS, FUNDING_INTERVAL_MS};
use krypto::data::loader::{cached_slice, chronological_indices, no_data_error, KlinePager, KlineRequest};
use krypto::data::open_interest::{request_url, OpenInterestCacheConfig, OpenInterestPeriod};

#[test]
fn kline_pager_walks_back_page_by_page() {
    let mut pager = KlinePager::new(2500);
    assert_eq!(pager.next_request(), Some(KlineRequest { limit: 1000, end_time: None }));
    pager.record_page(1000, Some(5_000_000));
    assert_eq!(pager.remaining, 1500);
    assert_eq!(pager.next_request(), Some(KlineRequest { limit: 1000, end_time: Some(4_999_999) }));
    pager.record_page(1000, Some(4_000_000));
    assert_eq!(pager.next_request(), Some(KlineRequest { limit: 500, end_time: Some(3_999_999) }));
    pager.record_page(500, Some(3_000_000));
    assert_eq!(pager.next_request(), None);
    assert_eq!(pager.requests_made, 3);
}

#[test]
fn kline_pager_stops_on_an_empty_page() {
    let mut pager = KlinePager::new(10);
    pager.record_page(4, Some(100));
    assert_eq!(pager.next_request(), Some(KlineRequest { limit: 6, end_time: Some(99) }));
    pager.record_page(0, None);
    assert!(pager.exhausted);
    assert_eq!(pager.remaining, 6);
    assert_eq!(pager.next_request(), None);
    // more candles than asked for still end the paging
    let mut over = KlinePager::new(3);
    over.record_page(7, Some(0));
    assert_eq!(over.remaining, 0);
    assert_eq!(over.end_time, Some(u64::MAX));
    assert_eq!(over.next_request(), None);
}

#[test]
fn candles_are_ordered_and_deduplicated_by_open_time() {
    // two pages fetched newest first, overlapping at time 30
    let times = vec![30, 40, 50, 10, 20, 30];
    assert_eq!(chronological_indices(&times), vec![3, 4, 0, 1, 2]);
    assert_eq!(chronological_indices(&[]), Vec::<usize>::new());
    assert_eq!(chronological_indices(&[5, 5, 5]), vec![0]);
    assert_eq!(chronological_indices(&[-1, i64::MIN, i64::MAX, -1]), vec![1, 0, 2]);
}

#[test]
fn cache_slices_the_newest_rows() {
    assert_eq!(cached_slice(1500, 1000), Some((500, 1000)));
    assert_eq!(cached_slice(1000, 1000), Some((0, 1000)));
    assert_eq!(cached_slice(999, 1000), None);
}

#[test]
fn empty_fetch_message() {
    assert_eq!(
        no_data_error("FOOUSDT", "1h"),
        "No data returned for symbol 'FOOUSDT' with interval '1h'. Check that the symbol exists."
    );
}

#[test]
fn funding_cache_and_request() {
    let cache = FundingCacheConfig::default();
    assert!(cache.enabled);
    assert_eq!(cache.dir, "data/funding_cache");
    assert_eq!(cache.cache_path("BTCUSDT"), "data/funding_cache/btcusdt_funding.parquet");
    let pager = FundingPager::new(None, None);
    assert_eq!(pager.current_start, FUNDING_HISTORY_START_MS);
    assert_eq!(pager.end_ms, i64::MAX);
    assert_eq!(
        pager.request_url("ETHUSDT"),
        "https://fapi.binance.com/fapi/v1/fundingRate?symbol=ETHUSDT&limit=1000&startTime=1577836800000"
    );
    assert_eq!(
        FundingPager::new(Some(-5), Some(0)).request_url("X"),
        "https://fapi.binance.com/fapi/v1/fundingRate?symbol=X&limit=1000&startTime=-5"
    );
}

#[test]
fn funding_pager_keeps_records_up_to_the_end() {
    let mut pager = FundingPager::new(Some(0), Some(100));
    let kept = pager.record_page(&[50, 90, 100, 130]);
    assert_eq!(kept, vec![0, 1, 2]);
    assert!(pager.done);
}

#[test]
fn funding_pager_advances_after_a_full_page() {
    let mut pager = FundingPager::new(Some(0), None);
    let times: Vec<i64> = (0..1000).map(|i| i * FUNDING_INTERVAL_MS).collect();
    let kept = pager.record_page(&times);
    assert_eq!(kept.len(), 1000);
    assert!(!pager.done);
    assert_eq!(pager.current_start, 1000 * FUNDING_INTERVAL_MS);
    // a short page ends the paging
    let kept = pager.record_page(&times[..10]);
    assert_eq!(kept.len(), 10);
    assert!(pager.done);
    // so does an empty one
    let mut empty = FundingPager::new(None, None);
    assert!(empty.record_page(&[]).is_empty());
    assert!(empty.done);
}

#[test]
fn open_interest_cache_and_request() {
    let cache = OpenInterestCacheConfig::default();
    assert_eq!(cache.dir, "data/open_interest_cache");
    assert_eq!(cache.cache_path("BTCUSDT", OpenInterestPeriod::d1()), "data/open_interest_cache/btcusdt_oi_1d.parquet");
    assert!(cache.applies(false, false));
    assert!(!cache.applies(true, false));
    assert_eq!(
        request_url("BTCUSDT", OpenInterestPeriod::h4(), None),
        "https://fapi.binance.com/futures/data/openInterestHist?symbol=BTCUSDT&period=4h&limit=500"
    );
    assert_eq!(
        request_url("BTCUSDT", OpenInterestPeriod::d1(), Some(1_700_000_000_000)),
        "https://fapi.binance.com/futures/data/openInterestHist?symbol=BTCUSDT&period=1d&limit=500&endTime=1700000000000"
    );
    assert_eq!(OpenInterestPeriod::m15().interval_ms, 900_000);
    assert_eq!(OpenInterestPeriod::h12().label, "12h");
}
