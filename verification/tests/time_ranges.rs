use krypto::data::interval::Interval;
use krypto::dataset::get_timestamps;
use krypto::historical_data_request::HistoricalDataRequest;
use krypto::util::transpose;

#[test]
fn timestamps_cover_range_in_chunks_of_a_thousand_candles() {
    let step = 60_000 * 1000;
    let v = get_timestamps(0, 2 * step + 5, Interval::OneMinute).unwrap();
    assert_eq!(v, vec![(0, step), (step, 2 * step), (2 * step, 2 * step + 5)]);
    assert!(get_timestamps(10, 10, Interval::OneDay).unwrap().is_empty());
}

#[test]
fn request_window_and_fetch_starts() {
    let r = HistoricalDataRequest::new(10_000_000_000, 60, 10, 2);
    assert_eq!(r.end_time, 10_000_000_000);
    assert_eq!(r.start_time, 10_000_000_000 - 60 * 10 * 2 * 60_000);
    let starts = r.fetch_start_times(1);
    assert_eq!(starts, vec![10_000_000_000u64 - 72_000_000, 10_000_000_000u64 - 12_000_000]);
    let wide = HistoricalDataRequest { start_time: 0, end_time: 130_000_000 };
    assert_eq!(wide.fetch_start_times(1), vec![0, 60_000_000, 120_000_000]);
}

#[test]
fn transpose_rows_and_columns() {
    let m = vec![vec![1, 2, 3], vec![4, 5, 6]];
    assert_eq!(transpose(&m), vec![vec![1, 4], vec![2, 5], vec![3, 6]]);
    let ragged = vec![vec!["a".to_string()], vec!["b".to_string(), "c".to_string()]];
    assert_eq!(transpose(&ragged), vec![vec!["a".to_string(), "b".to_string()]]);
}

#[test]
fn transposing_twice_gives_the_matrix_back() {
    let m = vec![vec![1u64, 2, 3], vec![4, 5, 6]];
    assert_eq!(transpose(&transpose(&m)), m);
    let single = vec![vec![7i64]];
    assert_eq!(transpose(&transpose(&single)), single);
}
