use krypto::live::mock_exchange::{
    draw_bits, rng_seed, xorshift_next, MockOrderStatus, MockOrderType, MockSide, OrderLedger,
};

#[test]
fn order_ids_are_numbered_per_book() {
    let mut book = OrderLedger::new();
    let a = book.place("BTC", MockSide::Buy, MockOrderType::Limit, 500, 0);
    let b = book.place("ETH", MockSide::Sell, MockOrderType::Market, 0, 0);
    let c = book.place("BTC", MockSide::Buy, MockOrderType::StopLoss, 500, 3);
    assert_eq!(a, "mock_BTC_1");
    assert_eq!(b, "mock_ETH_2");
    assert_eq!(c, "mock_BTC_3");
    assert_eq!(book.len(), 3);
    assert_eq!(book.get("mock_BTC_3").unwrap().created_bar, 3);
    assert!(book.get("mock_BTC_4").is_none());
}

#[test]
fn cancel_only_pending_orders() {
    let mut book = OrderLedger::new();
    let new_id = book.place("BTC", MockSide::Buy, MockOrderType::Limit, 500, 0);
    assert!(book.cancel_order(&new_id));
    assert_eq!(book.get(&new_id).unwrap().status, MockOrderStatus::Cancelled);
    // cancelling a cancelled order fails
    assert!(!book.cancel_order(&new_id));

    let filled = book.place("BTC", MockSide::Buy, MockOrderType::Market, 0, 0);
    let k = book.find(&filled).unwrap();
    book.mark_filled(k);
    assert!(!book.cancel_order(&filled), "Cannot cancel a filled order");
    assert_eq!(book.get(&filled).unwrap().status, MockOrderStatus::Filled);
    assert!(!book.cancel_order("mock_BTC_99"));
}

#[test]
fn good_till_cancelled_orders_expire() {
    let mut book = OrderLedger::new();
    let limit = book.place("BTC", MockSide::Buy, MockOrderType::Limit, 2, 0);
    let stop = book.place("BTC", MockSide::Sell, MockOrderType::StopLoss, 2, 0);
    book.tick_down();
    assert_eq!(book.get(&limit).unwrap().bars_remaining, 1);
    assert_eq!(book.pending(), vec![0, 1]);
    assert!(!book.expire_if_due(0));
    book.tick_down();
    book.tick_down();
    assert_eq!(book.get(&limit).unwrap().bars_remaining, 0);
    // limit orders expire, stop-loss orders do not
    assert!(book.expire_if_due(0));
    assert!(!book.expire_if_due(1));
    assert_eq!(book.get(&limit).unwrap().status, MockOrderStatus::Cancelled);
    assert_eq!(book.get(&stop).unwrap().status, MockOrderStatus::New);
    assert_eq!(book.pending(), vec![1]);
}

#[test]
fn generator_is_xorshift() {
    let s = rng_seed();
    assert_eq!(s, 0xC0FFEE_BADC0DE);
    let mut x = s;
    x ^= x << 13;
    x ^= x >> 7;
    x ^= x << 17;
    assert_eq!(xorshift_next(s), x);
    assert_ne!(xorshift_next(s), s);
    assert_eq!(draw_bits(u64::MAX), (1u64 << 53) - 1);
    assert_eq!(draw_bits(1u64 << 53), 0);
}

#[test]
fn names_of_sides_and_types() {
    assert_eq!(MockSide::Buy.as_str(), "BUY");
    assert_eq!(MockSide::Sell.as_str(), "SELL");
    assert_eq!(MockOrderType::StopLoss.name(), "StopLoss");
    assert_eq!(MockOrderType::Limit.name(), "Limit");
}

#[test]
fn test_gtc_expiry() {
    let mut book = OrderLedger::new();
    // a limit order that never triggers, good for two bars
    let oid = book.place("BTC", MockSide::Buy, MockOrderType::Limit, 2, 0);
    // first bar: 2 -> 1, not due
    book.tick_down();
    for k in book.pending() {
        assert!(!book.expire_if_due(k));
    }
    // second bar: 1 -> 0, expires
    book.tick_down();
    for k in book.pending() {
        book.expire_if_due(k);
    }
    assert_eq!(book.get(&oid).unwrap().status, MockOrderStatus::Cancelled);
}

#[test]
fn test_cancel_order() {
    let mut book = OrderLedger::new();
    // cancel a new order: succeeds
    let oid_new = book.place("BTC", MockSide::Buy, MockOrderType::Limit, 500, 0);
    assert!(book.cancel_order(&oid_new));
    assert_eq!(book.get(&oid_new).unwrap().status, MockOrderStatus::Cancelled);
    // a market order fills immediately; cancelling it fails
    let filled_oid = book.place("BTC", MockSide::Buy, MockOrderType::Market, 0, 0);
    let k = book.find(&filled_oid).unwrap();
    book.mark_filled(k);
    assert!(!book.cancel_order(&filled_oid), "Cannot cancel a filled order");
    // cancelling a cancelled order fails
    assert!(!book.cancel_order(&oid_new), "Cannot cancel an already-cancelled order");
}
