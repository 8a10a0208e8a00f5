use krypto::live::executor::OrderSide;

#[test]
fn test_order_side() {
    assert_eq!(OrderSide::Buy.as_str(), "BUY");
    assert_eq!(OrderSide::Sell.as_str(), "SELL");
}
