//! The side of an order sent to the exchange.

use vstd::prelude::*;

verus! {

/// Order side (buy or sell).
#[derive(Debug, Clone, Copy, PartialEq, Eq, Structural)]
pub enum OrderSide {
    Buy,
    Sell,
}

impl OrderSide {
    pub fn as_str(&self) -> (r: &'static str)
        ensures
            r@ == (match self {
                OrderSide::Buy => "BUY"@,
                OrderSide::Sell => "SELL"@,
            }),
    {
        match self {
            OrderSide::Buy => "BUY",
            OrderSide::Sell => "SELL",
        }
    }
}

} // verus!
