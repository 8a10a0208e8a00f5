//! Failures of an order placed on the exchange.

use vstd::prelude::*;
use crate::text::owned;

verus! {

/// Why an order did not go through.
#[derive(Debug, Clone, PartialEq, Eq)]
pub enum OrderError {
    OrderTimeout,
    OrderError(String),
    OrderQueryError(String),
    OrderCanceled(String),
}

impl OrderError {
    /// The description of the failure.
    pub fn message(&self) -> (r: String)
        ensures
            r@ == (match self {
                OrderError::OrderTimeout => "Order timed out"@,
                OrderError::OrderError(s) => "Order error: "@ + s@,
                OrderError::OrderQueryError(s) => "Order status error: "@ + s@,
                OrderError::OrderCanceled(s) => "Order canceled unexpectedly: "@ + s@,
            }),
    {
        match self {
            OrderError::OrderTimeout => owned("Order timed out"),
            OrderError::OrderError(s) => {
                let mut r = owned("Order error: ");
                r.append(s.as_str());
                r
            },
            OrderError::OrderQueryError(s) => {
                let mut r = owned("Order status error: ");
                r.append(s.as_str());
                r
            },
            OrderError::OrderCanceled(s) => {
                let mut r = owned("Order canceled unexpectedly: ");
                r.append(s.as_str());
                r
            },
        }
    }
}

} // verus!
