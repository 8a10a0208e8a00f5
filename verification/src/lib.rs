use vstd::prelude::*;

pub mod data;
pub mod dataset;
pub mod error;
pub mod experiment;
pub mod historical_data;
pub mod historical_data_request;
pub mod interval;
pub mod krypto_error;
pub mod ticker_data;
pub mod live;
pub mod mission;
pub mod optimisation;
pub mod order_event;
pub mod relationships;
pub mod test_result;
pub mod testing;
pub mod text;
pub mod util;

verus! {

} // verus!
