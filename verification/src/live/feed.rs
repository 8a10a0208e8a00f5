//! Kline events as the Binance WebSocket sends them, and the names of the
//! streams the feed subscribes to.

use vstd::prelude::*;
use vstd::string::*;
use crate::text::{lowercase, to_lowercase, owned};

verus! {

/// A kline event from Binance WebSocket.
#[derive(Debug, Clone)]
pub struct KlineEvent {
    pub event_type: String,
    pub event_time: i64,
    pub symbol: String,
    pub kline: KlineData,
}

/// Kline data within a KlineEvent; prices and volume are decimal texts.
#[derive(Debug, Clone)]
pub struct KlineData {
    pub start_time: i64,
    pub end_time: i64,
    pub symbol: String,
    pub interval: String,
    pub open: String,
    pub close: String,
    pub high: String,
    pub low: String,
    pub volume: String,
    pub is_closed: bool,
}

/// Combined stream event for multiple symbols.
#[derive(Debug, Clone)]
pub struct CombinedStreamEvent {
    pub stream: String,
    pub data: KlineEvent,
}

impl CombinedStreamEvent {
    /// Only closed candles (completed bars) are passed on to subscribers.
    pub fn should_broadcast(&self) -> (r: bool)
        ensures
            r == self.data.kline.is_closed,
    {
        self.data.kline.is_closed
    }
}

/// The stream name of a symbol's klines: `<symbol in lower case>@kline_<interval>`.
pub open spec fn stream_name(symbol: Seq<char>, interval: Seq<char>) -> Seq<char> {
    lowercase(symbol) + "@kline_"@ + interval
}

/// The names of the kline streams of all symbols, in order.
pub fn stream_names(symbols: &[String], interval: &str) -> (r: Vec<String>)
    ensures
        r@.len() == symbols@.len(),
        forall|i: int| 0 <= i < r@.len() ==> (#[trigger] r@[i])@ == stream_name(symbols@[i]@, interval@),
{
    let mut r: Vec<String> = Vec::new();
    let mut i: usize = 0;
    while i < symbols.len()
        invariant
            i <= symbols@.len(),
            r@.len() == i,
            forall|k: int| 0 <= k < i ==> (#[trigger] r@[k])@ == stream_name(symbols@[k]@, interval@),
        decreases symbols.len() - i,
    {
        let mut name = to_lowercase(symbols[i].as_str());
        name.append("@kline_");
        name.append(interval);
        r.push(name);
        i = i + 1;
    }
    r
}

} // verus!
