//! Open-interest history: the periods the exchange aggregates it by, where it
//! is cached, and the request for the latest window of it.

use vstd::prelude::*;
use vstd::string::*;
use crate::data::dataset::cache::{join_path, path_join};
use crate::text::{lowercase, owned, signed_decimal, signed_decimal_string, to_lowercase};

verus! {

/// The length of the daily open-interest period in milliseconds.
pub const OI_INTERVAL_MS_1D: i64 = 86_400_000;

/// Most records that one open-interest request returns.
pub const OI_PAGE_LIMIT: u64 = 500;

/// A period of open-interest history: its label in requests, and its length in milliseconds.
#[derive(Debug, Clone, Copy)]
pub struct OpenInterestPeriod {
    pub label: &'static str,
    pub interval_ms: i64,
}

impl OpenInterestPeriod {
    /// Five minutes.
    pub fn m5() -> (r: Self)
        ensures r.label@ == "5m"@, r.interval_ms == 300_000,
    {
        OpenInterestPeriod { label: "5m", interval_ms: 5 * 60 * 1000 }
    }

    /// Fifteen minutes.
    pub fn m15() -> (r: Self)
        ensures r.label@ == "15m"@, r.interval_ms == 900_000,
    {
        OpenInterestPeriod { label: "15m", interval_ms: 15 * 60 * 1000 }
    }

    /// Thirty minutes.
    pub fn m30() -> (r: Self)
        ensures r.label@ == "30m"@, r.interval_ms == 1_800_000,
    {
        OpenInterestPeriod { label: "30m", interval_ms: 30 * 60 * 1000 }
    }

    /// One hour.
    pub fn h1() -> (r: Self)
        ensures r.label@ == "1h"@, r.interval_ms == 3_600_000,
    {
        OpenInterestPeriod { label: "1h", interval_ms: 60 * 60 * 1000 }
    }

    /// Two hours.
    pub fn h2() -> (r: Self)
        ensures r.label@ == "2h"@, r.interval_ms == 7_200_000,
    {
        OpenInterestPeriod { label: "2h", interval_ms: 2 * 60 * 60 * 1000 }
    }

    /// Four hours.
    pub fn h4() -> (r: Self)
        ensures r.label@ == "4h"@, r.interval_ms == 14_400_000,
    {
        OpenInterestPeriod { label: "4h", interval_ms: 4 * 60 * 60 * 1000 }
    }

    /// Six hours.
    pub fn h6() -> (r: Self)
        ensures r.label@ == "6h"@, r.interval_ms == 21_600_000,
    {
        OpenInterestPeriod { label: "6h", interval_ms: 6 * 60 * 60 * 1000 }
    }

    /// Twelve hours.
    pub fn h12() -> (r: Self)
        ensures r.label@ == "12h"@, r.interval_ms == 43_200_000,
    {
        OpenInterestPeriod { label: "12h", interval_ms: 12 * 60 * 60 * 1000 }
    }

    /// One day, the period fetched by default.
    pub fn d1() -> (r: Self)
        ensures r.label@ == "1d"@, r.interval_ms == OI_INTERVAL_MS_1D,
    {
        OpenInterestPeriod { label: "1d", interval_ms: 24 * 60 * 60 * 1000 }
    }
}

/// Configuration for caching open-interest history.
#[derive(Debug, Clone)]
pub struct OpenInterestCacheConfig {
    pub dir: String,
    pub enabled: bool,
}

impl Default for OpenInterestCacheConfig {
    fn default() -> (r: Self)
        ensures
            r.dir@ == "data/open_interest_cache"@,
            r.enabled,
    {
        OpenInterestCacheConfig { dir: owned("data/open_interest_cache"), enabled: true }
    }
}

/// The cache file of a symbol's open interest for a period:
/// `<symbol in lower case>_oi_<period>.parquet` in the directory.
pub open spec fn oi_cache_path(dir: Seq<char>, symbol: Seq<char>, label: Seq<char>) -> Seq<char> {
    path_join(dir, lowercase(symbol) + "_oi_"@ + label + ".parquet"@)
}

impl OpenInterestCacheConfig {
    /// The cache file of a symbol's open interest for a period.
    pub fn cache_path(&self, symbol: &str, period: OpenInterestPeriod) -> (r: String)
        ensures
            r@ == oi_cache_path(self.dir@, symbol@, period.label@),
    {
        let mut name = to_lowercase(symbol);
        name.append("_oi_");
        name.append(period.label);
        name.append(".parquet");
        join_path(self.dir.as_str(), name.as_str())
    }

    /// Whether the cache is read and written for a request: only when caching
    /// is on and the whole history (no start, no end) is asked for.
    pub fn applies(&self, has_start: bool, has_end: bool) -> (r: bool)
        ensures
            r == (self.enabled && !has_start && !has_end),
    {
        self.enabled && !has_start && !has_end
    }
}

/// The request for the latest window of a symbol's open interest for a
/// period, ending at `end_ms` when one is given.
pub open spec fn oi_request_url(symbol: Seq<char>, label: Seq<char>, end_ms: Option<i64>) -> Seq<char> {
    let base = "https://fapi.binance.com/futures/data/openInterestHist?symbol="@ + symbol + "&period="@
        + label + "&limit=500"@;
    match end_ms {
        Some(e) => base + "&endTime="@ + signed_decimal(e as int),
        None => base,
    }
}

/// Builds the open-interest request for a symbol and period.
pub fn request_url(symbol: &str, period: OpenInterestPeriod, end_ms: Option<i64>) -> (r: String)
    ensures
        r@ == oi_request_url(symbol@, period.label@, end_ms),
{
    let mut url = owned("https://fapi.binance.com/futures/data/openInterestHist?symbol=");
    url.append(symbol);
    url.append("&period=");
    url.append(period.label);
    url.append("&limit=500");
    match end_ms {
        Some(e) => {
            url.append("&endTime=");
            url.append(signed_decimal_string(e).as_str());
        },
        None => {},
    }
    assert(url@ =~= oi_request_url(symbol@, period.label@, end_ms));
    url
}

} // verus!
