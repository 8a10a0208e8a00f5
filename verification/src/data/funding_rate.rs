//! Perpetual funding rates: where their history is cached, and how it is
//! fetched page by page from the exchange, oldest first.

use vstd::prelude::*;
use vstd::string::*;
use crate::data::dataset::cache::{join_path, path_join};
use crate::text::{lowercase, owned, signed_decimal, signed_decimal_string, to_lowercase};

verus! {

/// Funding interval in milliseconds (8 hours).
pub const FUNDING_INTERVAL_MS: i64 = 28_800_000;

/// Most funding records that one request returns.
pub const FUNDING_PAGE_LIMIT: usize = 1000;

/// Where the history starts when no start is given: 2020-01-01 00:00 UTC, in
/// milliseconds (the earliest reliable perpetual data).
pub const FUNDING_HISTORY_START_MS: i64 = 1_577_836_800_000;

/// The funding interval is eight hours.
pub proof fn lemma_funding_interval_is_eight_hours()
    ensures
        FUNDING_INTERVAL_MS == 8 * 3600 * 1000,
{
}

/// Configuration for caching funding rate data.
#[derive(Debug, Clone)]
pub struct FundingCacheConfig {
    pub dir: String,
    pub enabled: bool,
}

impl Default for FundingCacheConfig {
    fn default() -> (r: Self)
        ensures
            r.dir@ == "data/funding_cache"@,
            r.enabled,
    {
        FundingCacheConfig { dir: owned("data/funding_cache"), enabled: true }
    }
}

/// The cache file of a symbol's funding history: `<symbol in lower case>_funding.parquet` in the directory.
pub open spec fn funding_cache_path(dir: Seq<char>, symbol: Seq<char>) -> Seq<char> {
    path_join(dir, lowercase(symbol) + "_funding.parquet"@)
}

impl FundingCacheConfig {
    /// The cache file of a symbol's funding history.
    pub fn cache_path(&self, symbol: &str) -> (r: String)
        ensures
            r@ == funding_cache_path(self.dir@, symbol@),
    {
        let mut name = to_lowercase(symbol);
        name.append("_funding.parquet");
        join_path(self.dir.as_str(), name.as_str())
    }
}

/// The request for a page of funding history starting at `start` (in ms).
pub open spec fn funding_page_url(symbol: Seq<char>, start: int) -> Seq<char> {
    "https://fapi.binance.com/fapi/v1/fundingRate?symbol="@ + symbol + "&limit=1000&startTime="@
        + signed_decimal(start)
}

/// The positions among the first `n` funding times that are not after `end`, in order.
pub open spec fn within_end(times: Seq<i64>, end: i64, n: int) -> Seq<usize>
    decreases n,
{
    if n <= 0 {
        Seq::empty()
    } else if times[n - 1] <= end {
        within_end(times, end, n - 1).push((n - 1) as usize)
    } else {
        within_end(times, end, n - 1)
    }
}

/// The state of fetching funding history forward in time: where the next page
/// starts, the last time wanted, and whether paging has stopped.
#[derive(Debug, Clone, Copy, PartialEq, Eq, Structural)]
pub struct FundingPager {
    pub current_start: i64,
    pub end_ms: i64,
    pub done: bool,
}

impl FundingPager {
    /// Whether the page with these times is full and ends before the last
    /// wanted time, so that another page follows.
    pub open spec fn continues_after(&self, times: Seq<i64>) -> bool {
        times.len() >= FUNDING_PAGE_LIMIT && times.last() < self.end_ms
    }

    /// Starts paging from `start_ms` (or the start of the history) up to
    /// `end_ms` (or without an end).
    pub fn new(start_ms: Option<i64>, end_ms: Option<i64>) -> (r: Self)
        ensures
            r.current_start == (match start_ms { Some(s) => s, None => FUNDING_HISTORY_START_MS }),
            r.end_ms == (match end_ms { Some(e) => e, None => i64::MAX }),
            !r.done,
    {
        let current_start = match start_ms {
            Some(s) => s,
            None => FUNDING_HISTORY_START_MS,
        };
        let end = match end_ms {
            Some(e) => e,
            None => i64::MAX,
        };
        FundingPager { current_start, end_ms: end, done: false }
    }

    /// The request for the next page of a symbol's funding history.
    pub fn request_url(&self, symbol: &str) -> (r: String)
        ensures
            r@ == funding_page_url(symbol@, self.current_start as int),
    {
        let mut url = owned("https://fapi.binance.com/fapi/v1/fundingRate?symbol=");
        url.append(symbol);
        url.append("&limit=1000&startTime=");
        url.append(signed_decimal_string(self.current_start).as_str());
        assert(url@ =~= funding_page_url(symbol@, self.current_start as int));
        url
    }

    /// Records a page of funding records, given their funding times in the
    /// order received, and returns the positions of the records to keep
    /// (those not after the last wanted time). Paging stops on an empty page,
    /// on a page that reaches the last wanted time, or on a page that is not
    /// full; otherwise the next page starts one funding interval after the
    /// page's last record.
    pub fn record_page(&mut self, funding_times: &[i64]) -> (kept: Vec<usize>)
        requires
            !old(self).done,
            old(self).continues_after(funding_times@)
                ==> funding_times@.last() + FUNDING_INTERVAL_MS <= i64::MAX,
        ensures
            kept@ == within_end(funding_times@, old(self).end_ms, funding_times@.len() as int),
            final(self).end_ms == old(self).end_ms,
            final(self).done == !old(self).continues_after(funding_times@),
            old(self).continues_after(funding_times@)
                ==> final(self).current_start == funding_times@.last() + FUNDING_INTERVAL_MS,
            !old(self).continues_after(funding_times@) ==> final(self).current_start == old(self).current_start,
    {
        let n = funding_times.len();
        let mut kept: Vec<usize> = Vec::new();
        if n == 0 {
            self.done = true;
            return kept;
        }
        let mut i: usize = 0;
        while i < n
            invariant
                n == funding_times@.len(),
                i <= n,
                *self == *old(self),
                kept@ == within_end(funding_times@, self.end_ms, i as int),
            decreases n - i,
        {
            if funding_times[i] <= self.end_ms {
                kept.push(i);
            }
            i = i + 1;
        }
        let last_time = funding_times[n - 1];
        if last_time >= self.end_ms || n < FUNDING_PAGE_LIMIT {
            self.done = true;
        } else {
            self.current_start = last_time + FUNDING_INTERVAL_MS;
        }
        kept
    }
}

/// The kept positions are increasing, each is a record not after `end`, and
/// every such record is kept.
pub proof fn lemma_within_end(times: Seq<i64>, end: i64, n: int)
    requires
        0 <= n <= times.len(),
        times.len() <= usize::MAX,
    ensures
        forall|k: int| 0 <= k < within_end(times, end, n).len()
            ==> #[trigger] within_end(times, end, n)[k] < n && times[within_end(times, end, n)[k] as int] <= end,
        forall|a: int, b: int| 0 <= a < b < within_end(times, end, n).len()
            ==> #[trigger] within_end(times, end, n)[a] < #[trigger] within_end(times, end, n)[b],
        forall|i: int| 0 <= i < n && times[i] <= end
            ==> #[trigger] within_end(times, end, n).contains(i as usize),
    decreases n,
{
    if n > 0 {
        lemma_within_end(times, end, n - 1);
        let prev = within_end(times, end, n - 1);
        if times[n - 1] <= end {
            let cur = prev.push((n - 1) as usize);
            assert(cur == within_end(times, end, n));
            assert forall|k: int| 0 <= k < cur.len() implies #[trigger] cur[k] < n && times[cur[k] as int] <= end by {
                if k < prev.len() {
                    assert(cur[k] == prev[k]);
                }
            }
            assert forall|a: int, b: int| 0 <= a < b < cur.len() implies #[trigger] cur[a] < #[trigger] cur[b] by {
                assert(cur[a] == prev[a]);
                if b < prev.len() {
                    assert(cur[b] == prev[b]);
                }
            }
            assert forall|i: int| 0 <= i < n && times[i] <= end implies #[trigger] cur.contains(i as usize) by {
                if i == n - 1 {
                    assert(cur[prev.len() as int] == (n - 1) as usize);
                } else {
                    assert(prev.contains(i as usize));
                    let k = choose|k: int| 0 <= k < prev.len() && prev[k] == i as usize;
                    assert(cur[k] == prev[k]);
                }
            }
        } else {
            assert(prev == within_end(times, end, n));
        }
    }
}

} // verus!
