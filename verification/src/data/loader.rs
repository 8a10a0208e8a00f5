//! Where the candle loader caches the data it fetched.

use vstd::prelude::*;
use vstd::string::*;
use crate::text::{lowercase, to_lowercase, owned};

verus! {

/// Configuration for data caching behavior.
#[derive(Debug, Clone)]
pub struct CacheConfig {
    /// Directory to store cached data
    pub cache_dir: String,
    /// Whether to use caching (default: true)
    pub enabled: bool,
}

/// The cache file of a symbol and interval: `<dir>/<symbol in lower case>_<interval>.parquet`.
pub open spec fn spec_cache_key(dir: Seq<char>, symbol: Seq<char>, interval: Seq<char>) -> Seq<char> {
    dir + "/"@ + lowercase(symbol) + "_"@ + interval + ".parquet"@
}

impl Default for CacheConfig {
    fn default() -> (r: Self)
        ensures
            r.cache_dir@ == "data/cache"@,
            r.enabled,
    {
        CacheConfig { cache_dir: owned("data/cache"), enabled: true }
    }
}

impl CacheConfig {
    /// The cache file of a symbol and interval.
    pub fn cache_key(&self, symbol: &str, interval: &str) -> (r: String)
        ensures
            r@ == spec_cache_key(self.cache_dir@, symbol@, interval@),
    {
        let mut key = self.cache_dir.clone();
        key.append("/");
        key.append(to_lowercase(symbol).as_str());
        key.append("_");
        key.append(interval);
        key.append(".parquet");
        key
    }
}

/// `idx` picks positions of `times` whose times strictly increase.
pub open spec fn increasing_at(times: Seq<i64>, idx: Seq<usize>) -> bool {
    forall|a: int, b: int|
        0 <= a < b < idx.len() ==> times[#[trigger] idx[a] as int] < times[#[trigger] idx[b] as int]
}

/// Some picked position of `times` holds the time `t`.
pub open spec fn picks_time(times: Seq<i64>, idx: Seq<usize>, t: i64) -> bool {
    exists|k: int| 0 <= k < idx.len() && times[#[trigger] idx[k] as int] == t
}

/// Every time among the first `n` of `times` is the time of some picked position.
pub open spec fn covers_prefix(times: Seq<i64>, idx: Seq<usize>, n: int) -> bool {
    forall|j: int| 0 <= j < n ==> #[trigger] picks_time(times, idx, times[j])
}

/// Each picked position is the first position of `times` that holds its time.
pub open spec fn first_occurrences(times: Seq<i64>, idx: Seq<usize>) -> bool {
    forall|k: int, j: int| #![trigger idx[k], times[j]]
        0 <= k < idx.len() && 0 <= j < idx[k] ==> times[j] != times[idx[k] as int]
}

/// `idx` lists, oldest first, one position for each distinct time of `times`:
/// the first position that holds it. This is the order that sorting candles by
/// open time (a stable sort) and then dropping repeated open times leaves.
pub open spec fn chronological(times: Seq<i64>, idx: Seq<usize>) -> bool {
    &&& forall|k: int| 0 <= k < idx.len() ==> #[trigger] idx[k] < times.len()
    &&& increasing_at(times, idx)
    &&& covers_prefix(times, idx, times.len() as int)
    &&& first_occurrences(times, idx)
}

proof fn lemma_skip_repeated(times: Seq<i64>, idx: Seq<usize>, i: int, p: int)
    requires
        0 <= i < times.len(),
        covers_prefix(times, idx, i),
        0 <= p < idx.len(),
        times[idx[p] as int] == times[i],
    ensures
        covers_prefix(times, idx, i + 1),
{
    assert(picks_time(times, idx, times[i]));
}

proof fn lemma_insert_increasing(times: Seq<i64>, old_idx: Seq<usize>, i: usize, p: int)
    requires
        i < times.len(),
        forall|k: int| 0 <= k < old_idx.len() ==> #[trigger] old_idx[k] < i,
        increasing_at(times, old_idx),
        0 <= p <= old_idx.len(),
        forall|k: int| 0 <= k < p ==> times[#[trigger] old_idx[k] as int] < times[i as int],
        forall|k: int| p <= k < old_idx.len() ==> times[#[trigger] old_idx[k] as int] > times[i as int],
    ensures
        increasing_at(times, old_idx.insert(p, i)),
{
    let new_idx = old_idx.insert(p, i);
    assert forall|a: int, b: int| 0 <= a < b < new_idx.len() implies
        times[#[trigger] new_idx[a] as int] < times[#[trigger] new_idx[b] as int] by {
        if b < p {
            assert(new_idx[a] == old_idx[a] && new_idx[b] == old_idx[b]);
        } else if b == p {
            assert(new_idx[a] == old_idx[a]);
        } else if a < p {
            assert(new_idx[a] == old_idx[a] && new_idx[b] == old_idx[b - 1]);
        } else if a == p {
            assert(new_idx[b] == old_idx[b - 1]);
        } else {
            assert(new_idx[a] == old_idx[a - 1] && new_idx[b] == old_idx[b - 1]);
        }
    }
}

proof fn lemma_insert_covers(times: Seq<i64>, old_idx: Seq<usize>, i: usize, p: int)
    requires
        i < times.len(),
        covers_prefix(times, old_idx, i as int),
        0 <= p <= old_idx.len(),
    ensures
        covers_prefix(times, old_idx.insert(p, i), i + 1),
{
    let new_idx = old_idx.insert(p, i);
    assert forall|j: int| 0 <= j < i + 1 implies #[trigger] picks_time(times, new_idx, times[j]) by {
        if j == i {
            assert(new_idx[p] == i);
        } else {
            assert(picks_time(times, old_idx, times[j]));
            let k = choose|k: int| 0 <= k < old_idx.len() && times[#[trigger] old_idx[k] as int] == times[j];
            if k < p {
                assert(new_idx[k] == old_idx[k]);
            } else {
                assert(new_idx[k + 1] == old_idx[k]);
            }
        }
    }
}

proof fn lemma_insert_first(times: Seq<i64>, old_idx: Seq<usize>, i: usize, p: int)
    requires
        i < times.len(),
        first_occurrences(times, old_idx),
        0 <= p <= old_idx.len(),
        forall|j: int| #![trigger times[j]] 0 <= j < i ==> times[j] != times[i as int],
    ensures
        first_occurrences(times, old_idx.insert(p, i)),
{
    let new_idx = old_idx.insert(p, i);
    assert forall|k: int, j: int| #![trigger new_idx[k], times[j]]
        0 <= k < new_idx.len() && 0 <= j < new_idx[k] implies times[j] != times[new_idx[k] as int] by {
        if k > p {
            assert(new_idx[k] == old_idx[k - 1]);
        } else if k < p {
            assert(new_idx[k] == old_idx[k]);
        }
    }
}

proof fn lemma_insert_new(times: Seq<i64>, old_idx: Seq<usize>, i: usize, p: int)
    requires
        i < times.len(),
        forall|k: int| 0 <= k < old_idx.len() ==> #[trigger] old_idx[k] < i,
        increasing_at(times, old_idx),
        covers_prefix(times, old_idx, i as int),
        first_occurrences(times, old_idx),
        0 <= p <= old_idx.len(),
        forall|k: int| 0 <= k < p ==> times[#[trigger] old_idx[k] as int] < times[i as int],
        p < old_idx.len() ==> times[old_idx[p] as int] > times[i as int],
    ensures
        ({
            let new_idx = old_idx.insert(p, i);
            &&& forall|k: int| 0 <= k < new_idx.len() ==> #[trigger] new_idx[k] < i + 1
            &&& increasing_at(times, new_idx)
            &&& covers_prefix(times, new_idx, i + 1)
            &&& first_occurrences(times, new_idx)
        }),
{
    let t = times[i as int];
    let new_idx = old_idx.insert(p, i);
    assert forall|k: int| p <= k < old_idx.len() implies times[#[trigger] old_idx[k] as int] > t by {
        if k > p {
            assert(times[old_idx[p] as int] < times[old_idx[k] as int]);
        }
    }
    assert forall|j: int| #![trigger times[j]] 0 <= j < i implies times[j] != t by {
        if times[j] == t {
            assert(picks_time(times, old_idx, times[j]));
            let k = choose|k: int| 0 <= k < old_idx.len() && times[#[trigger] old_idx[k] as int] == times[j];
            if k >= p {
                assert(times[old_idx[k] as int] > t);
            }
        }
    }
    assert forall|k: int| 0 <= k < new_idx.len() implies #[trigger] new_idx[k] < i + 1 by {
        if k > p {
            assert(new_idx[k] == old_idx[k - 1]);
        } else if k < p {
            assert(new_idx[k] == old_idx[k]);
        }
    }
    lemma_insert_increasing(times, old_idx, i, p);
    lemma_insert_covers(times, old_idx, i, p);
    lemma_insert_first(times, old_idx, i, p);
}

proof fn lemma_same_step(times: Seq<i64>, a: Seq<usize>, b: Seq<usize>, k: int)
    requires
        chronological(times, a),
        chronological(times, b),
        0 <= k < a.len(),
        0 <= k < b.len(),
        forall|j: int| 0 <= j < k ==> a[j] == b[j],
    ensures
        a[k] == b[k],
{
    let ta = times[a[k] as int];
    let tb = times[b[k] as int];
    // each sequence holds the other's time at position k, hence at position k itself
    assert(picks_time(times, b, times[a[k] as int]));
    let m = choose|m: int| 0 <= m < b.len() && times[#[trigger] b[m] as int] == ta;
    if m < k {
        assert(a[m] == b[m]);
        assert(times[a[m] as int] < times[a[k] as int]);
    } else if m > k {
        assert(times[b[k] as int] < times[b[m] as int]);
    }
    assert(ta >= tb);
    assert(picks_time(times, a, times[b[k] as int]));
    let m2 = choose|m: int| 0 <= m < a.len() && times[#[trigger] a[m] as int] == tb;
    if m2 < k {
        assert(a[m2] == b[m2]);
        assert(times[b[m2] as int] < times[b[k] as int]);
    } else if m2 > k {
        assert(times[a[k] as int] < times[a[m2] as int]);
    }
    assert(ta == tb);
    if a[k] < b[k] {
        assert(times[a[k] as int] != times[b[k] as int]);
    } else if b[k] < a[k] {
        assert(times[b[k] as int] != times[a[k] as int]);
    }
}

proof fn lemma_same_prefix(times: Seq<i64>, a: Seq<usize>, b: Seq<usize>, k: int)
    requires
        chronological(times, a),
        chronological(times, b),
        0 <= k <= a.len(),
        k <= b.len(),
    ensures
        forall|j: int| 0 <= j < k ==> a[j] == b[j],
    decreases k,
{
    if k > 0 {
        lemma_same_prefix(times, a, b, k - 1);
        lemma_same_step(times, a, b, k - 1);
    }
}

proof fn lemma_no_longer(times: Seq<i64>, a: Seq<usize>, b: Seq<usize>)
    requires
        chronological(times, a),
        chronological(times, b),
        b.len() <= a.len(),
        forall|j: int| 0 <= j < b.len() ==> a[j] == b[j],
    ensures
        a.len() == b.len(),
{
    if a.len() > b.len() {
        let k = b.len() as int;
        let ta = times[a[k] as int];
        assert(picks_time(times, b, times[a[k] as int]));
        let m = choose|m: int| 0 <= m < b.len() && times[#[trigger] b[m] as int] == ta;
        assert(a[m] == b[m]);
        assert(times[a[m] as int] < times[a[k] as int]);
    }
}

/// The order that candles are kept in is determined by their open times:
/// two lists of positions that both satisfy `chronological` are the same.
pub proof fn lemma_chronological_unique(times: Seq<i64>, a: Seq<usize>, b: Seq<usize>)
    requires
        chronological(times, a),
        chronological(times, b),
    ensures
        a == b,
{
    if a.len() <= b.len() {
        lemma_same_prefix(times, a, b, a.len() as int);
        assert forall|j: int| 0 <= j < a.len() implies b[j] == a[j] by {}
        lemma_no_longer(times, b, a);
    } else {
        lemma_same_prefix(times, a, b, b.len() as int);
        lemma_no_longer(times, a, b);
    }
    assert(a =~= b);
}

/// The positions of fetched candles to keep, oldest first, given their open
/// times: candles are ordered by open time and a repeated open time keeps
/// only the candle fetched first.
pub fn chronological_indices(open_times: &[i64]) -> (r: Vec<usize>)
    ensures
        chronological(open_times@, r@),
{
    let n = open_times.len();
    let mut idx: Vec<usize> = Vec::new();
    let mut i: usize = 0;
    while i < n
        invariant
            n == open_times@.len(),
            i <= n,
            forall|k: int| 0 <= k < idx@.len() ==> #[trigger] idx@[k] < i,
            increasing_at(open_times@, idx@),
            covers_prefix(open_times@, idx@, i as int),
            first_occurrences(open_times@, idx@),
        decreases n - i,
    {
        let t = open_times[i];
        let mut p: usize = 0;
        while p < idx.len() && open_times[idx[p]] < t
            invariant
                n == open_times@.len(),
                i < n,
                p <= idx@.len(),
                forall|k: int| 0 <= k < idx@.len() ==> #[trigger] idx@[k] < i,
                forall|k: int| 0 <= k < p ==> open_times@[#[trigger] idx@[k] as int] < t,
            decreases idx@.len() - p,
        {
            p = p + 1;
        }
        if p < idx.len() && open_times[idx[p]] == t {
            proof {
                lemma_skip_repeated(open_times@, idx@, i as int, p as int);
            }
        } else {
            proof {
                lemma_insert_new(open_times@, idx@, i, p as int);
            }
            idx.insert(p, i);
        }
        i = i + 1;
    }
    idx
}

/// Most candles that one kline request asks for.
pub const KLINE_PAGE_LIMIT: usize = 1000;

/// One kline request: how many candles, and the time the page must end before
/// (none for the newest page).
#[derive(Debug, Clone, Copy, PartialEq, Eq, Structural)]
pub struct KlineRequest {
    pub limit: u16,
    pub end_time: Option<u64>,
}

/// The state of fetching the newest `total` candles page by page, newest page
/// first: how many are still wanted, where the next page ends, how many
/// requests were made, and whether the exchange ran out of candles.
#[derive(Debug, Clone, PartialEq, Eq, Structural)]
pub struct KlinePager {
    pub total: usize,
    pub remaining: usize,
    pub end_time: Option<u64>,
    pub requests_made: usize,
    pub exhausted: bool,
}

/// The time just before a candle's open time, as the next page's end.
pub open spec fn page_end_before(open_time: i64) -> u64 {
    (if open_time > i64::MIN { open_time - 1 } else { open_time as int }) as u64
}

impl KlinePager {
    /// Well-formed: no more wanted than asked for, and never more requests
    /// than candles asked for.
    pub open spec fn wf(&self) -> bool {
        &&& self.remaining <= self.total
        &&& self.requests_made <= self.total
        &&& !self.exhausted ==> self.requests_made + self.remaining <= self.total
    }

    /// Whether another page is to be requested.
    pub open spec fn pending(&self) -> bool {
        !self.exhausted && self.remaining > 0
    }

    /// Starts fetching the newest `total` candles.
    pub fn new(total: usize) -> (r: Self)
        ensures
            r.wf(),
            r == (KlinePager { total, remaining: total, end_time: None, requests_made: 0, exhausted: false }),
    {
        KlinePager { total, remaining: total, end_time: None, requests_made: 0, exhausted: false }
    }

    /// The next request: at most a page of the candles still wanted, ending
    /// before the oldest candle received so far; none once enough candles
    /// came or the exchange returned an empty page.
    pub fn next_request(&self) -> (r: Option<KlineRequest>)
        ensures
            self.pending() ==> r == Some(KlineRequest {
                limit: (if self.remaining < KLINE_PAGE_LIMIT { self.remaining } else { KLINE_PAGE_LIMIT }) as u16,
                end_time: self.end_time,
            }),
            !self.pending() ==> r is None,
    {
        if self.exhausted || self.remaining == 0 {
            None
        } else {
            let limit: usize = if self.remaining < KLINE_PAGE_LIMIT { self.remaining } else { KLINE_PAGE_LIMIT };
            Some(KlineRequest { limit: limit as u16, end_time: self.end_time })
        }
    }

    /// Records the page that answered the last request, given its number of
    /// candles and the open time of its oldest candle.
    pub fn record_page(&mut self, page_len: usize, oldest_open_time: Option<i64>)
        requires
            old(self).wf(),
            old(self).pending(),
        ensures
            final(self).wf(),
            final(self).total == old(self).total,
            final(self).requests_made == old(self).requests_made + 1,
            page_len == 0 ==> final(self).exhausted && final(self).remaining == old(self).remaining
                && final(self).end_time == old(self).end_time,
            page_len > 0 ==> !final(self).exhausted
                && final(self).remaining == (if page_len < old(self).remaining { old(self).remaining - page_len } else { 0 })
                && final(self).end_time == (match oldest_open_time {
                    Some(t) => Some(page_end_before(t)),
                    None => None,
                }),
    {
        self.requests_made = self.requests_made + 1;
        if page_len == 0 {
            self.exhausted = true;
            return;
        }
        self.end_time = match oldest_open_time {
            Some(t) => Some((if t > i64::MIN { t - 1 } else { t }) as u64),
            None => None,
        };
        self.remaining = self.remaining.saturating_sub(page_len);
    }
}

/// Where a cached frame of `height` rows holds the newest `wanted` rows: the
/// offset and length of the slice, or none when the cache holds too few.
pub fn cached_slice(height: usize, wanted: usize) -> (r: Option<(usize, usize)>)
    ensures
        height >= wanted ==> r == Some(((height - wanted) as usize, wanted)),
        height < wanted ==> r is None,
{
    if height >= wanted {
        Some((height - wanted, wanted))
    } else {
        None
    }
}

/// The message when the exchange returned no candles at all.
pub open spec fn no_data_message(symbol: Seq<char>, interval: Seq<char>) -> Seq<char> {
    "No data returned for symbol '"@ + symbol + "' with interval '"@ + interval
        + "'. Check that the symbol exists."@
}

/// The error for a fetch that received no candles.
pub fn no_data_error(symbol: &str, interval: &str) -> (r: String)
    ensures
        r@ == no_data_message(symbol@, interval@),
{
    let mut m = owned("No data returned for symbol '");
    m.append(symbol);
    m.append("' with interval '");
    m.append(interval);
    m.append("'. Check that the symbol exists.");
    assert(m@ =~= no_data_message(symbol@, interval@));
    m
}

} // verus!
