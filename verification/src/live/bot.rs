//! The bar-count decisions of the live breakout bot: how much history it
//! keeps per symbol, when a symbol may be checked for a breakout entry, how
//! the trailing window is seeded, and when a position has been held too long.
//! The breakout and stop levels themselves are prices, which the caller compares.

use vstd::prelude::*;

verus! {

/// Most bars kept per symbol.
pub const BAR_HISTORY_CAP: usize = 200;

/// The history after a new bar: the bar appended, the oldest bar dropped once
/// the history is longer than the cap.
pub open spec fn pushed_history<T>(history: Seq<T>, bar: T) -> Seq<T> {
    let h = history.push(bar);
    if h.len() > BAR_HISTORY_CAP { h.drop_first() } else { h }
}

/// Appends a closed bar to a symbol's history.
pub fn push_bar<T>(history: &mut Vec<T>, bar: T)
    requires
        old(history)@.len() < usize::MAX,
    ensures
        final(history)@ == pushed_history(old(history)@, bar),
        // a history within the cap stays within it, and ends with the new bar
        old(history)@.len() <= BAR_HISTORY_CAP ==> final(history)@.len() <= BAR_HISTORY_CAP,
        final(history)@.last() == bar,
{
    history.push(bar);
    if history.len() > BAR_HISTORY_CAP {
        history.remove(0);
    }
}

/// Whether a flat symbol may be checked for a breakout entry: a position slot
/// is free, the history covers the lookback and the bar before it, and the
/// cooldown since the symbol's last exit (counted in history length) is over.
pub open spec fn spec_entry_allowed(
    open_positions: int,
    position_cap: int,
    bars_len: int,
    ep: int,
    last_exit: Option<usize>,
    cooldown: int,
) -> bool {
    &&& open_positions < position_cap
    &&& bars_len >= ep + 1
    &&& match last_exit {
        Some(e) => bars_len - e >= cooldown,
        None => true,
    }
}

/// Decides whether a flat symbol is checked for a breakout on this bar.
pub fn entry_allowed(
    open_positions: usize,
    position_cap: usize,
    bars_len: usize,
    ep: usize,
    last_exit: Option<usize>,
    cooldown: usize,
) -> (r: bool)
    requires
        ep < usize::MAX,
        last_exit matches Some(e) ==> e <= bars_len,
    ensures
        r == spec_entry_allowed(open_positions as int, position_cap as int, bars_len as int, ep as int, last_exit, cooldown as int),
{
    if open_positions >= position_cap {
        return false;
    }
    if bars_len < ep + 1 {
        return false;
    }
    match last_exit {
        Some(e) => bars_len - e >= cooldown,
        None => true,
    }
}

/// The bars that seed the trailing range of a new position: the last
/// `min(len, period)` bars of the history, as a start index and a count.
pub fn trailing_window(bars_len: usize, chand_period: usize) -> (r: (usize, usize))
    ensures
        r.1 == (if bars_len < chand_period { bars_len } else { chand_period }),
        r.0 + r.1 == bars_len,
{
    let avail = if bars_len < chand_period { bars_len } else { chand_period };
    (bars_len - avail, avail)
}

/// Counts one more bar held; reports whether the maximum holding time is reached.
pub fn hold_one_bar(bars_held: &mut usize, hold_max: usize) -> (expired: bool)
    requires
        *old(bars_held) < usize::MAX,
    ensures
        *final(bars_held) == *old(bars_held) + 1,
        expired == (*final(bars_held) >= hold_max),
{
    *bars_held = *bars_held + 1;
    *bars_held >= hold_max
}

} // verus!
