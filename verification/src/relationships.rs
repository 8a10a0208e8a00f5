//! The tickers that predictions must not pick.

use vstd::prelude::*;

verus! {

/// Whether a name occurs, by text, in a list.
pub open spec fn listed(names: Seq<String>, s: String) -> bool {
    exists|k: int| 0 <= k < names.len() && names[k]@ == s@
}

fn contains_name(names: &Vec<String>, s: &String) -> (r: bool)
    ensures
        r == listed(names@, *s),
{
    let mut k: usize = 0;
    while k < names.len()
        invariant
            k <= names@.len(),
            forall|q: int| 0 <= q < k ==> names@[q]@ != s@,
        decreases names.len() - k,
    {
        if crate::text::str_eq(names[k].as_str(), s.as_str()) {
            return true;
        }
        k = k + 1;
    }
    false
}

/// The positions of the tickers that are blacklisted, in increasing order.
pub fn blacklist_indexes(tickers: &Vec<String>, blacklist: &Vec<String>) -> (r: Vec<usize>)
    ensures
        r@ == Seq::new(tickers@.len(), |i: int| i as usize).filter(|i: usize| listed(blacklist@, tickers@[i as int])),
{
    let ghost all = Seq::new(tickers@.len(), |i: int| i as usize);
    let ghost pred = |i: usize| listed(blacklist@, tickers@[i as int]);
    let mut r: Vec<usize> = Vec::new();
    let mut i: usize = 0;
    while i < tickers.len()
        invariant
            i <= tickers@.len(),
            all == Seq::new(tickers@.len(), |i: int| i as usize),
            pred == (|i: usize| listed(blacklist@, tickers@[i as int])),
            r@ == all.take(i as int).filter(pred),
        decreases tickers.len() - i,
    {
        proof {
            reveal_with_fuel(Seq::<_>::filter, 1);
            assert(all.take(i + 1).drop_last() =~= all.take(i as int));
            assert(all.take(i + 1).last() == i);
        }
        if contains_name(blacklist, &tickers[i]) {
            r.push(i);
        }
        i = i + 1;
    }
    assert(all.take(tickers@.len() as int) =~= all);
    r
}

} // verus!
