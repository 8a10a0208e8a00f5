//! The order book of the mock exchange that replays historical bars for the
//! live bot: order identifiers, the status of each order, good-till-cancelled
//! timers, cancellation and expiry; and the exchange's pseudo-random generator.
//! Prices, quantities, fills and positions are kept beside this book by the
//! caller, one entry per order.

use vstd::prelude::*;
use vstd::string::*;
use crate::text::{decimal, decimal_string, owned, str_eq, is_digit, lemma_decimal_shape, lemma_decimal_injective};

verus! {

#[derive(Debug, Clone, Copy, PartialEq, Eq, Structural)]
pub enum MockOrderType {
    Limit,
    Market,
    StopLoss,
}

#[derive(Debug, Clone, Copy, PartialEq, Eq, Structural)]
pub enum MockSide {
    Buy,
    Sell,
}

#[derive(Debug, Clone, Copy, PartialEq, Eq, Structural)]
pub enum MockOrderStatus {
    New,
    Filled,
    Cancelled,
}

impl MockOrderType {
    /// The name of the order type as the fills record it.
    pub fn name(&self) -> (r: &'static str)
        ensures
            r@ == (match self {
                MockOrderType::Limit => "Limit"@,
                MockOrderType::Market => "Market"@,
                MockOrderType::StopLoss => "StopLoss"@,
            }),
    {
        match self {
            MockOrderType::Limit => "Limit",
            MockOrderType::Market => "Market",
            MockOrderType::StopLoss => "StopLoss",
        }
    }
}

impl MockSide {
    /// "BUY" or "SELL", as the fills record the side.
    pub fn as_str(&self) -> (r: &'static str)
        ensures
            r@ == (match self {
                MockSide::Buy => "BUY"@,
                MockSide::Sell => "SELL"@,
            }),
    {
        match self {
            MockSide::Buy => "BUY",
            MockSide::Sell => "SELL",
        }
    }
}

/// The client order id of the `id`-th order, placed for `symbol`.
pub open spec fn order_id_text(symbol: Seq<char>, id: nat) -> Seq<char> {
    "mock_"@ + symbol + "_"@ + decimal(id)
}

/// The bookkeeping of one order.
#[derive(Debug)]
pub struct OrderRecord {
    pub client_order_id: String,
    pub symbol: String,
    pub side: MockSide,
    pub order_type: MockOrderType,
    pub status: MockOrderStatus,
    /// Bars left before a good-till-cancelled order expires.
    pub bars_remaining: usize,
    /// The bar at which the order was placed.
    pub created_bar: usize,
    /// The number in the client order id.
    pub sequence: u64,
}

impl Clone for OrderRecord {
    fn clone(&self) -> (r: Self)
        ensures
            r == *self,
    {
        OrderRecord {
            client_order_id: self.client_order_id.clone(),
            symbol: self.symbol.clone(),
            side: self.side,
            order_type: self.order_type,
            status: self.status,
            bars_remaining: self.bars_remaining,
            created_bar: self.created_bar,
            sequence: self.sequence,
        }
    }
}

/// Once a prefix of the book holds the id, the book's first match is the prefix's.
pub proof fn lemma_find_prefix(orders: Seq<OrderRecord>, cid: Seq<char>, k: int)
    requires
        0 <= k <= orders.len(),
        find_order(orders.take(k), cid) is Some,
    ensures
        find_order(orders, cid) == find_order(orders.take(k), cid),
    decreases orders.len() - k,
{
    if k < orders.len() {
        assert(orders.take(k + 1).drop_last() =~= orders.take(k));
        lemma_find_prefix(orders, cid, k + 1);
    } else {
        assert(orders.take(k) =~= orders);
    }
}

/// The record with another status.
pub open spec fn with_status(r: OrderRecord, s: MockOrderStatus) -> OrderRecord {
    OrderRecord { status: s, ..r }
}

/// The record with its timer counted down by one bar, stopping at zero.
pub open spec fn ticked(r: OrderRecord) -> OrderRecord {
    OrderRecord { bars_remaining: if r.bars_remaining > 0 { (r.bars_remaining - 1) as usize } else { 0 }, ..r }
}

/// The position of the order with the given client order id.
pub open spec fn find_order(orders: Seq<OrderRecord>, cid: Seq<char>) -> Option<int>
    decreases orders.len(),
{
    if orders.len() == 0 {
        None
    } else {
        match find_order(orders.drop_last(), cid) {
            Some(k) => Some(k),
            None => if orders.last().client_order_id@ == cid { Some(orders.len() - 1) } else { None },
        }
    }
}

/// What cancelling an order does to the book, and what it answers.
pub open spec fn spec_cancel(orders: Seq<OrderRecord>, cid: Seq<char>) -> (Seq<OrderRecord>, bool) {
    match find_order(orders, cid) {
        Some(k) => if orders[k].status == MockOrderStatus::New {
            (orders.update(k, with_status(orders[k], MockOrderStatus::Cancelled)), true)
        } else {
            (orders, false)
        },
        None => (orders, false),
    }
}

/// No order leaves the filled or cancelled state.
pub open spec fn statuses_kept(before: Seq<OrderRecord>, after: Seq<OrderRecord>) -> bool {
    &&& before.len() <= after.len()
    &&& forall|k: int| 0 <= k < before.len() && before[k].status != MockOrderStatus::New
        ==> #[trigger] after[k].status == before[k].status
}

/// The book of orders placed on the mock exchange.
pub struct OrderLedger {
    orders: Vec<OrderRecord>,
    next_oid: u64,
}

impl View for OrderLedger {
    type V = Seq<OrderRecord>;

    closed spec fn view(&self) -> Seq<OrderRecord> {
        self.orders@
    }
}

/// `find_order` finds a matching order, and none before it matches.
pub proof fn lemma_find_order(orders: Seq<OrderRecord>, cid: Seq<char>)
    ensures
        match find_order(orders, cid) {
            Some(k) => 0 <= k < orders.len() && orders[k].client_order_id@ == cid
                && forall|j: int| 0 <= j < k ==> orders[j].client_order_id@ != cid,
            None => forall|j: int| 0 <= j < orders.len() ==> orders[j].client_order_id@ != cid,
        },
    decreases orders.len(),
{
    if orders.len() > 0 {
        lemma_find_order(orders.drop_last(), cid);
        let p = orders.drop_last();
        assert forall|j: int| 0 <= j < orders.len() - 1 implies orders[j] == p[j] by {}
    }
}

/// Client order ids of different numbers differ, whatever their symbols.
pub proof fn lemma_order_ids_differ(s1: Seq<char>, a: nat, s2: Seq<char>, b: nat)
    requires
        a != b,
    ensures
        order_id_text(s1, a) != order_id_text(s2, b),
{
    let x = order_id_text(s1, a);
    let y = order_id_text(s2, b);
    let da = decimal(a);
    let db = decimal(b);
    lemma_decimal_shape(a);
    lemma_decimal_shape(b);
    reveal_strlit("_");
    assert("_"@ =~= seq!['_']);
    let ha = "mock_"@ + s1 + "_"@;
    let hb = "mock_"@ + s2 + "_"@;
    assert(x =~= ha + da);
    assert(y =~= hb + db);
    assert(ha[ha.len() - 1] == '_');
    assert(hb[hb.len() - 1] == '_');
    if x == y {
        if da.len() == db.len() {
            assert(da =~= x.subrange(x.len() - da.len(), x.len() as int));
            assert(db =~= y.subrange(y.len() - db.len(), y.len() as int));
            lemma_decimal_injective(a, b);
        } else if da.len() < db.len() {
            // x has '_' just before its digits, where y has a digit
            let p = x.len() - da.len() - 1;
            assert(x[p] == '_');
            assert(y[p] == db[db.len() - da.len() - 1]);
            assert(is_digit(db[db.len() - da.len() - 1]));
        } else {
            let p = y.len() - db.len() - 1;
            assert(y[p] == '_');
            assert(x[p] == da[da.len() - db.len() - 1]);
            assert(is_digit(da[da.len() - db.len() - 1]));
        }
    }
}

impl OrderLedger {
    /// The number in the next client order id.
    pub closed spec fn next_id(&self) -> nat {
        self.next_oid as nat
    }

    /// Every order's id is formed from its symbol and number; numbers are
    /// increasing and below the next one.
    pub closed spec fn wf(&self) -> bool {
        &&& self.next_oid >= 1
        &&& forall|k: int| 0 <= k < self.orders@.len() ==>
            (#[trigger] self.orders@[k]).client_order_id@ == order_id_text(self.orders@[k].symbol@, self.orders@[k].sequence as nat)
        &&& forall|k: int| 0 <= k < self.orders@.len() ==> 1 <= (#[trigger] self.orders@[k]).sequence < self.next_oid
        &&& forall|j: int, k: int| 0 <= j < k < self.orders@.len() ==>
            (#[trigger] self.orders@[j]).sequence < (#[trigger] self.orders@[k]).sequence
    }

    /// An empty book; the first order gets number one.
    pub fn new() -> (r: Self)
        ensures
            r.wf(),
            r@ == Seq::<OrderRecord>::empty(),
            r.next_id() == 1,
    {
        OrderLedger { orders: Vec::new(), next_oid: 1 }
    }

    /// The number that the next order's client order id will carry.
    pub fn next_number(&self) -> (r: u64)
        ensures
            r == self.next_id(),
    {
        self.next_oid
    }

    /// The number of orders placed.
    pub fn len(&self) -> (r: usize)
        ensures
            r == self@.len(),
    {
        self.orders.len()
    }

    /// The order at a position of the book.
    pub fn order(&self, k: usize) -> (r: &OrderRecord)
        requires
            k < self@.len(),
        ensures
            *r == self@[k as int],
    {
        &self.orders[k]
    }

    /// No two orders of a well-formed book have the same client order id.
    pub proof fn lemma_ids_unique(&self)
        requires
            self.wf(),
        ensures
            forall|j: int, k: int| 0 <= j < self@.len() && 0 <= k < self@.len() && j != k
                ==> (#[trigger] self@[j]).client_order_id@ != (#[trigger] self@[k]).client_order_id@,
    {
        assert forall|j: int, k: int| 0 <= j < self@.len() && 0 <= k < self@.len() && j != k
            implies (#[trigger] self@[j]).client_order_id@ != (#[trigger] self@[k]).client_order_id@ by {
            let oj = self.orders@[j];
            let ok = self.orders@[k];
            lemma_order_ids_differ(oj.symbol@, oj.sequence as nat, ok.symbol@, ok.sequence as nat);
        }
    }

    /// Places an order and returns its client order id, `mock_<symbol>_<number>`.
    pub fn place(
        &mut self,
        symbol: &str,
        side: MockSide,
        order_type: MockOrderType,
        bars_remaining: usize,
        created_bar: usize,
    ) -> (cid: String)
        requires
            old(self).wf(),
            old(self).next_id() < u64::MAX,
        ensures
            final(self).wf(),
            final(self).next_id() == old(self).next_id() + 1,
            cid@ == order_id_text(symbol@, old(self).next_id()),
            final(self)@.len() == old(self)@.len() + 1,
            final(self)@.drop_last() == old(self)@,
            final(self)@.last().client_order_id@ == cid@,
            final(self)@.last().symbol@ == symbol@,
            final(self)@.last().side == side,
            final(self)@.last().order_type == order_type,
            final(self)@.last().status == MockOrderStatus::New,
            final(self)@.last().bars_remaining == bars_remaining,
            final(self)@.last().created_bar == created_bar,
            // the new id is not taken by any earlier order
            forall|k: int| 0 <= k < old(self)@.len() ==> (#[trigger] old(self)@[k]).client_order_id@ != cid@,
    {
        let id = self.next_oid;
        self.next_oid = self.next_oid + 1;
        let mut cid = owned("mock_");
        cid.append(symbol);
        cid.append("_");
        cid.append(decimal_string(id).as_str());
        assert(cid@ =~= order_id_text(symbol@, id as nat));
        let record = OrderRecord {
            client_order_id: cid.clone(),
            symbol: owned(symbol),
            side,
            order_type,
            status: MockOrderStatus::New,
            bars_remaining,
            created_bar,
            sequence: id,
        };
        let ghost before = self.orders@;
        self.orders.push(record);
        proof {
            assert(self.orders@.drop_last() =~= before);
            assert forall|k: int| 0 <= k < before.len() implies (#[trigger] before[k]).client_order_id@ != cid@ by {
                lemma_order_ids_differ(before[k].symbol@, before[k].sequence as nat, symbol@, id as nat);
            }
        }
        cid
    }

    /// The position of the order with a client order id.
    pub fn find(&self, client_order_id: &str) -> (r: Option<usize>)
        ensures
            match r {
                Some(k) => find_order(self@, client_order_id@) == Some(k as int),
                None => find_order(self@, client_order_id@) is None,
            },
    {
        let mut i: usize = 0;
        while i < self.orders.len()
            invariant
                i <= self.orders@.len(),
                find_order(self.orders@.take(i as int), client_order_id@) is None,
            decreases self.orders.len() - i,
        {
            assert(self.orders@.take(i + 1).drop_last() =~= self.orders@.take(i as int));
            if str_eq(self.orders[i].client_order_id.as_str(), client_order_id) {
                assert(find_order(self.orders@.take(i + 1), client_order_id@) == Some(i as int));
                proof { lemma_find_prefix(self.orders@, client_order_id@, i as int + 1); }
                return Some(i);
            }
            i = i + 1;
        }
        assert(self.orders@.take(self.orders.len() as int) =~= self.orders@);
        None
    }

    /// The order with a client order id, if any.
    pub fn get(&self, client_order_id: &str) -> (r: Option<&OrderRecord>)
        ensures
            match find_order(self@, client_order_id@) {
                Some(k) => r == Some(&self@[k]),
                None => r is None,
            },
    {
        match self.find(client_order_id) {
            Some(k) => {
                proof { lemma_find_order(self@, client_order_id@); }
                Some(&self.orders[k])
            },
            None => None,
        }
    }

    /// Cancels a pending order; answers whether an order was cancelled.
    pub fn cancel_order(&mut self, client_order_id: &str) -> (r: bool)
        requires
            old(self).wf(),
        ensures
            final(self).wf(),
            final(self).next_id() == old(self).next_id(),
            (final(self)@, r) == spec_cancel(old(self)@, client_order_id@),
            statuses_kept(old(self)@, final(self)@),
    {
        match self.find(client_order_id) {
            Some(k) => {
                proof { lemma_find_order(self@, client_order_id@); }
                if self.orders[k].status == MockOrderStatus::New {
                    self.set_status(k, MockOrderStatus::Cancelled);
                    true
                } else {
                    false
                }
            },
            None => false,
        }
    }

    /// Counts down the good-till-cancelled timer of every order by one bar.
    pub fn tick_down(&mut self)
        requires
            old(self).wf(),
        ensures
            final(self).wf(),
            final(self).next_id() == old(self).next_id(),
            final(self)@ == old(self)@.map_values(|r: OrderRecord| ticked(r)),
            statuses_kept(old(self)@, final(self)@),
    {
        let ghost before = self.orders@;
        let mut i: usize = 0;
        while i < self.orders.len()
            invariant
                self.wf(),
                self.next_oid == old(self).next_oid,
                self.orders@.len() == before.len(),
                before == old(self).orders@,
                i <= before.len(),
                forall|k: int| 0 <= k < i ==> self.orders@[k] == ticked(before[k]),
                forall|k: int| i <= k < before.len() ==> self.orders@[k] == before[k],
            decreases before.len() - i,
        {
            let mut o = self.orders[i].clone();
            if o.bars_remaining > 0 {
                o.bars_remaining = o.bars_remaining - 1;
            }
            self.orders.set(i, o);
            i = i + 1;
        }
        assert(self.orders@ =~= before.map_values(|r: OrderRecord| ticked(r)));
    }

    /// The positions of the pending orders, in the order they were placed.
    pub fn pending(&self) -> (r: Vec<usize>)
        ensures
            r@ == Seq::new(self@.len(), |k: int| k as usize).filter(|k: usize| self@[k as int].status == MockOrderStatus::New),
            forall|j: int| 0 <= j < r@.len() ==> r@[j] < self@.len() && self@[r@[j] as int].status == MockOrderStatus::New,
    {
        let ghost all = Seq::new(self@.len(), |k: int| k as usize);
        let ghost pred = |k: usize| self@[k as int].status == MockOrderStatus::New;
        let mut r: Vec<usize> = Vec::new();
        let mut i: usize = 0;
        while i < self.orders.len()
            invariant
                i <= self@.len(),
                all == Seq::new(self@.len(), |k: int| k as usize),
                pred == (|k: usize| self@[k as int].status == MockOrderStatus::New),
                r@ == all.take(i as int).filter(pred),
                forall|j: int| 0 <= j < r@.len() ==> r@[j] < i && self@[r@[j] as int].status == MockOrderStatus::New,
            decreases self.orders.len() - i,
        {
            proof {
                reveal_with_fuel(Seq::<_>::filter, 1);
                assert(all.take(i + 1).drop_last() =~= all.take(i as int));
                assert(all.take(i + 1).last() == i);
            }
            if self.orders[i].status == MockOrderStatus::New {
                r.push(i);
            }
            i = i + 1;
        }
        assert(all.take(self@.len() as int) =~= all);
        r
    }

    /// Cancels a pending limit order whose timer has run out; answers whether it did.
    pub fn expire_if_due(&mut self, k: usize) -> (r: bool)
        requires
            old(self).wf(),
            k < old(self)@.len(),
            old(self)@[k as int].status == MockOrderStatus::New,
        ensures
            final(self).wf(),
            final(self).next_id() == old(self).next_id(),
            r == (old(self)@[k as int].bars_remaining == 0 && old(self)@[k as int].order_type == MockOrderType::Limit),
            r ==> final(self)@ == old(self)@.update(k as int, with_status(old(self)@[k as int], MockOrderStatus::Cancelled)),
            !r ==> final(self)@ == old(self)@,
            statuses_kept(old(self)@, final(self)@),
    {
        if self.orders[k].bars_remaining == 0 && self.orders[k].order_type == MockOrderType::Limit {
            self.set_status(k, MockOrderStatus::Cancelled);
            true
        } else {
            false
        }
    }

    /// Records that a pending order has been filled.
    pub fn mark_filled(&mut self, k: usize)
        requires
            old(self).wf(),
            k < old(self)@.len(),
            old(self)@[k as int].status == MockOrderStatus::New,
        ensures
            final(self).wf(),
            final(self).next_id() == old(self).next_id(),
            final(self)@ == old(self)@.update(k as int, with_status(old(self)@[k as int], MockOrderStatus::Filled)),
            statuses_kept(old(self)@, final(self)@),
    {
        self.set_status(k, MockOrderStatus::Filled);
    }

    fn set_status(&mut self, k: usize, status: MockOrderStatus)
        requires
            old(self).wf(),
            k < old(self)@.len(),
        ensures
            final(self).wf(),
            final(self).next_id() == old(self).next_id(),
            final(self)@ == old(self)@.update(k as int, with_status(old(self)@[k as int], status)),
    {
        let mut o = self.orders[k].clone();
        o.status = status;
        let ghost before = self.orders@;
        self.orders.set(k, o);
        assert(self.orders@ =~= before.update(k as int, with_status(before[k as int], status)));
    }
}

/// Cancelling the same order twice: the second cancellation changes nothing and answers false.
pub proof fn lemma_cancel_twice(orders: Seq<OrderRecord>, cid: Seq<char>)
    ensures
        spec_cancel(spec_cancel(orders, cid).0, cid) == (spec_cancel(orders, cid).0, false),
{
    lemma_find_order(orders, cid);
    let after = spec_cancel(orders, cid).0;
    if let Some(k) = find_order(orders, cid) {
        if orders[k].status == MockOrderStatus::New {
            lemma_find_order(after, cid);
            assert forall|j: int| 0 <= j < after.len() implies after[j].client_order_id@ == orders[j].client_order_id@ by {}
            lemma_find_unique_prefix(orders, after, cid);
        }
    }
}

/// Two books whose ids agree position by position find an id at the same position.
pub proof fn lemma_find_unique_prefix(a: Seq<OrderRecord>, b: Seq<OrderRecord>, cid: Seq<char>)
    requires
        a.len() == b.len(),
        forall|j: int| 0 <= j < a.len() ==> a[j].client_order_id@ == b[j].client_order_id@,
    ensures
        find_order(a, cid) == find_order(b, cid),
    decreases a.len(),
{
    if a.len() > 0 {
        lemma_find_unique_prefix(a.drop_last(), b.drop_last(), cid);
    }
}

/// A cancellation answers true exactly when it finds the order pending, and
/// then only that order changes, to cancelled.
pub proof fn lemma_cancel_effect(orders: Seq<OrderRecord>, cid: Seq<char>)
    ensures
        spec_cancel(orders, cid).1 <==> (exists|k: int| 0 <= k < orders.len()
            && find_order(orders, cid) == Some(k) && orders[k].status == MockOrderStatus::New),
        spec_cancel(orders, cid).0.len() == orders.len(),
        forall|j: int| 0 <= j < orders.len() && Some(j) != find_order(orders, cid)
            ==> #[trigger] spec_cancel(orders, cid).0[j] == orders[j],
{
    lemma_find_order(orders, cid);
}

/// One step of the exchange's xorshift generator.
pub open spec fn xorshift(x: u64) -> u64 {
    let a = x ^ (x << 13u64);
    let b = a ^ (a >> 7u64);
    b ^ (b << 17u64)
}

/// The seed of the exchange's generator.
pub fn rng_seed() -> (r: u64)
    ensures
        r == 0xC0FFEE_BADC0DE_u64,
{
    0xC0FFEE_BADC0DE_u64
}

/// Advances the generator state.
pub fn xorshift_next(x: u64) -> (r: u64)
    ensures
        r == xorshift(x),
{
    let mut y = x;
    y = y ^ (y << 13u64);
    y = y ^ (y >> 7u64);
    y = y ^ (y << 17u64);
    y
}

/// The low 53 bits of a state: the numerator of the uniform draw `bits / 2^53`.
pub fn draw_bits(x: u64) -> (r: u64)
    ensures
        r == x & 0x1F_FFFF_FFFF_FFFFu64,
        r < 0x20_0000_0000_0000u64,
{
    let r = x & 0x1F_FFFF_FFFF_FFFFu64;
    assert(x & 0x1F_FFFF_FFFF_FFFFu64 < 0x20_0000_0000_0000u64) by (bit_vector);
    r
}

/// The generator never leaves a non-zero state for zero, so it never gets stuck.
pub proof fn lemma_xorshift_nonzero(x: u64)
    requires
        x != 0,
    ensures
        xorshift(x) != 0,
{
    assert(x != 0 ==> (x ^ (x << 13u64)) != 0) by (bit_vector);
    let a = x ^ (x << 13u64);
    assert(a != 0 ==> (a ^ (a >> 7u64)) != 0) by (bit_vector);
    let b = a ^ (a >> 7u64);
    assert(b != 0 ==> (b ^ (b << 17u64)) != 0) by (bit_vector);
}

} // verus!
