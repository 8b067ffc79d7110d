//! A user's ledger: a fixed number of order slots and running totals.

use vstd::prelude::*;
use crate::constants::ORDER_SLOTS;
use crate::state::order::{Order, OrderStatus};

verus! {

/// The prefix of the seeds of every ledger's address: the bytes of
/// `user_trade`.
pub const USER_TRADE_PREFIX_SEED: [u8; 10] = [117, 115, 101, 114, 95, 116, 114, 97, 100, 101];

/// One user's ledger.
#[derive(Clone, Debug, PartialEq, Eq)]
pub struct UserTrade {
    pub bump: u8,
    pub authority: [u8; 32],
    /// The total value of deposits the user has made
    pub total_deposits: u64,
    /// The total value of withdrawals the user has made
    pub total_withdraws: u64,
    /// The number of slots that hold an open order
    pub opened_orders: u64,
    /// The slots. Their number is the ledger's capacity and never changes.
    pub orders: Vec<Order>,
}

/// A ledger as a mathematical value.
pub struct Ledger {
    pub bump: u8,
    pub authority: [u8; 32],
    pub total_deposits: u64,
    pub total_withdraws: u64,
    pub opened_orders: u64,
    pub orders: Seq<Order>,
}

impl View for UserTrade {
    type V = Ledger;

    open spec fn view(&self) -> Ledger {
        Ledger {
            bump: self.bump,
            authority: self.authority,
            total_deposits: self.total_deposits,
            total_withdraws: self.total_withdraws,
            opened_orders: self.opened_orders,
            orders: self.orders@,
        }
    }
}

/// The number of slots that hold an open order.
pub open spec fn open_count(orders: Seq<Order>) -> nat
    decreases orders.len(),
{
    if orders.len() == 0 {
        0
    } else {
        open_count(orders.drop_last()) + if orders.last().is_open() { 1nat } else { 0nat }
    }
}

/// What a search of the slots looks for.
#[derive(Clone, Copy, Debug, PartialEq, Eq)]
pub enum SlotQuery {
    /// A slot that a new order may take: any that holds no open order.
    Free,
    /// An open order with this id, whatever its market.
    OpenOrder { order_id: u64 },
    /// An open order with this id in this market.
    OpenOrderIn { order_id: u64, market_id: u64 },
}

impl SlotQuery {
    pub open spec fn admits(self, order: Order) -> bool {
        match self {
            SlotQuery::Free => !order.is_open(),
            SlotQuery::OpenOrder { order_id } => order.is_open() && order.order_id == order_id,
            SlotQuery::OpenOrderIn { order_id, market_id } => order.is_open() && order.order_id
                == order_id && order.market_id == market_id,
        }
    }

    pub fn accepts(&self, order: &Order) -> (r: bool)
        ensures
            r == self.admits(*order),
    {
        let open: bool = order.status == OrderStatus::Open;
        match self {
            SlotQuery::Free => !open,
            SlotQuery::OpenOrder { order_id } => open && order.order_id == *order_id,
            SlotQuery::OpenOrderIn { order_id, market_id } => open && order.order_id == *order_id
                && order.market_id == *market_id,
        }
    }
}

/// Slot `i` answers the query and no slot before it does.
pub open spec fn is_first_match(orders: Seq<Order>, query: SlotQuery, i: int) -> bool {
    &&& 0 <= i < orders.len()
    &&& query.admits(orders[i])
    &&& forall|j: int| 0 <= j < i ==> !query.admits(#[trigger] orders[j])
}

/// No slot answers the query.
pub open spec fn no_match(orders: Seq<Order>, query: SlotQuery) -> bool {
    forall|j: int| 0 <= j < orders.len() ==> !query.admits(#[trigger] orders[j])
}

/// The first slot that answers the query, if any does.
pub open spec fn first_match(orders: Seq<Order>, query: SlotQuery) -> Option<int> {
    if exists|i: int| is_first_match(orders, query, i) {
        Some(choose|i: int| is_first_match(orders, query, i))
    } else {
        None
    }
}

/// There is at most one first match, so naming one names `first_match`.
pub proof fn lemma_first_match_is(orders: Seq<Order>, query: SlotQuery, i: int)
    requires
        is_first_match(orders, query, i),
    ensures
        first_match(orders, query) == Some(i),
{
    let k = choose|k: int| is_first_match(orders, query, k);
    assert(is_first_match(orders, query, k));
    if k < i {
        assert(!query.admits(orders[k]));
    } else if i < k {
        assert(!query.admits(orders[i]));
    }
}

/// Where nothing answers the query there is no first match, and conversely.
pub proof fn lemma_first_match_none(orders: Seq<Order>, query: SlotQuery)
    ensures
        no_match(orders, query) <==> first_match(orders, query) is None,
{
    if no_match(orders, query) {
        if exists|i: int| is_first_match(orders, query, i) {
            let k = choose|k: int| is_first_match(orders, query, k);
            assert(query.admits(orders[k]));
        }
    } else {
        let j = choose|j: int| 0 <= j < orders.len() && query.admits(#[trigger] orders[j]);
        lemma_some_match_has_first(orders, query, j);
    }
}

/// Where some slot answers the query, a first one does.
pub proof fn lemma_some_match_has_first(orders: Seq<Order>, query: SlotQuery, j: int)
    requires
        0 <= j < orders.len(),
        query.admits(orders[j]),
    ensures
        exists|i: int| is_first_match(orders, query, i),
    decreases j,
{
    if forall|k: int| 0 <= k < j ==> !query.admits(#[trigger] orders[k]) {
        assert(is_first_match(orders, query, j));
    } else {
        let k = choose|k: int| 0 <= k < j && query.admits(#[trigger] orders[k]);
        lemma_some_match_has_first(orders, query, k);
    }
}

/// A first match, where there is one, is a first match.
pub proof fn lemma_first_match_some(orders: Seq<Order>, query: SlotQuery)
    ensures
        first_match(orders, query) matches Some(i) ==> is_first_match(orders, query, i),
{
}

/// Replacing one slot changes the count of open orders by what that slot
/// lost and gained.
pub proof fn lemma_open_count_update(orders: Seq<Order>, i: int, order: Order)
    requires
        0 <= i < orders.len(),
    ensures
        open_count(orders.update(i, order)) + (if orders[i].is_open() { 1nat } else { 0nat })
            == open_count(orders) + (if order.is_open() { 1nat } else { 0nat }),
    decreases orders.len(),
{
    let updated = orders.update(i, order);
    if i == orders.len() - 1 {
        assert(updated.drop_last() =~= orders.drop_last());
    } else {
        assert(updated.drop_last() =~= orders.drop_last().update(i, order));
        lemma_open_count_update(orders.drop_last(), i, order);
    }
}

/// No more slots are open than there are slots; all are exactly when no
/// slot is free.
pub proof fn lemma_open_count_bounds(orders: Seq<Order>)
    ensures
        open_count(orders) <= orders.len(),
        open_count(orders) == orders.len() <==> no_match(orders, SlotQuery::Free),
    decreases orders.len(),
{
    if orders.len() > 0 {
        let front = orders.drop_last();
        lemma_open_count_bounds(front);
        if no_match(orders, SlotQuery::Free) {
            assert forall|j: int| 0 <= j < front.len() implies !SlotQuery::Free.admits(
                #[trigger] front[j],
            ) by {
                assert(front[j] == orders[j]);
            }
            assert(!SlotQuery::Free.admits(orders[orders.len() - 1]));
        }
        if open_count(orders) == orders.len() {
            assert forall|j: int| 0 <= j < orders.len() implies !SlotQuery::Free.admits(
                #[trigger] orders[j],
            ) by {
                if j < front.len() {
                    assert(front[j] == orders[j]);
                }
            }
        }
    }
}

/// A sequence of empty slots holds no open order.
pub proof fn lemma_open_count_of_empty_slots(orders: Seq<Order>)
    requires
        forall|j: int| 0 <= j < orders.len() ==> !(#[trigger] orders[j]).is_open(),
    ensures
        open_count(orders) == 0,
    decreases orders.len(),
{
    if orders.len() > 0 {
        let front = orders.drop_last();
        assert forall|j: int| 0 <= j < front.len() implies !(#[trigger] front[j]).is_open() by {
            assert(front[j] == orders[j]);
        }
        lemma_open_count_of_empty_slots(front);
        assert(!orders[orders.len() - 1].is_open());
    }
}

impl Ledger {
    /// The counter of open orders tells the truth.
    pub open spec fn wf(self) -> bool {
        self.opened_orders == open_count(self.orders)
    }

    /// The number of slots.
    pub open spec fn capacity(self) -> nat {
        self.orders.len()
    }
}

impl UserTrade {
    /// A ledger of `slots` empty slots.
    pub fn with_capacity(authority: [u8; 32], bump: u8, slots: usize) -> (r: Self)
        ensures
            r@.wf(),
            r@.capacity() == slots,
            r.bump == bump,
            r.authority == authority,
            r.total_deposits == 0,
            r.total_withdraws == 0,
            r.opened_orders == 0,
            forall|j: int| 0 <= j < slots ==> r.orders@[j] == Order::empty(),
    {
        let mut orders: Vec<Order> = Vec::new();
        let mut n: usize = 0;
        while n < slots
            invariant
                n <= slots,
                orders@.len() == n,
                forall|j: int| 0 <= j < n ==> orders@[j] == Order::empty(),
            decreases slots - n,
        {
            orders.push(Order::default());
            n = n + 1;
        }
        proof {
            lemma_open_count_of_empty_slots(orders@);
        }
        UserTrade {
            bump,
            authority,
            total_deposits: 0,
            total_withdraws: 0,
            opened_orders: 0,
            orders,
        }
    }

    /// A ledger with the usual ten slots.
    pub fn new(authority: [u8; 32], bump: u8) -> (r: Self)
        ensures
            r@.wf(),
            r@.capacity() == ORDER_SLOTS,
            r.bump == bump,
            r.authority == authority,
            r.total_deposits == 0,
            r.total_withdraws == 0,
            r.opened_orders == 0,
            forall|j: int| 0 <= j < ORDER_SLOTS ==> r.orders@[j] == Order::empty(),
    {
        UserTrade::with_capacity(authority, bump, ORDER_SLOTS)
    }

    /// Counts the open slots and compares with the counter.
    pub fn is_well_formed(&self) -> (r: bool)
        ensures
            r == self@.wf(),
    {
        let mut seen: u64 = 0;
        let mut n: usize = 0;
        while n < self.orders.len()
            invariant
                n <= self.orders@.len(),
                seen == open_count(self.orders@.take(n as int)),
                seen <= n,
            decreases self.orders@.len() - n,
        {
            proof {
                let next = self.orders@.take(n as int + 1);
                assert(next.drop_last() =~= self.orders@.take(n as int));
                assert(next.last() == self.orders@[n as int]);
            }
            if self.orders[n].status == OrderStatus::Open {
                seen = seen + 1;
            }
            n = n + 1;
        }
        assert(self.orders@.take(n as int) =~= self.orders@);
        seen == self.opened_orders
    }

    /// The first slot that answers `query`.
    pub fn find_slot(&self, query: SlotQuery) -> (r: Option<usize>)
        ensures
            match r {
                Some(i) => first_match(self.orders@, query) == Some(i as int) && is_first_match(
                    self.orders@,
                    query,
                    i as int,
                ),
                None => first_match(self.orders@, query) is None && no_match(self.orders@, query),
            },
    {
        let mut n: usize = 0;
        while n < self.orders.len()
            invariant
                n <= self.orders@.len(),
                forall|j: int| 0 <= j < n ==> !query.admits(#[trigger] self.orders@[j]),
            decreases self.orders@.len() - n,
        {
            if query.accepts(&self.orders[n]) {
                proof {
                    lemma_first_match_is(self.orders@, query, n as int);
                }
                return Some(n);
            }
            n = n + 1;
        }
        proof {
            lemma_first_match_none(self.orders@, query);
        }
        None
    }
}

} // verus!
