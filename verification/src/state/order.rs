//! One position held by one user against one market.

use vstd::prelude::*;

verus! {

/// The outcome an order backs.
#[derive(Clone, Copy, Debug, PartialEq, Eq, Structural)]
pub enum OrderDirection {
    /// Long
    Hype,
    /// Short
    Flop,
}

impl OrderDirection {
    /// The other outcome.
    pub open spec fn flipped(self) -> OrderDirection {
        match self {
            OrderDirection::Hype => OrderDirection::Flop,
            OrderDirection::Flop => OrderDirection::Hype,
        }
    }

    pub fn opposite(&self) -> (r: Self)
        ensures
            r == self.flipped(),
            r != *self,
            r.flipped() == *self,
    {
        match self {
            OrderDirection::Hype => OrderDirection::Flop,
            OrderDirection::Flop => OrderDirection::Hype,
        }
    }
}

impl Default for OrderDirection {
    fn default() -> (r: Self)
        ensures
            r == OrderDirection::Hype,
    {
        OrderDirection::Hype
    }
}

/// Where a ledger slot stands in its life.
#[derive(Clone, Copy, Debug, PartialEq, Eq, Structural)]
pub enum OrderStatus {
    /// The slot is not in use
    Init,
    /// Order is open
    Open,
    /// Order has been filled
    Filled,
    /// Order has been canceled
    Canceled,
    /// Order has been closed
    Closed,
}

impl Default for OrderStatus {
    fn default() -> (r: Self)
        ensures
            r == OrderStatus::Init,
    {
        OrderStatus::Init
    }
}

#[derive(Clone, Copy, Debug, PartialEq, Eq, Structural)]
pub enum OrderType {
    Limit,
    Market,
}

impl Default for OrderType {
    fn default() -> (r: Self)
        ensures
            r == OrderType::Market,
    {
        OrderType::Market
    }
}

/// One slot of a user's ledger.
#[derive(Clone, Copy, Debug, PartialEq, Eq)]
pub struct Order {
    /// When the order was opened.
    pub ts: i64,
    pub order_id: u64,
    pub market_id: u64,
    pub status: OrderStatus,
    /// Entry price, on the scale where 1_000_000 is certainty.
    pub price: u64,
    /// What the user committed, after the fee.
    pub total_amount: u64,
    /// Shares acquired.
    pub total_shares: u64,
    pub order_type: OrderType,
    pub direction: OrderDirection,
    /// The multiplier applied to the committed amount, if any.
    pub leverage: Option<u64>,
    /// Profit or loss settled so far.
    pub settled_pnl: i64,
}

impl Order {
    /// The value of a slot that holds no order.
    pub open spec fn empty() -> Order {
        Order {
            ts: 0,
            order_id: 0,
            market_id: 0,
            status: OrderStatus::Init,
            price: 0,
            total_amount: 0,
            total_shares: 0,
            order_type: OrderType::Market,
            direction: OrderDirection::Hype,
            leverage: None,
            settled_pnl: 0,
        }
    }

    pub open spec fn is_open(self) -> bool {
        self.status == OrderStatus::Open
    }

    /// The same order, closed.
    pub open spec fn closed(self) -> Order {
        Order { status: OrderStatus::Closed, ..self }
    }

    /// The multiplier in effect: one where none was given.
    pub open spec fn multiplier(leverage: Option<u64>) -> int {
        match leverage {
            Some(k) => k as int,
            None => 1,
        }
    }
}

impl Default for Order {
    fn default() -> (r: Self)
        ensures
            r == Order::empty(),
    {
        Order {
            ts: 0,
            order_id: 0,
            market_id: 0,
            status: OrderStatus::Init,
            price: 0,
            total_amount: 0,
            total_shares: 0,
            order_type: OrderType::Market,
            direction: OrderDirection::Hype,
            leverage: None,
            settled_pnl: 0,
        }
    }
}

/// What a user asks for when opening an order.
#[derive(Clone, Copy, Debug, PartialEq, Eq)]
pub struct OpenOrderArgs {
    /// Gross amount, fee included.
    pub amount: u64,
    pub direction: OrderDirection,
    pub leverage: Option<u64>,
    pub comment: Option<[u8; 64]>,
}

} // verus!
