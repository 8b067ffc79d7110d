//! What the engine reports to outside observers. An operation returns these
//! records; sending them on is the caller's business.

use vstd::prelude::*;
use crate::state::order::{OrderDirection, OrderStatus, OrderType};
use crate::state::market_v2::WinningDirection;

verus! {

/// A market's prices after a move.
#[derive(Clone, Copy, Debug, PartialEq, Eq)]
pub struct PriceUpdate {
    pub market_id: u64,
    pub hype_price: u64,
    pub flop_price: u64,
    /// The side whose pool moved.
    pub direction: OrderDirection,
    pub timestamp: i64,
}

impl PriceUpdate {
    /// The price of the side that moved.
    pub open spec fn moved_price(self) -> u64 {
        match self.direction {
            OrderDirection::Hype => self.hype_price,
            OrderDirection::Flop => self.flop_price,
        }
    }

    pub fn new_price(&self) -> (r: u64)
        ensures
            r == self.moved_price(),
    {
        match self.direction {
            OrderDirection::Hype => self.hype_price,
            OrderDirection::Flop => self.flop_price,
        }
    }
}

/// The prices of a market of the first generation after a move.
#[derive(Clone, Copy, Debug, PartialEq, Eq)]
pub struct MarketPriceUpdate {
    pub market_id: u64,
    pub hype_price: u64,
    pub flop_price: u64,
    pub direction: OrderDirection,
    /// The higher of the two prices.
    pub market_price: u64,
    pub timestamp: i64,
    /// What the user said with a market order.
    pub comment: Option<[u8; 64]>,
}

/// A snapshot of an order after an operation on it.
#[derive(Clone, Copy, Debug, PartialEq, Eq)]
pub struct OrderUpdate {
    pub user: [u8; 32],
    pub market_id: u64,
    pub order_id: u64,
    pub direction: OrderDirection,
    pub order_type: OrderType,
    pub order_status: OrderStatus,
    pub price: u64,
    pub total_shares: u64,
    pub total_amount: u64,
    pub comment: Option<[u8; 64]>,
    /// What went back to the user, where anything did.
    pub refund_amount: Option<u64>,
    pub timestamp: i64,
    /// Set once the market is resolved.
    pub is_question_winner: Option<bool>,
    pub pnl: i64,
}

/// A market's final figures, reported when it is resolved.
#[derive(Clone, Copy, Debug, PartialEq, Eq)]
pub struct MarketUpdate {
    pub market_id: u64,
    pub question: [u8; 80],
    pub start_time: i64,
    pub end_time: i64,
    pub hype_liquidity: u64,
    pub flop_liquidity: u64,
    pub winning_direction: WinningDirection,
    pub final_hype_price: u64,
    pub final_flop_price: u64,
    pub timestamp: i64,
    pub total_hype_shares: u64,
    pub total_flop_shares: u64,
}

} // verus!
