//! Closing an order before its market is resolved.

use vstd::prelude::*;
use crate::auth::Authorization;
use crate::constants::PRICE_SCALE;
use crate::errors::TriadProtocolError;
use crate::events::{OrderUpdate, PriceUpdate};
use crate::math::{add_or_fail, mul_div, mul_div_floor, signed_difference, sub_or_fail};
use crate::state::market_v2::{pool_ratio_price, ratio_price, MarketV2};
use crate::state::order::{Order, OrderDirection, OrderStatus};
use crate::state::user_trade::{
    first_match, lemma_open_count_update, Ledger, SlotQuery, UserTrade,
};

verus! {

/// What closing an order leaves for the caller to do and to tell.
#[derive(Clone, Copy, Debug, PartialEq, Eq)]
pub struct CloseOrderReceipt {
    /// The order as it was closed.
    pub order: OrderUpdate,
    /// The market's prices after the close, where they moved.
    pub price: Option<PriceUpdate>,
    /// What has to pass from the market's custody back to the user.
    pub refund_amount: u64,
}

/// The search that finds the order to close: open, of this id, in this
/// market.
pub open spec fn close_query(market: MarketV2, order_id: u64) -> SlotQuery {
    SlotQuery::OpenOrderIn { order_id, market_id: market.market_id }
}

/// What the order is worth now: its shares at the current price of its
/// side, truncated toward zero.
pub open spec fn current_worth(market: MarketV2, order: Order) -> int {
    mul_div(
        order.total_shares as int,
        market.price_of(order.direction) as int,
        PRICE_SCALE as int,
    )
}

/// The price the order's side would have with the order's worth gone from
/// its pool.
pub open spec fn close_target(market: MarketV2, order: Order) -> int {
    pool_ratio_price(
        market.liquidity_of(order.direction) - current_worth(market, order),
        market.liquidity_of(order.direction.flipped()) as int,
    )
}

/// Whether some total that the close changes cannot take the change.
pub open spec fn close_totals_fail(market: MarketV2, ledger: Ledger, order: Order) -> bool {
    let worth = current_worth(market, order);
    ||| market.shares_of(order.direction) < order.total_shares
    ||| market.volume + worth > u64::MAX
    ||| market.opened_orders == 0
    ||| ledger.opened_orders == 0
    ||| ledger.total_withdraws + worth > u64::MAX
    ||| !(i64::MIN <= worth - order.total_amount <= i64::MAX)
}

/// Why a close is refused, if it is. The tests are made in this order and
/// the first that fails decides.
pub open spec fn close_order_rejection(
    market: MarketV2,
    ledger: Ledger,
    auth: Authorization,
    order_id: u64,
    ts: i64,
) -> Option<TriadProtocolError> {
    let found = first_match(ledger.orders, close_query(market, order_id));
    if !auth.is_owner {
        Some(TriadProtocolError::Unauthorized)
    } else if found is None {
        Some(TriadProtocolError::OrderNotFound)
    } else if market.trading_rejection(ts) is Some {
        market.trading_rejection(ts)
    } else {
        let order = ledger.orders[found.unwrap()];
        if current_worth(market, order) > u64::MAX {
            Some(TriadProtocolError::ArithmeticFailure)
        } else if market.liquidity_of(order.direction) <= current_worth(market, order) {
            Some(TriadProtocolError::InsufficientLiquidity)
        } else if close_totals_fail(market, ledger, order) {
            Some(TriadProtocolError::ArithmeticFailure)
        } else {
            None
        }
    }
}

/// The market after `order` was closed: where the order was worth
/// anything, repriced with that worth gone from the order's pool; the
/// order's shares gone from its side; one order fewer.
pub open spec fn closed_market(market: MarketV2, order: Order, ts: i64) -> MarketV2 {
    let worth = current_worth(market, order);
    let repriced = if worth > 0 {
        market.repriced(worth as u64, close_target(market, order) as u64, order.direction, false, ts)
    } else {
        market
    };
    MarketV2 {
        hype_shares: if order.direction == OrderDirection::Hype {
            (market.hype_shares - order.total_shares) as u64
        } else {
            market.hype_shares
        },
        flop_shares: if order.direction == OrderDirection::Flop {
            (market.flop_shares - order.total_shares) as u64
        } else {
            market.flop_shares
        },
        volume: (market.volume + worth) as u64,
        opened_orders: (market.opened_orders - 1) as u64,
        update_ts: ts,
        ..repriced
    }
}

/// The ledger after the order in `slot` was closed: the slot is empty
/// again.
pub open spec fn closed_ledger(market: MarketV2, ledger: Ledger, slot: int) -> Ledger {
    Ledger {
        opened_orders: (ledger.opened_orders - 1) as u64,
        total_withdraws: (ledger.total_withdraws + current_worth(market, ledger.orders[slot])) as u64,
        orders: ledger.orders.update(slot, Order::empty()),
        ..ledger
    }
}

/// What the caller is told and left to do.
pub open spec fn close_order_receipt(
    market: MarketV2,
    ledger: Ledger,
    slot: int,
    ts: i64,
) -> CloseOrderReceipt {
    let order = ledger.orders[slot];
    let worth = current_worth(market, order);
    CloseOrderReceipt {
        order: OrderUpdate {
            user: ledger.authority,
            market_id: market.market_id,
            order_id: order.order_id,
            direction: order.direction,
            order_type: order.order_type,
            order_status: OrderStatus::Closed,
            price: market.price_of(order.direction),
            total_shares: order.total_shares,
            total_amount: order.total_amount,
            comment: None,
            refund_amount: Some(worth as u64),
            timestamp: ts,
            is_question_winner: None,
            pnl: (worth - order.total_amount) as i64,
        },
        price: if worth > 0 {
            Some(closed_market(market, order, ts).price_notice(order.direction, ts))
        } else {
            None
        },
        refund_amount: worth as u64,
    }
}

/// Closes the open order `order_id` of this market at its current worth.
///
/// The worth leaves the pool of the order's side, which must hold more
/// than it, and goes back to the user; the slot is emptied. A refusal
/// changes nothing.
pub fn close_order(
    market: &mut MarketV2,
    user_trade: &mut UserTrade,
    auth: &Authorization,
    order_id: u64,
    ts: i64,
) -> (r: Result<CloseOrderReceipt, TriadProtocolError>)
    ensures
        match r {
            Ok(receipt) => {
                let slot = first_match(old(user_trade)@.orders, close_query(*old(market), order_id));
                &&& close_order_rejection(*old(market), old(user_trade)@, *auth, order_id, ts) is None
                &&& slot is Some
                &&& *final(market) == closed_market(
                    *old(market),
                    old(user_trade)@.orders[slot.unwrap()],
                    ts,
                )
                &&& final(user_trade)@ == closed_ledger(*old(market), old(user_trade)@, slot.unwrap())
                &&& receipt == close_order_receipt(*old(market), old(user_trade)@, slot.unwrap(), ts)
            },
            Err(e) => {
                &&& close_order_rejection(*old(market), old(user_trade)@, *auth, order_id, ts)
                    == Some(e)
                &&& *final(market) == *old(market)
                &&& *final(user_trade) == *old(user_trade)
            },
        },
        old(market).wf() ==> final(market).wf(),
        old(user_trade)@.wf() ==> final(user_trade)@.wf(),
{
    if !auth.is_owner {
        return Err(TriadProtocolError::Unauthorized);
    }
    let slot: usize = match user_trade.find_slot(
        SlotQuery::OpenOrderIn { order_id, market_id: market.market_id },
    ) {
        Some(slot) => slot,
        None => {
            return Err(TriadProtocolError::OrderNotFound);
        },
    };
    market.check_trading(ts)?;
    let order: Order = user_trade.orders[slot];
    let direction: OrderDirection = order.direction;
    let price: u64 = market.price(direction);
    let held: u64 = market.liquidity(direction);
    let other: u64 = market.liquidity(direction.opposite());
    let worth: u64 = match mul_div_floor(order.total_shares, price, PRICE_SCALE) {
        Some(worth) => worth,
        None => {
            return Err(TriadProtocolError::ArithmeticFailure);
        },
    };
    if held <= worth {
        return Err(TriadProtocolError::InsufficientLiquidity);
    }
    let side_shares: u64 = sub_or_fail(market.shares(direction), order.total_shares)?;
    let volume: u64 = add_or_fail(market.volume, worth)?;
    let market_open: u64 = sub_or_fail(market.opened_orders, 1)?;
    let ledger_open: u64 = sub_or_fail(user_trade.opened_orders, 1)?;
    let withdraws: u64 = add_or_fail(user_trade.total_withdraws, worth)?;
    let pnl: i64 = signed_difference(worth, order.total_amount)?;

    let notice: Option<PriceUpdate> = if worth > 0 {
        let target: u64 = ratio_price((held - worth) as u128, other as u128);
        match market.update_price(worth, target, direction, false, ts) {
            Ok(notice) => Some(notice),
            Err(e) => {
                proof {
                    assert(false);
                }
                return Err(e);
            },
        }
    } else {
        None
    };
    match direction {
        OrderDirection::Hype => {
            market.hype_shares = side_shares;
        },
        OrderDirection::Flop => {
            market.flop_shares = side_shares;
        },
    }
    market.volume = volume;
    market.opened_orders = market_open;
    market.update_ts = ts;

    proof {
        lemma_open_count_update(old(user_trade)@.orders, slot as int, Order::empty());
    }
    user_trade.orders.set(slot, Order::default());
    user_trade.opened_orders = ledger_open;
    user_trade.total_withdraws = withdraws;
    assert(user_trade@.orders =~= closed_ledger(*old(market), old(user_trade)@, slot as int).orders);

    Ok(
        CloseOrderReceipt {
            order: OrderUpdate {
                user: user_trade.authority,
                market_id: market.market_id,
                order_id: order.order_id,
                direction,
                order_type: order.order_type,
                order_status: OrderStatus::Closed,
                price,
                total_shares: order.total_shares,
                total_amount: order.total_amount,
                comment: None,
                refund_amount: Some(worth),
                timestamp: ts,
                is_question_winner: None,
                pnl,
            },
            price: notice,
            refund_amount: worth,
        },
    )
}

} // verus!
