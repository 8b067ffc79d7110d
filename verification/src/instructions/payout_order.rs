//! Paying out an order once its market is resolved.

use vstd::prelude::*;
use crate::auth::Authorization;
use crate::errors::TriadProtocolError;
use crate::events::OrderUpdate;
use crate::math::{add_or_fail, signed_difference, sub_or_fail};
use crate::settlement::{calculate_payout, payout_owed, PayoutPolicy};
use crate::state::market_v2::{MarketV2, WinningDirection};
use crate::state::order::{Order, OrderStatus};
use crate::state::user_trade::{first_match, lemma_open_count_update, Ledger, SlotQuery, UserTrade};

verus! {

/// What paying out an order leaves for the caller to do and to tell.
#[derive(Clone, Copy, Debug, PartialEq, Eq)]
pub struct PayoutReceipt {
    /// The order as it was closed.
    pub order: OrderUpdate,
    /// What has to pass from the market's custody to the user; zero for an
    /// order that lost.
    pub payout: u64,
}

/// The search that finds the order to pay out: the first open one of this
/// id.
pub open spec fn payout_query(order_id: u64) -> SlotQuery {
    SlotQuery::OpenOrder { order_id }
}

/// Whether some total that the payout changes cannot take the change.
pub open spec fn payout_totals_fail(
    market: MarketV2,
    ledger: Ledger,
    order: Order,
    payout: u64,
) -> bool {
    ||| ledger.total_withdraws + payout > u64::MAX
    ||| ledger.opened_orders == 0
    ||| market.opened_orders == 0
    ||| !(i64::MIN <= payout - order.total_amount <= i64::MAX)
}

/// Why a payout is refused, if it is. The tests are made in this order and
/// the first that fails decides.
pub open spec fn payout_order_rejection(
    market: MarketV2,
    ledger: Ledger,
    auth: Authorization,
    order_id: u64,
    policy: PayoutPolicy,
) -> Option<TriadProtocolError> {
    let found = first_match(ledger.orders, payout_query(order_id));
    if !auth.is_owner {
        Some(TriadProtocolError::Unauthorized)
    } else if !market.resolved() {
        Some(TriadProtocolError::MarketNotResolved)
    } else if found is None {
        Some(TriadProtocolError::OrderNotFound)
    } else {
        let order = ledger.orders[found.unwrap()];
        if order.market_id != market.market_id {
            Some(TriadProtocolError::OrderNotOpen)
        } else {
            match payout_owed(policy, order, market) {
                Err(e) => Some(e),
                Ok(payout) => if payout_totals_fail(market, ledger, order, payout) {
                    Some(TriadProtocolError::ArithmeticFailure)
                } else {
                    None
                },
            }
        }
    }
}

/// The market after one of its orders was paid out: one order fewer, and
/// nothing else has moved.
pub open spec fn paid_market(market: MarketV2) -> MarketV2 {
    MarketV2 { opened_orders: (market.opened_orders - 1) as u64, ..market }
}

/// The ledger after the order in `slot` was paid `payout`: the order is
/// closed and stays in its slot.
pub open spec fn paid_ledger(ledger: Ledger, slot: int, payout: u64) -> Ledger {
    Ledger {
        opened_orders: (ledger.opened_orders - 1) as u64,
        total_withdraws: (ledger.total_withdraws + payout) as u64,
        orders: ledger.orders.update(slot, ledger.orders[slot].closed()),
        ..ledger
    }
}

/// What the caller is told and left to do.
pub open spec fn payout_receipt(
    market: MarketV2,
    ledger: Ledger,
    slot: int,
    payout: u64,
    ts: i64,
) -> PayoutReceipt {
    let order = ledger.orders[slot];
    PayoutReceipt {
        order: OrderUpdate {
            user: ledger.authority,
            market_id: market.market_id,
            order_id: order.order_id,
            direction: order.direction,
            order_type: order.order_type,
            order_status: OrderStatus::Closed,
            price: order.price,
            total_shares: order.total_shares,
            total_amount: order.total_amount,
            comment: None,
            refund_amount: Some(payout),
            timestamp: ts,
            is_question_winner: Some(market.winning_direction.favours(order.direction)),
            pnl: (payout - order.total_amount) as i64,
        },
        payout,
    }
}

/// What a payout does: where it is accepted, the order is paid what it is
/// owed and closed; where it is refused, nothing changes.
pub open spec fn payout_order_outcome(
    market: MarketV2,
    ledger: Ledger,
    auth: Authorization,
    order_id: u64,
    policy: PayoutPolicy,
    ts: i64,
    market_after: MarketV2,
    ledger_after: Ledger,
    r: Result<PayoutReceipt, TriadProtocolError>,
) -> bool {
    match r {
        Ok(receipt) => {
            let slot = first_match(ledger.orders, payout_query(order_id));
            &&& payout_order_rejection(market, ledger, auth, order_id, policy) is None
            &&& slot is Some
            &&& payout_owed(policy, ledger.orders[slot.unwrap()], market) == Ok::<
                u64,
                TriadProtocolError,
            >(receipt.payout)
            &&& market_after == paid_market(market)
            &&& ledger_after == paid_ledger(ledger, slot.unwrap(), receipt.payout)
            &&& receipt == payout_receipt(market, ledger, slot.unwrap(), receipt.payout, ts)
        },
        Err(e) => {
            &&& payout_order_rejection(market, ledger, auth, order_id, policy) == Some(e)
            &&& market_after == market
            &&& ledger_after == ledger
        },
    }
}

/// Pays out the open order `order_id` of a resolved market under `policy`
/// and closes it.
///
/// An order on the winning side is owed what the policy says, any other
/// nothing. A refusal changes nothing.
pub fn payout_order(
    market: &mut MarketV2,
    user_trade: &mut UserTrade,
    auth: &Authorization,
    order_id: u64,
    policy: PayoutPolicy,
    ts: i64,
) -> (r: Result<PayoutReceipt, TriadProtocolError>)
    ensures
        payout_order_outcome(
            *old(market),
            old(user_trade)@,
            *auth,
            order_id,
            policy,
            ts,
            *final(market),
            final(user_trade)@,
            r,
        ),
        r is Err ==> *final(user_trade) == *old(user_trade),
        old(market).wf() ==> final(market).wf(),
        old(user_trade)@.wf() ==> final(user_trade)@.wf(),
{
    if !auth.is_owner {
        return Err(TriadProtocolError::Unauthorized);
    }
    if market.winning_direction == WinningDirection::Unresolved {
        return Err(TriadProtocolError::MarketNotResolved);
    }
    let slot: usize = match user_trade.find_slot(SlotQuery::OpenOrder { order_id }) {
        Some(slot) => slot,
        None => {
            return Err(TriadProtocolError::OrderNotFound);
        },
    };
    let order: Order = user_trade.orders[slot];
    if order.market_id != market.market_id {
        return Err(TriadProtocolError::OrderNotOpen);
    }
    let is_winner: bool = market.winning_direction.is_winner(order.direction);
    let payout: u64 = calculate_payout(policy, &order, market)?;
    let withdraws: u64 = add_or_fail(user_trade.total_withdraws, payout)?;
    let ledger_open: u64 = sub_or_fail(user_trade.opened_orders, 1)?;
    let market_open: u64 = sub_or_fail(market.opened_orders, 1)?;
    let pnl: i64 = signed_difference(payout, order.total_amount)?;

    market.opened_orders = market_open;

    let mut closed: Order = order;
    closed.status = OrderStatus::Closed;
    proof {
        lemma_open_count_update(old(user_trade)@.orders, slot as int, closed);
    }
    user_trade.orders.set(slot, closed);
    user_trade.opened_orders = ledger_open;
    user_trade.total_withdraws = withdraws;
    assert(user_trade@.orders =~= paid_ledger(old(user_trade)@, slot as int, payout).orders);
    assert(user_trade@ == paid_ledger(old(user_trade)@, slot as int, payout));

    Ok(
        PayoutReceipt {
            order: OrderUpdate {
                user: user_trade.authority,
                market_id: market.market_id,
                order_id: order.order_id,
                direction: order.direction,
                order_type: order.order_type,
                order_status: OrderStatus::Closed,
                price: order.price,
                total_shares: order.total_shares,
                total_amount: order.total_amount,
                comment: None,
                refund_amount: Some(payout),
                timestamp: ts,
                is_question_winner: Some(is_winner),
                pnl,
            },
            payout,
        },
    )
}

} // verus!
