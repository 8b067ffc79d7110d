//! What holds of the engine whatever is done with it.
//!
//! The laws are stated over the same functions that the contracts of the
//! operations use, so each is a statement about what the operations do.

use vstd::prelude::*;
use crate::auth::Authorization;
use crate::constants::{INITIAL_POOL_LIQUIDITY, MAX_PRICE, MIN_PRICE};
use crate::errors::TriadProtocolError;
use crate::instructions::add_liquidity::{
    add_liquidity_rejection, funded_market, trading_begun,
};
use crate::instructions::close_order::{
    close_order_rejection, close_query, closed_ledger, closed_market, current_worth,
};
use crate::instructions::collect_fee::collect_fee_rejection;
use crate::instructions::initialize_market::initialized_market;
use crate::instructions::open_order::{
    open_exposure, open_net, open_order_rejection, open_target, open_terms_rejection,
    opened_ledger, opened_market, opened_order,
};
use crate::instructions::payout_order::{
    paid_ledger, paid_market, payout_order_rejection, payout_query,
};
use crate::instructions::resolve_market::{resolve_market_rejection, resolved_market};
use crate::math::lemma_round_is_floor_plus_carry;
use crate::settlement::{payout_owed, proportional_bonus, proportional_payout, PayoutPolicy};
use crate::state::market_v2::{
    damped, price_gap, stepped_price, AddLiquidityArgs, InitializeMarketArgs, MarketV2,
    WinningDirection,
};
use crate::state::order::{OpenOrderArgs, Order};
use crate::state::user_trade::{
    first_match, is_first_match, lemma_first_match_is, lemma_first_match_none,
    lemma_first_match_some, lemma_open_count_bounds, lemma_open_count_update, open_count, Ledger,
    SlotQuery,
};

verus! {

/// One call of one operation, with everything the caller hands it.
pub enum Operation {
    Open { auth: Authorization, args: OpenOrderArgs, ts: i64 },
    Close { auth: Authorization, order_id: u64, ts: i64 },
    Payout { auth: Authorization, order_id: u64, policy: PayoutPolicy },
    Resolve { auth: Authorization, winning_direction: WinningDirection },
    CollectFee { auth: Authorization },
    AddLiquidity { auth: Authorization, addition: AddLiquidityArgs },
}

impl Operation {
    /// Opening and closing are the trades: the operations that read and
    /// move prices.
    pub open spec fn is_trade(self) -> bool {
        self is Open || self is Close
    }

    /// What the authorization service said of the caller.
    pub open spec fn caller(self) -> Authorization {
        match self {
            Operation::Open { auth, .. } => auth,
            Operation::Close { auth, .. } => auth,
            Operation::Payout { auth, .. } => auth,
            Operation::Resolve { auth, .. } => auth,
            Operation::CollectFee { auth } => auth,
            Operation::AddLiquidity { auth, .. } => auth,
        }
    }

    /// Whether the order that a close names is in the ledger, open. Any
    /// other operation names none and has nothing to miss.
    pub open spec fn finds_its_order(self, market: MarketV2, ledger: Ledger) -> bool {
        match self {
            Operation::Close { order_id, .. } => first_match(
                ledger.orders,
                close_query(market, order_id),
            ) is Some,
            _ => true,
        }
    }

    /// The time a trade is made at.
    pub open spec fn trade_ts(self) -> i64 {
        match self {
            Operation::Open { ts, .. } => ts,
            Operation::Close { ts, .. } => ts,
            _ => 0,
        }
    }

    /// Why the operation is refused on this market and ledger, if it is.
    pub open spec fn rejection(self, market: MarketV2, ledger: Ledger) -> Option<
        TriadProtocolError,
    > {
        match self {
            Operation::Open { auth, args, ts } => open_order_rejection(
                market,
                ledger,
                auth,
                args,
                ts,
            ),
            Operation::Close { auth, order_id, ts } => close_order_rejection(
                market,
                ledger,
                auth,
                order_id,
                ts,
            ),
            Operation::Payout { auth, order_id, policy } => payout_order_rejection(
                market,
                ledger,
                auth,
                order_id,
                policy,
            ),
            Operation::Resolve { auth, winning_direction } => resolve_market_rejection(
                market,
                auth,
                winning_direction,
            ),
            Operation::CollectFee { auth } => collect_fee_rejection(market, auth),
            Operation::AddLiquidity { auth, addition } => add_liquidity_rejection(
                market,
                auth,
                addition,
            ),
        }
    }

    /// The market after the operation: as it was where the operation is
    /// refused.
    pub open spec fn market_after(self, market: MarketV2, ledger: Ledger) -> MarketV2 {
        if self.rejection(market, ledger) is Some {
            market
        } else {
            match self {
                Operation::Open { args, ts, .. } => opened_market(market, args, ts),
                Operation::Close { order_id, ts, .. } => closed_market(
                    market,
                    ledger.orders[first_match(ledger.orders, close_query(market, order_id)).unwrap()],
                    ts,
                ),
                Operation::Payout { .. } => paid_market(market),
                Operation::Resolve { winning_direction, .. } => resolved_market(
                    market,
                    winning_direction,
                ),
                Operation::CollectFee { .. } => market.drained(),
                Operation::AddLiquidity { addition, .. } => funded_market(market, addition),
            }
        }
    }

    /// The ledger after the operation: as it was where the operation is
    /// refused.
    pub open spec fn ledger_after(self, market: MarketV2, ledger: Ledger) -> Ledger {
        if self.rejection(market, ledger) is Some {
            ledger
        } else {
            match self {
                Operation::Open { args, ts, .. } => opened_ledger(market, ledger, args, ts),
                Operation::Close { order_id, .. } => closed_ledger(
                    market,
                    ledger,
                    first_match(ledger.orders, close_query(market, order_id)).unwrap(),
                ),
                Operation::Payout { order_id, policy, .. } => {
                    let slot = first_match(ledger.orders, payout_query(order_id)).unwrap();
                    paid_ledger(
                        ledger,
                        slot,
                        payout_owed(policy, ledger.orders[slot], market)->Ok_0,
                    )
                },
                _ => ledger,
            }
        }
    }
}

/// The market after a history: each step is an operation together with
/// the ledger of the user who made it, as it stood then.
pub open spec fn market_after_all(history: Seq<(Operation, Ledger)>, market: MarketV2) -> MarketV2
    decreases history.len(),
{
    if history.len() == 0 {
        market
    } else {
        let (operation, ledger) = history.last();
        operation.market_after(market_after_all(history.drop_last(), market), ledger)
    }
}

/// A well-formed market stays well-formed through every operation,
/// accepted or refused, whoever's ledger it is made with: the prices stay
/// in `[1, 999_999]` and add up to 1_000_000, the market is active exactly
/// as long as it has no outcome, and no fee pool pays out more than it took
/// in.
pub proof fn operation_keeps_market_valid(operation: Operation, market: MarketV2, ledger: Ledger)
    requires
        market.wf(),
    ensures
        operation.market_after(market, ledger).wf(),
{
    if operation.rejection(market, ledger) is None {
        match operation {
            Operation::Open { args, ts, .. } => {
                market.lemma_repriced_prices_valid(
                    open_net(market, args) as u64,
                    crate::instructions::open_order::open_target(market, args) as u64,
                    args.direction,
                    true,
                    ts,
                );
            },
            Operation::Close { order_id, ts, .. } => {
                let order = ledger.orders[first_match(
                    ledger.orders,
                    close_query(market, order_id),
                ).unwrap()];
                market.lemma_repriced_prices_valid(
                    current_worth(market, order) as u64,
                    crate::instructions::close_order::close_target(market, order) as u64,
                    order.direction,
                    false,
                    ts,
                );
            },
            _ => {},
        }
    }
}

/// From its creation on, through any history of operations, a market is
/// well-formed: in particular its two prices lie in `[1, 999_999]` and add
/// up to 1_000_000.
pub proof fn market_valid_through_history(
    history: Seq<(Operation, Ledger)>,
    args: InitializeMarketArgs,
    authority: [u8; 32],
    mint: [u8; 32],
    bump: u8,
    ts: i64,
)
    ensures
        market_after_all(history, initialized_market(args, authority, mint, bump, ts)).wf(),
        market_after_all(
            history,
            initialized_market(args, authority, mint, bump, ts),
        ).prices_valid(),
    decreases history.len(),
{
    if history.len() > 0 {
        market_valid_through_history(history.drop_last(), args, authority, mint, bump, ts);
        let (operation, ledger) = history.last();
        operation_keeps_market_valid(
            operation,
            market_after_all(
                history.drop_last(),
                initialized_market(args, authority, mint, bump, ts),
            ),
            ledger,
        );
    }
}

/// A ledger whose counter of open orders is right keeps it right through
/// every operation, accepted or refused; its number of slots never
/// changes, and no more orders are open than it has slots.
pub proof fn operation_keeps_ledger_valid(operation: Operation, market: MarketV2, ledger: Ledger)
    requires
        ledger.wf(),
    ensures
        operation.ledger_after(market, ledger).wf(),
        operation.ledger_after(market, ledger).capacity() == ledger.capacity(),
        operation.ledger_after(market, ledger).opened_orders <= ledger.capacity(),
{
    if operation.rejection(market, ledger) is None {
        match operation {
            Operation::Open { args, ts, .. } => {
                lemma_first_match_some(ledger.orders, SlotQuery::Free);
                let slot = first_match(ledger.orders, SlotQuery::Free).unwrap();
                lemma_open_count_update(ledger.orders, slot, opened_order(market, args, ts));
            },
            Operation::Close { order_id, .. } => {
                lemma_first_match_some(ledger.orders, close_query(market, order_id));
                let slot = first_match(ledger.orders, close_query(market, order_id)).unwrap();
                lemma_open_count_update(ledger.orders, slot, Order::empty());
            },
            Operation::Payout { order_id, .. } => {
                lemma_first_match_some(ledger.orders, payout_query(order_id));
                let slot = first_match(ledger.orders, payout_query(order_id)).unwrap();
                lemma_open_count_update(ledger.orders, slot, ledger.orders[slot].closed());
            },
            _ => {},
        }
    }
    lemma_open_count_bounds(operation.ledger_after(market, ledger).orders);
}

/// The ledger after a history: each step is an operation together with
/// the market it was made on, as it stood then.
pub open spec fn ledger_after_all(history: Seq<(Operation, MarketV2)>, ledger: Ledger) -> Ledger
    decreases history.len(),
{
    if history.len() == 0 {
        ledger
    } else {
        let (operation, market) = history.last();
        operation.ledger_after(market, ledger_after_all(history.drop_last(), ledger))
    }
}

/// Through any history of operations, on whatever markets, a ledger that
/// began with a right counter has a right counter and the slots it began
/// with.
pub proof fn ledger_valid_through_history(history: Seq<(Operation, MarketV2)>, ledger: Ledger)
    requires
        ledger.wf(),
    ensures
        ledger_after_all(history, ledger).wf(),
        ledger_after_all(history, ledger).capacity() == ledger.capacity(),
        ledger_after_all(history, ledger).opened_orders <= ledger.capacity(),
    decreases history.len(),
{
    if history.len() > 0 {
        ledger_valid_through_history(history.drop_last(), ledger);
        let (operation, market) = history.last();
        operation_keeps_ledger_valid(
            operation,
            market,
            ledger_after_all(history.drop_last(), ledger),
        );
    } else {
        lemma_open_count_bounds(ledger.orders);
    }
}

/// No pool and no share total of a market is ever negative.
pub proof fn amounts_never_negative(history: Seq<(Operation, Ledger)>, market: MarketV2)
    ensures
        market_after_all(history, market).hype_liquidity >= 0,
        market_after_all(history, market).flop_liquidity >= 0,
        market_after_all(history, market).hype_shares >= 0,
        market_after_all(history, market).flop_shares >= 0,
{
}

/// A close takes from the pool and from the share total of the order's
/// side exactly the order's worth and the order's shares, and neither holds
/// less than is taken: nothing wraps below zero.
pub proof fn close_takes_no_more_than_held(
    market: MarketV2,
    ledger: Ledger,
    auth: Authorization,
    order_id: u64,
    ts: i64,
)
    requires
        close_order_rejection(market, ledger, auth, order_id, ts) is None,
    ensures
        ({
            let order = ledger.orders[first_match(
                ledger.orders,
                close_query(market, order_id),
            ).unwrap()];
            let after = closed_market(market, order, ts);
            &&& after.liquidity_of(order.direction) == market.liquidity_of(order.direction)
                - current_worth(market, order)
            &&& after.liquidity_of(order.direction) > 0
            &&& after.shares_of(order.direction) == market.shares_of(order.direction)
                - order.total_shares
            &&& after.liquidity_of(order.direction.flipped()) == market.liquidity_of(
                order.direction.flipped(),
            )
            &&& after.shares_of(order.direction.flipped()) == market.shares_of(
                order.direction.flipped(),
            )
        }),
{
}

/// Slot `j` is the first after slot `after` that answers the query.
pub open spec fn is_next_match(orders: Seq<Order>, query: SlotQuery, after: int, j: int) -> bool {
    &&& after < j < orders.len()
    &&& query.admits(orders[j])
    &&& forall|k: int| after < k < j ==> !query.admits(#[trigger] orders[k])
}

/// An order that was paid out is not paid out again: a second payout of
/// the same order id, under any policy, is refused with `OrderNotFound` or
/// `OrderNotOpen`.
///
/// This is stated of ledgers in which the next open order of that id after
/// the one paid, where there is one, belongs to another market. Where it
/// belongs to the same market it is a second order of the same id, and the
/// second payout pays that one.
pub proof fn second_payout_is_refused(
    market: MarketV2,
    ledger: Ledger,
    auth: Authorization,
    order_id: u64,
    first_policy: PayoutPolicy,
    second_policy: PayoutPolicy,
)
    requires
        payout_order_rejection(market, ledger, auth, order_id, first_policy) is None,
        forall|j: int| #[trigger]
            is_next_match(
                ledger.orders,
                payout_query(order_id),
                first_match(ledger.orders, payout_query(order_id)).unwrap(),
                j,
            ) ==> ledger.orders[j].market_id != market.market_id,
    ensures
        ({
            let first = Operation::Payout { auth, order_id, policy: first_policy };
            let again = payout_order_rejection(
                first.market_after(market, ledger),
                first.ledger_after(market, ledger),
                auth,
                order_id,
                second_policy,
            );
            again == Some(TriadProtocolError::OrderNotFound) || again == Some(
                TriadProtocolError::OrderNotOpen,
            )
        }),
{
    let query = payout_query(order_id);
    lemma_first_match_some(ledger.orders, query);
    let slot = first_match(ledger.orders, query).unwrap();
    let first = Operation::Payout { auth, order_id, policy: first_policy };
    let after = first.ledger_after(market, ledger);
    assert(after.orders == ledger.orders.update(slot, ledger.orders[slot].closed()));
    lemma_first_match_some(after.orders, query);
    if first_match(after.orders, query) is Some {
        let j = first_match(after.orders, query).unwrap();
        assert(is_first_match(after.orders, query, j));
        if j < slot {
            assert(after.orders[j] == ledger.orders[j]);
            assert(!query.admits(ledger.orders[j]));
        }
        assert(j > slot);
        assert forall|k: int| slot < k < j implies !query.admits(#[trigger] ledger.orders[k]) by {
            assert(after.orders[k] == ledger.orders[k]);
        }
        assert(is_next_match(ledger.orders, query, slot, j));
    }
}

/// An order that was closed is not paid out later: its slot is empty.
/// Once the market is resolved, a payout of the same order id is refused
/// with `OrderNotFound` or `OrderNotOpen`, in ledgers as above.
pub proof fn payout_after_close_is_refused(
    market: MarketV2,
    ledger: Ledger,
    auth: Authorization,
    order_id: u64,
    ts: i64,
    later: MarketV2,
    policy: PayoutPolicy,
)
    requires
        close_order_rejection(market, ledger, auth, order_id, ts) is None,
        later.market_id == market.market_id,
        later.resolved(),
        forall|j: int|
            0 <= j < ledger.orders.len() && j != first_match(
                ledger.orders,
                close_query(market, order_id),
            ).unwrap() && payout_query(order_id).admits(#[trigger] ledger.orders[j])
                ==> ledger.orders[j].market_id != market.market_id,
    ensures
        ({
            let close = Operation::Close { auth, order_id, ts };
            let again = payout_order_rejection(
                later,
                close.ledger_after(market, ledger),
                auth,
                order_id,
                policy,
            );
            again == Some(TriadProtocolError::OrderNotFound) || again == Some(
                TriadProtocolError::OrderNotOpen,
            )
        }),
{
    let query = payout_query(order_id);
    lemma_first_match_some(ledger.orders, close_query(market, order_id));
    let slot = first_match(ledger.orders, close_query(market, order_id)).unwrap();
    let close = Operation::Close { auth, order_id, ts };
    let after = close.ledger_after(market, ledger);
    assert(after.orders == ledger.orders.update(slot, Order::empty()));
    lemma_first_match_some(after.orders, query);
    if first_match(after.orders, query) is Some {
        let j = first_match(after.orders, query).unwrap();
        assert(is_first_match(after.orders, query, j));
        assert(j != slot);
        assert(after.orders[j] == ledger.orders[j]);
    }
}

/// A trade that comes no later than the market's last price move is
/// refused with `ConcurrentTransaction`, provided its caller owns the
/// ledger, the market is active and the time lies within its period, and,
/// for a close, the order is there.
pub proof fn stale_trade_is_refused(operation: Operation, market: MarketV2, ledger: Ledger)
    requires
        operation.is_trade(),
        operation.trade_ts() <= market.update_ts,
        market.is_active,
        market.market_start < operation.trade_ts() < market.market_end,
        operation.caller().is_owner,
        operation.finds_its_order(market, ledger),
    ensures
        operation.rejection(market, ledger) == Some(TriadProtocolError::ConcurrentTransaction),
{
}

/// An accepted trade records its time as the market's last price move and
/// leaves the market active with its period unchanged.
pub proof fn trade_advances_clock(operation: Operation, market: MarketV2, ledger: Ledger)
    requires
        operation.is_trade(),
        operation.rejection(market, ledger) is None,
    ensures
        operation.market_after(market, ledger).update_ts == operation.trade_ts(),
        operation.market_after(market, ledger).update_ts > market.update_ts,
        operation.market_after(market, ledger).is_active,
        operation.market_after(market, ledger).market_start == market.market_start,
        operation.market_after(market, ledger).market_end == market.market_end,
        market.market_start < operation.trade_ts() < market.market_end,
{
}

/// Of two trades on one market, the second is refused with
/// `ConcurrentTransaction` where its time is that of the first or earlier,
/// whoever's ledger it is made with.
///
/// This is stated of second trades whose time lies after the start of the
/// market's period, whose caller owns the ledger, and, for a close, whose
/// order is there: without these the second trade is refused for that
/// reason first.
pub proof fn second_trade_at_same_time_is_refused(
    first: Operation,
    second: Operation,
    market: MarketV2,
    first_ledger: Ledger,
    second_ledger: Ledger,
)
    requires
        first.is_trade(),
        second.is_trade(),
        first.rejection(market, first_ledger) is None,
        second.trade_ts() <= first.trade_ts(),
        market.market_start < second.trade_ts(),
        second.caller().is_owner,
        second.finds_its_order(first.market_after(market, first_ledger), second_ledger),
    ensures
        second.rejection(first.market_after(market, first_ledger), second_ledger) == Some(
            TriadProtocolError::ConcurrentTransaction,
        ),
{
    trade_advances_clock(first, market, first_ledger);
    stale_trade_is_refused(second, first.market_after(market, first_ledger), second_ledger);
}

/// A ledger whose slots all hold open orders takes no further order: an
/// order that the market's terms admit is refused with
/// `NoAvailableOrderSlot`.
pub proof fn full_ledger_refuses_order(
    market: MarketV2,
    ledger: Ledger,
    auth: Authorization,
    args: OpenOrderArgs,
    ts: i64,
)
    requires
        open_count(ledger.orders) == ledger.capacity(),
        open_terms_rejection(market, auth, args, ts) is None,
    ensures
        open_order_rejection(market, ledger, auth, args, ts) == Some(
            TriadProtocolError::NoAvailableOrderSlot,
        ),
{
    lemma_open_count_bounds(ledger.orders);
    lemma_first_match_none(ledger.orders, SlotQuery::Free);
}

/// Closing an order frees its slot: afterwards the ledger has a free slot,
/// so no order is refused for want of one; and where the ledger was full,
/// the next order takes the very slot that was freed.
pub proof fn closed_slot_is_reused(
    market: MarketV2,
    ledger: Ledger,
    auth: Authorization,
    order_id: u64,
    ts: i64,
    next_market: MarketV2,
    next_auth: Authorization,
    next_args: OpenOrderArgs,
    next_ts: i64,
)
    requires
        close_order_rejection(market, ledger, auth, order_id, ts) is None,
    ensures
        ({
            let slot = first_match(ledger.orders, close_query(market, order_id)).unwrap();
            let after = closed_ledger(market, ledger, slot);
            &&& first_match(after.orders, SlotQuery::Free) is Some
            &&& open_order_rejection(next_market, after, next_auth, next_args, next_ts) != Some(
                TriadProtocolError::NoAvailableOrderSlot,
            )
            &&& open_count(ledger.orders) == ledger.capacity() ==> {
                &&& first_match(after.orders, SlotQuery::Free) == Some(slot)
                &&& opened_ledger(next_market, after, next_args, next_ts).orders[slot]
                    == opened_order(next_market, next_args, next_ts)
            }
        }),
{
    let query = close_query(market, order_id);
    lemma_first_match_some(ledger.orders, query);
    let slot = first_match(ledger.orders, query).unwrap();
    let after = closed_ledger(market, ledger, slot);
    assert(SlotQuery::Free.admits(after.orders[slot]));
    lemma_first_match_none(after.orders, SlotQuery::Free);
    if open_count(ledger.orders) == ledger.capacity() {
        lemma_open_count_bounds(ledger.orders);
        assert forall|j: int| 0 <= j < slot implies !SlotQuery::Free.admits(
            #[trigger] after.orders[j],
        ) by {
            assert(after.orders[j] == ledger.orders[j]);
        }
        lemma_first_match_is(after.orders, SlotQuery::Free, slot);
    }
}

/// Paying out an order frees its slot too: the order stays in it, closed,
/// and the slot is free for the next order.
pub proof fn paid_slot_is_free(
    market: MarketV2,
    ledger: Ledger,
    auth: Authorization,
    order_id: u64,
    policy: PayoutPolicy,
)
    requires
        payout_order_rejection(market, ledger, auth, order_id, policy) is None,
    ensures
        ({
            let operation = Operation::Payout { auth, order_id, policy };
            first_match(operation.ledger_after(market, ledger).orders, SlotQuery::Free) is Some
        }),
{
    let query = payout_query(order_id);
    lemma_first_match_some(ledger.orders, query);
    let slot = first_match(ledger.orders, query).unwrap();
    let operation = Operation::Payout { auth, order_id, policy };
    let after = operation.ledger_after(market, ledger);
    assert(SlotQuery::Free.admits(after.orders[slot]));
    lemma_first_match_none(after.orders, SlotQuery::Free);
}

/// The principal of all `winners` together.
pub open spec fn total_principal(winners: Seq<Order>) -> int
    decreases winners.len(),
{
    if winners.len() == 0 {
        0
    } else {
        total_principal(winners.drop_last()) + winners.last().total_amount
    }
}

/// The shares of all `winners` together.
pub open spec fn total_winning_shares(winners: Seq<Order>) -> int
    decreases winners.len(),
{
    if winners.len() == 0 {
        0
    } else {
        total_winning_shares(winners.drop_last()) + winners.last().total_shares
    }
}

/// What the proportional rule pays all `winners` together.
pub open spec fn total_proportional_payout(
    winners: Seq<Order>,
    market_shares: int,
    opposing_liquidity: int,
) -> int
    decreases winners.len(),
{
    if winners.len() == 0 {
        0
    } else {
        total_proportional_payout(winners.drop_last(), market_shares, opposing_liquidity)
            + proportional_payout(
            winners.last().total_shares as int,
            winners.last().total_amount as int,
            market_shares,
            opposing_liquidity,
        )
    }
}

/// What is left over when a winner's part of the losing pool is cut to
/// whole units.
pub open spec fn bonus_remainder(shares: int, market_shares: int, opposing_liquidity: int) -> int {
    (shares * opposing_liquidity) % market_shares
}

/// Whether a winner's part of the losing pool is rounded up: the remainder
/// is half a unit or more.
pub open spec fn bonus_rounds_up(shares: int, market_shares: int, opposing_liquidity: int) -> bool {
    2 * bonus_remainder(shares, market_shares, opposing_liquidity) >= market_shares
}

/// The remainders of all `winners` together.
pub open spec fn total_remainder(
    winners: Seq<Order>,
    market_shares: int,
    opposing_liquidity: int,
) -> int
    decreases winners.len(),
{
    if winners.len() == 0 {
        0
    } else {
        total_remainder(winners.drop_last(), market_shares, opposing_liquidity) + bonus_remainder(
            winners.last().total_shares as int,
            market_shares,
            opposing_liquidity,
        )
    }
}

/// The number of `winners` whose part of the losing pool is rounded up.
pub open spec fn rounded_up_count(
    winners: Seq<Order>,
    market_shares: int,
    opposing_liquidity: int,
) -> int
    decreases winners.len(),
{
    if winners.len() == 0 {
        0
    } else {
        rounded_up_count(winners.drop_last(), market_shares, opposing_liquidity) + if bonus_rounds_up(
            winners.last().total_shares as int,
            market_shares,
            opposing_liquidity,
        ) {
            1int
        } else {
            0int
        }
    }
}

/// One winner's account: the part paid, in units of `1 / market_shares`,
/// is the exact part, less the remainder, plus one whole unit where it was
/// rounded up.
proof fn lemma_bonus_account(shares: int, market_shares: int, opposing_liquidity: int)
    requires
        0 <= shares,
        0 < market_shares,
        0 <= opposing_liquidity,
    ensures
        market_shares * proportional_bonus(shares, market_shares, opposing_liquidity)
            + bonus_remainder(shares, market_shares, opposing_liquidity) == shares
            * opposing_liquidity + if bonus_rounds_up(shares, market_shares, opposing_liquidity) {
            market_shares
        } else {
            0int
        },
        0 <= bonus_remainder(shares, market_shares, opposing_liquidity) < market_shares,
{
    let n = shares * opposing_liquidity;
    assert(0 <= n) by (nonlinear_arith)
        requires
            0 <= shares,
            0 <= opposing_liquidity,
            n == shares * opposing_liquidity,
    ;
    lemma_round_is_floor_plus_carry(n, market_shares);
    let q = n / market_shares;
    let r = n % market_shares;
    assert(n == market_shares * q + r && 0 <= r < market_shares) by (nonlinear_arith)
        requires
            q == n / market_shares,
            r == n % market_shares,
            0 < market_shares,
    ;
    let bonus = proportional_bonus(shares, market_shares, opposing_liquidity);
    if 2 * r >= market_shares {
        assert(bonus == q + 1);
        assert(market_shares * (q + 1) == market_shares * q + market_shares) by (nonlinear_arith);
    } else {
        assert(bonus == q);
    }
}

/// All winners' account: what was paid from the losing pool, in units of
/// `1 / market_shares`, is the exact part of the pool that the winners'
/// shares stand for, less all remainders, plus one whole unit for every
/// part that was rounded up. Half of a unit for every part rounded up is
/// covered by the remainders.
pub proof fn lemma_payout_account(winners: Seq<Order>, market_shares: int, opposing_liquidity: int)
    requires
        0 < market_shares,
        0 <= opposing_liquidity,
    ensures
        market_shares * (total_proportional_payout(winners, market_shares, opposing_liquidity)
            - total_principal(winners)) + total_remainder(
            winners,
            market_shares,
            opposing_liquidity,
        ) == opposing_liquidity * total_winning_shares(winners) + market_shares * rounded_up_count(
            winners,
            market_shares,
            opposing_liquidity,
        ),
        0 <= rounded_up_count(winners, market_shares, opposing_liquidity) <= winners.len(),
        market_shares * rounded_up_count(winners, market_shares, opposing_liquidity) <= 2
            * total_remainder(winners, market_shares, opposing_liquidity),
        0 <= total_winning_shares(winners),
    decreases winners.len(),
{
    if winners.len() > 0 {
        let front = winners.drop_last();
        let shares = winners.last().total_shares as int;
        lemma_payout_account(front, market_shares, opposing_liquidity);
        lemma_bonus_account(shares, market_shares, opposing_liquidity);
        let paid_front = total_proportional_payout(front, market_shares, opposing_liquidity)
            - total_principal(front);
        let bonus = proportional_bonus(shares, market_shares, opposing_liquidity);
        let up_front = rounded_up_count(front, market_shares, opposing_liquidity);
        let up: int = if bonus_rounds_up(shares, market_shares, opposing_liquidity) {
            1
        } else {
            0
        };
        assert(total_proportional_payout(winners, market_shares, opposing_liquidity)
            - total_principal(winners) == paid_front + bonus);
        assert(market_shares * (paid_front + bonus) == market_shares * paid_front + market_shares
            * bonus) by (nonlinear_arith);
        assert(opposing_liquidity * (total_winning_shares(front) + shares) == opposing_liquidity
            * total_winning_shares(front) + shares * opposing_liquidity) by (nonlinear_arith);
        assert(market_shares * (up_front + up) == market_shares * up_front + if up == 1 {
            market_shares
        } else {
            0int
        }) by (nonlinear_arith)
            requires
                up == 0 || up == 1,
        ;
    } else {
        assert(market_shares * 0 == 0);
        assert(opposing_liquidity * 0 == 0);
    }
}

/// All winners together are paid no more than the losing pool and their
/// own principal, exactly when what rounding up gave away is covered by
/// what rounding down kept and by the part of the pool that stands for
/// winning shares not among `winners`.
///
/// Rounding to the nearest unit can give each winner up to half a unit
/// more than the exact part, so the sum is not within the pool for every
/// set of winners: two winners with one share each of two, and a losing
/// pool of one unit, are paid one unit each.
pub proof fn payouts_conserved_exactly_when(
    winners: Seq<Order>,
    market_shares: int,
    opposing_liquidity: int,
)
    requires
        0 < market_shares,
        0 <= opposing_liquidity,
        total_winning_shares(winners) <= market_shares,
    ensures
        total_proportional_payout(winners, market_shares, opposing_liquidity) <= opposing_liquidity
            + total_principal(winners) <==> market_shares * rounded_up_count(
            winners,
            market_shares,
            opposing_liquidity,
        ) <= total_remainder(winners, market_shares, opposing_liquidity) + opposing_liquidity * (
        market_shares - total_winning_shares(winners)),
        rounded_up_count(winners, market_shares, opposing_liquidity) == 0
            ==> total_proportional_payout(winners, market_shares, opposing_liquidity)
            <= opposing_liquidity + total_principal(winners),
{
    lemma_payout_account(winners, market_shares, opposing_liquidity);
    let paid = total_proportional_payout(winners, market_shares, opposing_liquidity)
        - total_principal(winners);
    let up = rounded_up_count(winners, market_shares, opposing_liquidity);
    let kept = total_remainder(winners, market_shares, opposing_liquidity);
    let held = total_winning_shares(winners);
    assert(paid <= opposing_liquidity <==> market_shares * up <= kept + opposing_liquidity * (
    market_shares - held)) by (nonlinear_arith)
        requires
            market_shares * paid + kept == opposing_liquidity * held + market_shares * up,
            0 < market_shares,
    ;
    assert(0 <= opposing_liquidity * (market_shares - held)) by (nonlinear_arith)
        requires
            0 <= opposing_liquidity,
            held <= market_shares,
    ;
    assert(market_shares * 0 == 0);
}

/// All winners together are paid no more than the losing pool, their own
/// principal, and half a unit for each of them whose part was rounded up.
pub proof fn payouts_exceed_pool_by_rounding_only(
    winners: Seq<Order>,
    market_shares: int,
    opposing_liquidity: int,
)
    requires
        0 < market_shares,
        0 <= opposing_liquidity,
        total_winning_shares(winners) <= market_shares,
    ensures
        2 * total_proportional_payout(winners, market_shares, opposing_liquidity) <= 2 * (
        opposing_liquidity + total_principal(winners)) + rounded_up_count(
            winners,
            market_shares,
            opposing_liquidity,
        ),
        rounded_up_count(winners, market_shares, opposing_liquidity) <= winners.len(),
{
    lemma_payout_account(winners, market_shares, opposing_liquidity);
    let paid = total_proportional_payout(winners, market_shares, opposing_liquidity)
        - total_principal(winners);
    let up = rounded_up_count(winners, market_shares, opposing_liquidity);
    let kept = total_remainder(winners, market_shares, opposing_liquidity);
    let held = total_winning_shares(winners);
    assert(2 * paid <= 2 * opposing_liquidity + up) by (nonlinear_arith)
        requires
            market_shares * paid + kept == opposing_liquidity * held + market_shares * up,
            market_shares * up <= 2 * kept,
            0 <= held <= market_shares,
            0 <= opposing_liquidity,
            0 < market_shares,
    ;
}

/// A resolved market is frozen: no operation, whoever makes it, changes its
/// outcome, its prices, its pools or its share totals, and it never trades
/// again.
pub proof fn resolved_market_is_frozen(operation: Operation, market: MarketV2, ledger: Ledger)
    requires
        market.wf(),
        market.resolved(),
    ensures
        ({
            let after = operation.market_after(market, ledger);
            &&& after.winning_direction == market.winning_direction
            &&& !after.is_active
            &&& after.hype_price == market.hype_price
            &&& after.flop_price == market.flop_price
            &&& after.hype_liquidity == market.hype_liquidity
            &&& after.flop_liquidity == market.flop_liquidity
            &&& after.hype_shares == market.hype_shares
            &&& after.flop_shares == market.flop_shares
            &&& after.update_ts == market.update_ts
        }),
        operation.is_trade() ==> operation.rejection(market, ledger) is Some,
        operation is Resolve ==> operation.rejection(market, ledger) is Some,
        operation is AddLiquidity ==> operation.rejection(market, ledger) is Some,
{
}

/// One step moves a price by the damped gap at most, and never past the
/// target it moves toward.
pub proof fn price_step_is_bounded(current: int, target: int, is_open: bool)
    requires
        MIN_PRICE <= current <= MAX_PRICE,
    ensures
        0 <= damped(price_gap(current, target)) <= price_gap(current, target),
        is_open ==> current <= stepped_price(current, target, is_open) <= current + damped(
            price_gap(current, target),
        ),
        !is_open ==> current - damped(price_gap(current, target)) <= stepped_price(
            current,
            target,
            is_open,
        ) <= current,
        is_open && target >= current ==> stepped_price(current, target, is_open) <= target,
        !is_open && target <= current && target >= MIN_PRICE ==> stepped_price(
            current,
            target,
            is_open,
        ) >= target,
{
}

/// Under the proportional rule more shares are never paid less.
pub proof fn payout_grows_with_shares(
    fewer: int,
    more: int,
    total_amount: int,
    market_shares: int,
    opposing_liquidity: int,
)
    requires
        0 <= fewer <= more,
        0 < market_shares,
        0 <= opposing_liquidity,
    ensures
        proportional_payout(fewer, total_amount, market_shares, opposing_liquidity)
            <= proportional_payout(more, total_amount, market_shares, opposing_liquidity),
{
    let low = fewer * opposing_liquidity;
    let high = more * opposing_liquidity;
    assert(low <= high) by (nonlinear_arith)
        requires
            0 <= fewer <= more,
            0 <= opposing_liquidity,
            low == fewer * opposing_liquidity,
            high == more * opposing_liquidity,
    ;
    assert((2 * low + market_shares) / (2 * market_shares) <= (2 * high + market_shares) / (2
        * market_shares)) by (nonlinear_arith)
        requires
            low <= high,
            0 < market_shares,
    ;
}

/// Fees are not collected twice: after a collection a second one, with
/// nothing accrued in between, is refused with `InsufficientFunds`.
pub proof fn second_collection_is_refused(market: MarketV2, auth: Authorization)
    requires
        collect_fee_rejection(market, auth) is None,
    ensures
        collect_fee_rejection(market.drained(), auth) == Some(
            TriadProtocolError::InsufficientFunds,
        ),
        market.drained().claimable() == 0,
{
}

/// A market is resolved once: after it was given an outcome it has one and
/// is inactive, and every further resolution by an administrator, whatever
/// outcome it names, is refused with `MarketAlreadyResolved`.
pub proof fn second_resolution_is_refused(
    market: MarketV2,
    auth: Authorization,
    winning_direction: WinningDirection,
    again: Authorization,
    other_direction: WinningDirection,
)
    requires
        resolve_market_rejection(market, auth, winning_direction) is None,
        again.is_admin,
    ensures
        resolved_market(market, winning_direction).resolved(),
        !resolved_market(market, winning_direction).is_active,
        resolve_market_rejection(
            resolved_market(market, winning_direction),
            again,
            other_direction,
        ) == Some(TriadProtocolError::MarketAlreadyResolved),
{
}

/// No operation leaves a market inactive without an outcome, or active
/// with one: a well-formed market is active exactly as long as it is
/// unresolved.
pub proof fn market_is_active_until_resolved(
    operation: Operation,
    market: MarketV2,
    ledger: Ledger,
)
    requires
        market.wf(),
    ensures
        operation.market_after(market, ledger).is_active <==> !operation.market_after(
            market,
            ledger,
        ).resolved(),
{
    operation_keeps_market_valid(operation, market, ledger);
}

/// An accepted order starts trading: it is counted as open and adds to the
/// volume, so that the market has volume from then on.
pub proof fn open_starts_trading(
    market: MarketV2,
    ledger: Ledger,
    auth: Authorization,
    args: OpenOrderArgs,
    ts: i64,
)
    requires
        open_order_rejection(market, ledger, auth, args, ts) is None,
    ensures
        trading_begun(opened_market(market, args, ts)),
        opened_market(market, args, ts).opened_orders > 0,
        opened_market(market, args, ts).volume > 0,
{
    let exposure = open_exposure(market, args);
    let target = open_target(market, args);
    assert(exposure > 0) by (nonlinear_arith)
        requires
            exposure * 1_000_000 / target > 0,
            target >= 1,
    ;
}

/// Liquidity is added before trading only: once an order stands open
/// against a well-formed market or volume has passed through it, every
/// addition is refused, with `MarketInactive` while the market has no
/// outcome.
pub proof fn traded_market_takes_no_liquidity(
    market: MarketV2,
    auth: Authorization,
    addition: AddLiquidityArgs,
)
    requires
        market.wf(),
        trading_begun(market),
    ensures
        add_liquidity_rejection(market, auth, addition) is Some,
        auth.is_owner && !market.resolved() ==> add_liquidity_rejection(market, auth, addition)
            == Some(TriadProtocolError::MarketInactive),
{
}

/// A fresh market takes liquidity from its owner: the addition is owed
/// wherever the pool has room.
pub proof fn fresh_market_takes_liquidity(
    args: InitializeMarketArgs,
    authority: [u8; 32],
    mint: [u8; 32],
    bump: u8,
    ts: i64,
    auth: Authorization,
    addition: AddLiquidityArgs,
)
    requires
        auth.is_owner,
    ensures
        add_liquidity_rejection(
            initialized_market(args, authority, mint, bump, ts),
            auth,
            addition,
        ) == if INITIAL_POOL_LIQUIDITY + addition.amount > u64::MAX {
            Some(TriadProtocolError::ArithmeticFailure)
        } else {
            None::<TriadProtocolError>
        },
{
}

/// Volume never falls, so a market through which volume has passed takes
/// no liquidity ever after.
pub proof fn volume_never_falls(operation: Operation, market: MarketV2, ledger: Ledger)
    ensures
        operation.market_after(market, ledger).volume >= market.volume,
        market.volume > 0 ==> trading_begun(operation.market_after(market, ledger)),
{
}

} // verus!
