//! Opening an order.

use vstd::prelude::*;
use crate::auth::Authorization;
use crate::constants::PRICE_SCALE;
use crate::errors::TriadProtocolError;
use crate::events::{OrderUpdate, PriceUpdate};
use crate::fees::{fee_amount, fee_of, holders_part, operator_part, split_fee};
use crate::math::{add_or_fail, mul_div, mul_div_floor, mul_or_fail};
use crate::state::market_v2::{pool_ratio_price, ratio_price, MarketV2};
use crate::state::order::{OpenOrderArgs, Order, OrderDirection, OrderStatus, OrderType};
use crate::state::user_trade::{
    first_match, lemma_open_count_update, Ledger, SlotQuery, UserTrade,
};

verus! {

/// What opening an order leaves for the caller to do and to tell.
#[derive(Clone, Copy, Debug, PartialEq, Eq)]
pub struct OpenOrderReceipt {
    /// The order as it now stands in the ledger.
    pub order: OrderUpdate,
    /// The market's prices after the order.
    pub price: PriceUpdate,
    /// What has to pass from the user into the market's custody: the
    /// committed amount and the fee.
    pub transfer_amount: u64,
}

/// The fee on the order.
pub open spec fn open_fee(market: MarketV2, args: OpenOrderArgs) -> int {
    fee_of(args.amount as int, market.fee_bps as int)
}

/// What the user commits: the amount less the fee.
pub open spec fn open_net(market: MarketV2, args: OpenOrderArgs) -> int {
    args.amount - open_fee(market, args)
}

/// What the order is exposed to: the committed amount times the leverage.
pub open spec fn open_exposure(market: MarketV2, args: OpenOrderArgs) -> int {
    open_net(market, args) * Order::multiplier(args.leverage)
}

/// The price the order is entered at: the price the order's side would
/// have if its pool held the exposure too. It is also the target toward
/// which the market's own price takes its damped step.
pub open spec fn open_target(market: MarketV2, args: OpenOrderArgs) -> int {
    pool_ratio_price(
        market.liquidity_of(args.direction) + open_exposure(market, args),
        market.liquidity_of(args.direction.flipped()) as int,
    )
}

/// The shares the order acquires: its exposure at the entry price,
/// truncated toward zero.
pub open spec fn open_shares(market: MarketV2, args: OpenOrderArgs) -> int {
    mul_div(open_exposure(market, args), PRICE_SCALE as int, open_target(market, args))
}

/// Whether some total that the order adds to has no room for it.
pub open spec fn open_totals_overflow(market: MarketV2, ledger: Ledger, args: OpenOrderArgs) -> bool {
    let fee = open_fee(market, args);
    ||| market.liquidity_of(args.direction) + open_net(market, args) > u64::MAX
    ||| market.shares_of(args.direction) + open_shares(market, args) > u64::MAX
    ||| market.volume + open_exposure(market, args) > u64::MAX
    ||| market.opened_orders + 1 > u64::MAX
    ||| market.nft_holders_fee_available + holders_part(fee) > u64::MAX
    ||| market.market_fee_available + operator_part(fee) > u64::MAX
    ||| ledger.opened_orders + 1 > u64::MAX
    ||| ledger.total_deposits + open_net(market, args) > u64::MAX
}

/// Why the market refuses the order whatever the ledger holds, if it does.
/// The tests are made in this order and the first that fails decides.
pub open spec fn open_terms_rejection(
    market: MarketV2,
    auth: Authorization,
    args: OpenOrderArgs,
    ts: i64,
) -> Option<TriadProtocolError> {
    if !auth.is_owner {
        Some(TriadProtocolError::Unauthorized)
    } else if market.trading_rejection(ts) is Some {
        market.trading_rejection(ts)
    } else if market.price_of(args.direction) == 0 {
        Some(TriadProtocolError::InvalidPrice)
    } else if market.liquidity_of(args.direction) == 0 || market.liquidity_of(
        args.direction.flipped(),
    ) == 0 {
        Some(TriadProtocolError::InsufficientLiquidity)
    } else if open_exposure(market, args) > u64::MAX {
        Some(TriadProtocolError::ArithmeticFailure)
    } else if open_net(market, args) <= market.price_of(args.direction) {
        Some(TriadProtocolError::InsufficientFunds)
    } else if open_shares(market, args) > u64::MAX {
        Some(TriadProtocolError::ArithmeticFailure)
    } else if open_shares(market, args) == 0 {
        Some(TriadProtocolError::InsufficientFunds)
    } else {
        None
    }
}

/// Why an order is refused, if it is: by the market's terms, or for want of
/// a free slot, or because a total has no room for it, in this order.
pub open spec fn open_order_rejection(
    market: MarketV2,
    ledger: Ledger,
    auth: Authorization,
    args: OpenOrderArgs,
    ts: i64,
) -> Option<TriadProtocolError> {
    if open_terms_rejection(market, auth, args, ts) is Some {
        open_terms_rejection(market, auth, args, ts)
    } else if first_match(ledger.orders, SlotQuery::Free) is None {
        Some(TriadProtocolError::NoAvailableOrderSlot)
    } else if open_totals_overflow(market, ledger, args) {
        Some(TriadProtocolError::ArithmeticFailure)
    } else {
        None
    }
}

/// The order that is entered.
pub open spec fn opened_order(market: MarketV2, args: OpenOrderArgs, ts: i64) -> Order {
    Order {
        ts,
        order_id: market.next_order_id,
        market_id: market.market_id,
        status: OrderStatus::Open,
        price: open_target(market, args) as u64,
        total_amount: open_net(market, args) as u64,
        total_shares: open_shares(market, args) as u64,
        order_type: OrderType::Market,
        direction: args.direction,
        leverage: args.leverage,
        settled_pnl: 0,
    }
}

/// The market after the order: repriced with the committed amount in the
/// order's pool, and with the order counted in every total.
pub open spec fn opened_market(market: MarketV2, args: OpenOrderArgs, ts: i64) -> MarketV2 {
    let fee = open_fee(market, args);
    let shares = open_shares(market, args);
    let repriced = market.repriced(
        open_net(market, args) as u64,
        open_target(market, args) as u64,
        args.direction,
        true,
        ts,
    );
    MarketV2 {
        hype_shares: if args.direction == OrderDirection::Hype {
            (market.hype_shares + shares) as u64
        } else {
            market.hype_shares
        },
        flop_shares: if args.direction == OrderDirection::Flop {
            (market.flop_shares + shares) as u64
        } else {
            market.flop_shares
        },
        volume: (market.volume + open_exposure(market, args)) as u64,
        opened_orders: (market.opened_orders + 1) as u64,
        next_order_id: if market.next_order_id == u64::MAX {
            0u64
        } else {
            (market.next_order_id + 1) as u64
        },
        nft_holders_fee_available: (market.nft_holders_fee_available + holders_part(fee)) as u64,
        market_fee_available: (market.market_fee_available + operator_part(fee)) as u64,
        ..repriced
    }
}

/// The ledger after the order: the order stands in the first free slot.
pub open spec fn opened_ledger(market: MarketV2, ledger: Ledger, args: OpenOrderArgs, ts: i64) -> Ledger {
    let slot = first_match(ledger.orders, SlotQuery::Free).unwrap();
    Ledger {
        opened_orders: (ledger.opened_orders + 1) as u64,
        total_deposits: (ledger.total_deposits + open_net(market, args)) as u64,
        orders: ledger.orders.update(slot, opened_order(market, args, ts)),
        ..ledger
    }
}

/// What the caller is told and left to do.
pub open spec fn open_order_receipt(
    market: MarketV2,
    ledger: Ledger,
    args: OpenOrderArgs,
    ts: i64,
) -> OpenOrderReceipt {
    let order = opened_order(market, args, ts);
    OpenOrderReceipt {
        order: OrderUpdate {
            user: ledger.authority,
            market_id: order.market_id,
            order_id: order.order_id,
            direction: order.direction,
            order_type: order.order_type,
            order_status: order.status,
            price: order.price,
            total_shares: order.total_shares,
            total_amount: order.total_amount,
            comment: args.comment,
            refund_amount: None,
            timestamp: ts,
            is_question_winner: None,
            pnl: 0,
        },
        price: opened_market(market, args, ts).price_notice(args.direction, ts),
        transfer_amount: args.amount,
    }
}

/// Opens an order of `args.amount` on `args.direction`.
///
/// The fee is taken from the amount; what is left is committed, enters the
/// order's pool and, times the leverage, buys shares at the price that the
/// pools would then stand at; the market's own price takes one damped step
/// toward that price. The order takes the first slot of the ledger that holds
/// no open order. A refusal changes nothing.
pub fn open_order(
    market: &mut MarketV2,
    user_trade: &mut UserTrade,
    auth: &Authorization,
    args: OpenOrderArgs,
    ts: i64,
) -> (r: Result<OpenOrderReceipt, TriadProtocolError>)
    ensures
        match r {
            Ok(receipt) => {
                &&& open_order_rejection(*old(market), old(user_trade)@, *auth, args, ts) is None
                &&& *final(market) == opened_market(*old(market), args, ts)
                &&& final(user_trade)@ == opened_ledger(*old(market), old(user_trade)@, args, ts)
                &&& receipt == open_order_receipt(*old(market), old(user_trade)@, args, ts)
            },
            Err(e) => {
                &&& open_order_rejection(*old(market), old(user_trade)@, *auth, args, ts) == Some(e)
                &&& *final(market) == *old(market)
                &&& *final(user_trade) == *old(user_trade)
            },
        },
        r is Ok ==> final(market).prices_valid(),
        old(market).wf() ==> final(market).wf(),
        old(user_trade)@.wf() ==> final(user_trade)@.wf(),
{
    if !auth.is_owner {
        return Err(TriadProtocolError::Unauthorized);
    }
    market.check_trading(ts)?;
    let direction: OrderDirection = args.direction;
    let price: u64 = market.price(direction);
    let held: u64 = market.liquidity(direction);
    let other: u64 = market.liquidity(direction.opposite());
    if price == 0 {
        return Err(TriadProtocolError::InvalidPrice);
    }
    if held == 0 || other == 0 {
        return Err(TriadProtocolError::InsufficientLiquidity);
    }
    let fee: u64 = fee_amount(args.amount, market.fee_bps);
    let net: u64 = args.amount - fee;
    let multiplier: u64 = match args.leverage {
        Some(k) => k,
        None => 1,
    };
    let exposure: u64 = mul_or_fail(net, multiplier)?;
    if net <= price {
        return Err(TriadProtocolError::InsufficientFunds);
    }
    let target: u64 = ratio_price((held as u128) + (exposure as u128), other as u128);
    let shares: u64 = match mul_div_floor(exposure, PRICE_SCALE, target) {
        Some(shares) => shares,
        None => {
            return Err(TriadProtocolError::ArithmeticFailure);
        },
    };
    if shares == 0 {
        return Err(TriadProtocolError::InsufficientFunds);
    }
    let slot: usize = match user_trade.find_slot(SlotQuery::Free) {
        Some(slot) => slot,
        None => {
            return Err(TriadProtocolError::NoAvailableOrderSlot);
        },
    };
    let (holders_fee, operator_fee): (u64, u64) = split_fee(fee);
    add_or_fail(held, net)?;
    let side_shares: u64 = add_or_fail(market.shares(direction), shares)?;
    let volume: u64 = add_or_fail(market.volume, exposure)?;
    let market_open: u64 = add_or_fail(market.opened_orders, 1)?;
    let holders_pool: u64 = add_or_fail(market.nft_holders_fee_available, holders_fee)?;
    let operator_pool: u64 = add_or_fail(market.market_fee_available, operator_fee)?;
    let ledger_open: u64 = add_or_fail(user_trade.opened_orders, 1)?;
    let deposits: u64 = add_or_fail(user_trade.total_deposits, net)?;

    let order_id: u64 = market.next_order_id();
    let notice: PriceUpdate = match market.update_price(net, target, direction, true, ts) {
        Ok(notice) => notice,
        Err(e) => {
            proof {
                assert(false);
            }
            return Err(e);
        },
    };
    match direction {
        OrderDirection::Hype => {
            market.hype_shares = side_shares;
        },
        OrderDirection::Flop => {
            market.flop_shares = side_shares;
        },
    }
    market.volume = volume;
    market.opened_orders = market_open;
    market.nft_holders_fee_available = holders_pool;
    market.market_fee_available = operator_pool;

    let order = Order {
        ts,
        order_id,
        market_id: market.market_id,
        status: OrderStatus::Open,
        price: target,
        total_amount: net,
        total_shares: shares,
        order_type: OrderType::Market,
        direction,
        leverage: args.leverage,
        settled_pnl: 0,
    };
    proof {
        lemma_open_count_update(old(user_trade)@.orders, slot as int, order);
    }
    user_trade.orders.set(slot, order);
    user_trade.opened_orders = ledger_open;
    user_trade.total_deposits = deposits;
    assert(user_trade@.orders =~= opened_ledger(*old(market), old(user_trade)@, args, ts).orders);

    Ok(
        OpenOrderReceipt {
            order: OrderUpdate {
                user: user_trade.authority,
                market_id: order.market_id,
                order_id: order.order_id,
                direction: order.direction,
                order_type: order.order_type,
                order_status: order.status,
                price: order.price,
                total_shares: order.total_shares,
                total_amount: order.total_amount,
                comment: args.comment,
                refund_amount: None,
                timestamp: ts,
                is_question_winner: None,
                pnl: 0,
            },
            price: notice,
            transfer_amount: args.amount,
        },
    )
}

} // verus!
