//! Adding liquidity to a pool.

use vstd::prelude::*;
use crate::auth::Authorization;
use crate::errors::TriadProtocolError;
use crate::math::add_or_fail;
use crate::state::market_v2::{AddLiquidityArgs, MarketV2, WinningDirection};
use crate::state::order::OrderDirection;

verus! {

/// Whether the market has been traded on: an order stands open against
/// it, or volume has passed through it.
pub open spec fn trading_begun(market: MarketV2) -> bool {
    market.opened_orders > 0 || market.volume > 0
}

/// Why an addition is refused, if it is. The tests are made in this order
/// and the first that fails decides: the caller does not own the market,
/// the market has an outcome, it is active and has been traded on, or the
/// pool has no room.
pub open spec fn add_liquidity_rejection(
    market: MarketV2,
    auth: Authorization,
    args: AddLiquidityArgs,
) -> Option<TriadProtocolError> {
    if !auth.is_owner {
        Some(TriadProtocolError::Unauthorized)
    } else if market.resolved() {
        Some(TriadProtocolError::MarketAlreadyResolved)
    } else if market.is_active && trading_begun(market) {
        Some(TriadProtocolError::MarketInactive)
    } else if market.liquidity_of(args.direction) + args.amount > u64::MAX {
        Some(TriadProtocolError::ArithmeticFailure)
    } else {
        None
    }
}

/// The market with `args.amount` more in the pool of `args.direction`.
pub open spec fn funded_market(market: MarketV2, args: AddLiquidityArgs) -> MarketV2 {
    match args.direction {
        OrderDirection::Hype => MarketV2 {
            hype_liquidity: (market.hype_liquidity + args.amount) as u64,
            ..market
        },
        OrderDirection::Flop => MarketV2 {
            flop_liquidity: (market.flop_liquidity + args.amount) as u64,
            ..market
        },
    }
}

/// Adds `args.amount` to one pool of a market before it is traded on, and
/// returns what has to pass from the caller into the market's custody.
///
/// Only the market's owner may add. An active market takes liquidity until
/// the first order is opened against it: from then on its pools move by
/// trades alone, and the addition is refused with `MarketInactive`. From
/// resolution on the pools are frozen, and it is refused with
/// `MarketAlreadyResolved`. A refusal changes nothing.
pub fn add_liquidity(market: &mut MarketV2, auth: &Authorization, args: AddLiquidityArgs) -> (r:
    Result<u64, TriadProtocolError>)
    ensures
        match r {
            Ok(amount) => {
                &&& add_liquidity_rejection(*old(market), *auth, args) is None
                &&& *final(market) == funded_market(*old(market), args)
                &&& amount == args.amount
            },
            Err(e) => {
                &&& add_liquidity_rejection(*old(market), *auth, args) == Some(e)
                &&& *final(market) == *old(market)
            },
        },
        old(market).wf() ==> final(market).wf(),
{
    if !auth.is_owner {
        return Err(TriadProtocolError::Unauthorized);
    }
    if market.winning_direction != WinningDirection::Unresolved {
        return Err(TriadProtocolError::MarketAlreadyResolved);
    }
    if market.is_active && (market.opened_orders > 0 || market.volume > 0) {
        return Err(TriadProtocolError::MarketInactive);
    }
    let pool: u64 = add_or_fail(market.liquidity(args.direction), args.amount)?;
    match args.direction {
        OrderDirection::Hype => {
            market.hype_liquidity = pool;
        },
        OrderDirection::Flop => {
            market.flop_liquidity = pool;
        },
    }
    Ok(args.amount)
}

} // verus!
