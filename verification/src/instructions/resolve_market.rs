//! Resolving a market.

use vstd::prelude::*;
use crate::auth::Authorization;
use crate::errors::TriadProtocolError;
use crate::events::MarketUpdate;
use crate::state::market_v2::{MarketV2, WinningDirection};

verus! {

/// Why a resolution is refused, if it is. The tests are made in this order
/// and the first that fails decides: the caller is no administrator, the
/// market has an outcome already, or no outcome is given.
pub open spec fn resolve_market_rejection(
    market: MarketV2,
    auth: Authorization,
    winning_direction: WinningDirection,
) -> Option<TriadProtocolError> {
    if !auth.is_admin {
        Some(TriadProtocolError::Unauthorized)
    } else if market.resolved() {
        Some(TriadProtocolError::MarketAlreadyResolved)
    } else if winning_direction == WinningDirection::Unresolved {
        Some(TriadProtocolError::InvalidPosition)
    } else {
        None
    }
}

/// The market after it was resolved: inactive, with the outcome recorded.
/// Pools, shares and prices stand as they stood.
pub open spec fn resolved_market(market: MarketV2, winning_direction: WinningDirection) -> MarketV2 {
    MarketV2 { is_active: false, winning_direction, ..market }
}

/// The market's final figures.
pub open spec fn market_notice(market: MarketV2, ts: i64) -> MarketUpdate {
    MarketUpdate {
        market_id: market.market_id,
        question: market.question,
        start_time: market.market_start,
        end_time: market.market_end,
        hype_liquidity: market.hype_liquidity,
        flop_liquidity: market.flop_liquidity,
        winning_direction: market.winning_direction,
        final_hype_price: market.hype_price,
        final_flop_price: market.flop_price,
        timestamp: ts,
        total_hype_shares: market.hype_shares,
        total_flop_shares: market.flop_shares,
    }
}

/// Ends trading on the market and records the outcome.
///
/// Only an administrator may do so, only with an outcome, and only once: a
/// market that has an outcome keeps it. A refusal changes nothing.
pub fn resolve_market(
    market: &mut MarketV2,
    auth: &Authorization,
    winning_direction: WinningDirection,
    ts: i64,
) -> (r: Result<MarketUpdate, TriadProtocolError>)
    ensures
        match r {
            Ok(notice) => {
                &&& resolve_market_rejection(*old(market), *auth, winning_direction) is None
                &&& *final(market) == resolved_market(*old(market), winning_direction)
                &&& notice == market_notice(*final(market), ts)
                &&& !final(market).is_active
                &&& final(market).resolved()
            },
            Err(e) => {
                &&& resolve_market_rejection(*old(market), *auth, winning_direction) == Some(e)
                &&& *final(market) == *old(market)
            },
        },
        old(market).wf() ==> final(market).wf(),
{
    if !auth.is_admin {
        return Err(TriadProtocolError::Unauthorized);
    }
    if market.winning_direction != WinningDirection::Unresolved {
        return Err(TriadProtocolError::MarketAlreadyResolved);
    }
    if winning_direction == WinningDirection::Unresolved {
        return Err(TriadProtocolError::InvalidPosition);
    }
    market.is_active = false;
    market.winning_direction = winning_direction;
    Ok(
        MarketUpdate {
            market_id: market.market_id,
            question: market.question,
            start_time: market.market_start,
            end_time: market.market_end,
            hype_liquidity: market.hype_liquidity,
            flop_liquidity: market.flop_liquidity,
            winning_direction: market.winning_direction,
            final_hype_price: market.hype_price,
            final_flop_price: market.flop_price,
            timestamp: ts,
            total_hype_shares: market.hype_shares,
            total_flop_shares: market.flop_shares,
        },
    )
}

} // verus!
