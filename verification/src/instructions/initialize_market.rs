//! Creating a market.

use vstd::prelude::*;
use crate::auth::Authorization;
use crate::errors::TriadProtocolError;
use crate::state::market_v2::{InitializeMarketArgs, MarketV2};

verus! {

/// The market that `args` describe, as it stands when created at `ts`:
/// active, unresolved, both prices at one half, both pools at their
/// starting liquidity.
pub open spec fn initialized_market(
    args: InitializeMarketArgs,
    authority: [u8; 32],
    mint: [u8; 32],
    bump: u8,
    ts: i64,
) -> MarketV2 {
    MarketV2 {
        bump,
        authority,
        market_id: args.market_id,
        mint,
        market_start: args.start_time,
        market_end: args.end_time,
        question: args.question,
        update_ts: ts,
        ..MarketV2::initial()
    }
}

/// Creates a market. Only an administrator may.
pub fn initialize_market(
    auth: &Authorization,
    args: InitializeMarketArgs,
    authority: [u8; 32],
    mint: [u8; 32],
    bump: u8,
    ts: i64,
) -> (r: Result<MarketV2, TriadProtocolError>)
    ensures
        match r {
            Ok(market) => {
                &&& auth.is_admin
                &&& market == initialized_market(args, authority, mint, bump, ts)
                &&& market.wf()
            },
            Err(e) => e == TriadProtocolError::Unauthorized && !auth.is_admin,
        },
{
    if !auth.is_admin {
        return Err(TriadProtocolError::Unauthorized);
    }
    let mut market = MarketV2::default();
    market.bump = bump;
    market.authority = authority;
    market.market_id = args.market_id;
    market.mint = mint;
    market.market_start = args.start_time;
    market.market_end = args.end_time;
    market.question = args.question;
    market.update_ts = ts;
    Ok(market)
}

} // verus!
