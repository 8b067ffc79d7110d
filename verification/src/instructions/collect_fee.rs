//! Collecting a market's fees.

use vstd::prelude::*;
use crate::auth::Authorization;
use crate::errors::TriadProtocolError;
use crate::state::market_v2::MarketV2;

verus! {

/// Why a collection is refused, if it is.
pub open spec fn collect_fee_rejection(market: MarketV2, auth: Authorization) -> Option<
    TriadProtocolError,
> {
    if !auth.is_owner {
        Some(TriadProtocolError::Unauthorized)
    } else {
        market.claim_rejection()
    }
}

/// Draws both fee pools of the market empty for its owner and returns what
/// has to pass from the market's custody to the owner.
///
/// Where nothing has accrued since the last collection the call is refused
/// with `InsufficientFunds`. A refusal changes nothing.
pub fn collect_fee(market: &mut MarketV2, auth: &Authorization) -> (r: Result<
    u64,
    TriadProtocolError,
>)
    ensures
        match r {
            Ok(amount) => {
                &&& collect_fee_rejection(*old(market), *auth) is None
                &&& amount == old(market).claimable()
                &&& amount > 0
                &&& *final(market) == old(market).drained()
                &&& final(market).claimable() == 0
            },
            Err(e) => {
                &&& collect_fee_rejection(*old(market), *auth) == Some(e)
                &&& *final(market) == *old(market)
            },
        },
        old(market).wf() ==> final(market).wf(),
{
    if !auth.is_owner {
        return Err(TriadProtocolError::Unauthorized);
    }
    market.claim_fees()
}

} // verus!
