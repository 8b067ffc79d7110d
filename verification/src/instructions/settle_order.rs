//! Settling an order once its market is resolved, under the rule of this
//! engine.

use vstd::prelude::*;
use crate::auth::Authorization;
use crate::errors::TriadProtocolError;
use crate::instructions::payout_order::{payout_order, payout_order_outcome, PayoutReceipt};
use crate::settlement::PayoutPolicy;
use crate::state::market_v2::MarketV2;
use crate::state::user_trade::UserTrade;

verus! {

/// Pays out the open order `order_id` of a resolved market and closes it.
///
/// A winner receives the principal and, of the losing pool, the part that
/// the order's shares are of all winning shares, rounded to the nearest
/// unit; any other order receives nothing. A refusal changes nothing.
pub fn settle_order(
    market: &mut MarketV2,
    user_trade: &mut UserTrade,
    auth: &Authorization,
    order_id: u64,
    ts: i64,
) -> (r: Result<PayoutReceipt, TriadProtocolError>)
    ensures
        payout_order_outcome(
            *old(market),
            old(user_trade)@,
            *auth,
            order_id,
            PayoutPolicy::ProportionalPool,
            ts,
            *final(market),
            final(user_trade)@,
            r,
        ),
        r is Err ==> *final(user_trade) == *old(user_trade),
        old(market).wf() ==> final(market).wf(),
        old(user_trade)@.wf() ==> final(user_trade)@.wf(),
{
    payout_order(market, user_trade, auth, order_id, PayoutPolicy::ProportionalPool, ts)
}

} // verus!
