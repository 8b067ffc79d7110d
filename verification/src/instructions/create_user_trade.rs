//! Creating a user's ledger.

use vstd::prelude::*;
use crate::auth::Authorization;
use crate::constants::ORDER_SLOTS;
use crate::errors::TriadProtocolError;
use crate::state::order::Order;
use crate::state::user_trade::UserTrade;

verus! {

/// Creates the ledger of the user `authority`: ten empty slots and totals
/// of zero. Only the user may.
pub fn create_user_trade(auth: &Authorization, authority: [u8; 32], bump: u8) -> (r: Result<
    UserTrade,
    TriadProtocolError,
>)
    ensures
        match r {
            Ok(ledger) => {
                &&& auth.is_owner
                &&& ledger@.wf()
                &&& ledger@.capacity() == ORDER_SLOTS
                &&& ledger.bump == bump
                &&& ledger.authority == authority
                &&& ledger.total_deposits == 0
                &&& ledger.total_withdraws == 0
                &&& ledger.opened_orders == 0
                &&& forall|j: int| 0 <= j < ORDER_SLOTS ==> ledger.orders@[j] == Order::empty()
            },
            Err(e) => e == TriadProtocolError::Unauthorized && !auth.is_owner,
        },
{
    if !auth.is_owner {
        return Err(TriadProtocolError::Unauthorized);
    }
    Ok(UserTrade::new(authority, bump))
}

} // verus!
