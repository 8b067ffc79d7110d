//! Creating a user.

use vstd::prelude::*;
use crate::state::market_v2::blank_key;
use crate::state::user::{CreateUserArgs, User};

verus! {

/// Creates the user `authority`, referred by the user `referral`, and
/// counts the referral.
pub fn create_user(
    referral: &mut User,
    args: CreateUserArgs,
    authority: [u8; 32],
    referral_key: [u8; 32],
    bump: u8,
    ts: i64,
) -> (user: User)
    requires
        old(referral).referred < u64::MAX,
    ensures
        user.ts == ts,
        user.bump == bump,
        user.authority == authority,
        user.referral == referral_key,
        user.referred == 0,
        user.name == args.name,
        user.swaps == 0,
        user.staked == 0,
        user.swaps_made == 0,
        user.first_swap == 0,
        user.user_trade == blank_key(),
        *final(referral) == (User { referred: (old(referral).referred + 1) as u64, ..*old(referral) }),
{
    referral.referred = referral.referred + 1;
    User {
        ts,
        bump,
        authority,
        referral: referral_key,
        referred: 0,
        name: args.name,
        swaps: 0,
        staked: 0,
        swaps_made: 0,
        first_swap: 0,
        user_trade: [0u8; 32],
    }
}

} // verus!
