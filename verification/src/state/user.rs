//! A user of the protocol.

use vstd::prelude::*;

verus! {

#[derive(Clone, Debug, PartialEq, Eq)]
pub struct User {
    /// When the user was created
    pub ts: i64,
    pub bump: u8,
    pub authority: [u8; 32],
    /// The user who referred this one
    pub referral: [u8; 32],
    /// The number of users this one referred
    pub referred: u64,
    pub name: String,
    pub swaps: u64,
    /// What the user has staked
    pub staked: u64,
    pub swaps_made: u64,
    pub first_swap: i64,
    /// The user's ledger
    pub user_trade: [u8; 32],
}

#[derive(Clone, Debug, PartialEq, Eq)]
pub struct CreateUserArgs {
    pub name: String,
}

} // verus!
