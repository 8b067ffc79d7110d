//! Stakes and the vault that holds them.

use vstd::prelude::*;

verus! {

/// The vault that holds what is staked.
#[derive(Clone, Debug, PartialEq, Eq)]
pub struct StakeVault {
    pub bump: u8,
    pub name: String,
    /// While locked the vault takes no stake
    pub is_locked: bool,
    /// Tokens staked in all
    pub token_staked: u64,
    /// NFTs staked in all
    pub nft_staked: u64,
}

/// A stake of tokens.
#[derive(Clone, Debug, PartialEq, Eq)]
pub struct StakeV2 {
    pub bump: u8,
    pub authority: [u8; 32],
    pub init_ts: i64,
    pub withdraw_ts: i64,
    pub claimed_ts: i64,
    pub name: String,
    pub mint: [u8; 32],
    pub boost: bool,
    pub stake_vault: [u8; 32],
    pub claimed: u64,
    pub available: u64,
    pub amount: u64,
}

/// A stake of an NFT or, in its first form, of tokens.
#[derive(Clone, Debug, PartialEq, Eq)]
pub struct Stake {
    pub bump: u8,
    pub authority: [u8; 32],
    pub init_ts: i64,
    /// The stake can be withdrawn from this time on
    pub withdraw_ts: i64,
    pub is_locked: bool,
    pub name: String,
    pub collections: String,
    pub rarity: String,
    pub from_ata: [u8; 32],
    pub mint: [u8; 32],
    pub stake_vault: [u8; 32],
    pub amount: u64,
}

#[derive(Clone, Debug, PartialEq, Eq)]
pub struct StakeTokenArgs {
    pub name: String,
    pub amount: u64,
    pub stake_vault: String,
}

#[derive(Clone, Debug, PartialEq, Eq)]
pub struct StakeNFTArgs {
    pub name: String,
    pub collections: String,
    pub rarity: String,
}

} // verus!
