//! Withdrawing a stake.

use vstd::prelude::*;
use crate::errors::TriadProtocolError;
use crate::keys::{decoded_key, key_matches, matches_written, same_key};
use crate::math::sub_or_fail;
use crate::state::stake::{Stake, StakeVault};

verus! {

/// What leaves the vault when a stake is withdrawn.
#[derive(Clone, Copy, Debug, PartialEq, Eq)]
pub struct StakeWithdrawal {
    /// What has to pass from the vault's custody to the staker: the staked
    /// tokens, or the one staked NFT.
    pub amount: u64,
    /// Whether the vault's account for the NFT is to be closed: it is for
    /// an NFT, not for tokens.
    pub close_account: bool,
}

/// Why a withdrawal is refused before the kind of the stake is looked at,
/// if it is: the stake is not of `mint`, or its time has not come.
pub open spec fn withdraw_stake_bar(stake: Stake, mint: [u8; 32], now: i64) -> Option<
    TriadProtocolError,
> {
    if stake.mint@ != mint@ {
        Some(TriadProtocolError::Unauthorized)
    } else if stake.withdraw_ts > now {
        Some(TriadProtocolError::StakeLocked)
    } else {
        None
    }
}

/// Why a withdrawal is refused, if it is. The tests are made in this order
/// and the first that fails decides.
pub open spec fn withdraw_stake_rejection(
    stake: Stake,
    stake_vault: StakeVault,
    mint: [u8; 32],
    is_token_stake: bool,
    now: i64,
) -> Option<TriadProtocolError> {
    if withdraw_stake_bar(stake, mint, now) is Some {
        withdraw_stake_bar(stake, mint, now)
    } else if is_token_stake && stake_vault.token_staked < stake.amount {
        Some(TriadProtocolError::ArithmeticFailure)
    } else if !is_token_stake && stake_vault.nft_staked == 0 {
        Some(TriadProtocolError::ArithmeticFailure)
    } else {
        None
    }
}

/// What a withdrawal does: where it is accepted, a stake of tokens gives
/// back its amount and any other stake one NFT, and the vault counts that
/// much less; where it is refused, nothing changes.
pub open spec fn withdraw_stake_outcome(
    stake: Stake,
    stake_vault: StakeVault,
    mint: [u8; 32],
    is_token_stake: bool,
    now: i64,
    vault_after: StakeVault,
    r: Result<StakeWithdrawal, TriadProtocolError>,
) -> bool {
    match r {
        Ok(withdrawal) => {
            &&& withdraw_stake_rejection(stake, stake_vault, mint, is_token_stake, now) is None
            &&& if is_token_stake {
                &&& withdrawal == (StakeWithdrawal { amount: stake.amount, close_account: false })
                &&& vault_after == (StakeVault {
                    token_staked: (stake_vault.token_staked - stake.amount) as u64,
                    ..stake_vault
                })
            } else {
                &&& withdrawal == (StakeWithdrawal { amount: 1, close_account: true })
                &&& vault_after == (StakeVault {
                    nft_staked: (stake_vault.nft_staked - 1) as u64,
                    ..stake_vault
                })
            }
        },
        Err(e) => {
            &&& withdraw_stake_rejection(stake, stake_vault, mint, is_token_stake, now) == Some(e)
            &&& vault_after == stake_vault
        },
    }
}

/// Whether `stake` is a stake of tokens: whether its mint is the key that
/// `token_mint` writes in base 58. `None` where `token_mint` writes no key.
pub fn is_token_stake(stake: &Stake, token_mint: &str) -> (r: Option<bool>)
    ensures
        r == matches_written(stake.mint, decoded_key(token_mint@)),
{
    key_matches(&stake.mint, token_mint)
}

/// Withdraws `stake` from the vault, given whether it is a stake of
/// tokens.
///
/// The stake must be of `mint` and its time of withdrawal must have come.
/// A refusal changes nothing.
pub fn withdraw_stake(
    stake: &Stake,
    stake_vault: &mut StakeVault,
    mint: &[u8; 32],
    is_token_stake: bool,
    now: i64,
) -> (r: Result<StakeWithdrawal, TriadProtocolError>)
    ensures
        withdraw_stake_outcome(
            *stake,
            *old(stake_vault),
            *mint,
            is_token_stake,
            now,
            *final(stake_vault),
            r,
        ),
{
    if !same_key(&stake.mint, mint) {
        return Err(TriadProtocolError::Unauthorized);
    }
    if stake.withdraw_ts > now {
        return Err(TriadProtocolError::StakeLocked);
    }
    if is_token_stake {
        let left: u64 = sub_or_fail(stake_vault.token_staked, stake.amount)?;
        stake_vault.token_staked = left;
        Ok(StakeWithdrawal { amount: stake.amount, close_account: false })
    } else {
        let left: u64 = sub_or_fail(stake_vault.nft_staked, 1)?;
        stake_vault.nft_staked = left;
        Ok(StakeWithdrawal { amount: 1, close_account: true })
    }
}

/// Withdraws `stake` from the vault, telling a stake of tokens by the
/// text of the tokens' mint.
///
/// The stake must be of `mint` and its time of withdrawal must have come;
/// only then is `token_mint` read. `None`, with nothing changed, where it
/// is read and writes no key.
pub fn withdraw_stake_by_mint_text(
    stake: &Stake,
    stake_vault: &mut StakeVault,
    mint: &[u8; 32],
    token_mint: &str,
    now: i64,
) -> (r: Option<Result<StakeWithdrawal, TriadProtocolError>>)
    ensures
        match withdraw_stake_bar(*stake, *mint, now) {
            Some(e) => {
                &&& r == Some(Err::<StakeWithdrawal, TriadProtocolError>(e))
                &&& *final(stake_vault) == *old(stake_vault)
            },
            None => match matches_written(stake.mint, decoded_key(token_mint@)) {
                None => {
                    &&& r is None
                    &&& *final(stake_vault) == *old(stake_vault)
                },
                Some(of_tokens) => {
                    &&& r matches Some(outcome)
                    &&& withdraw_stake_outcome(
                        *stake,
                        *old(stake_vault),
                        *mint,
                        of_tokens,
                        now,
                        *final(stake_vault),
                        outcome,
                    )
                },
            },
        },
{
    if !same_key(&stake.mint, mint) {
        return Some(Err(TriadProtocolError::Unauthorized));
    }
    if stake.withdraw_ts > now {
        return Some(Err(TriadProtocolError::StakeLocked));
    }
    match is_token_stake(stake, token_mint) {
        None => None,
        Some(of_tokens) => Some(withdraw_stake(stake, stake_vault, mint, of_tokens, now)),
    }
}

} // verus!
