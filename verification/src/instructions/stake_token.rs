//! Staking tokens.

use vstd::prelude::*;
use crate::errors::TriadProtocolError;
use crate::math::add_or_fail;
use crate::state::stake::{StakeTokenArgs, StakeV2, StakeVault};
use crate::state::user::User;

verus! {

/// Why a stake of tokens is refused, if it is.
pub open spec fn stake_token_rejection(stake_vault: StakeVault, user: User, amount: u64) -> Option<
    TriadProtocolError,
> {
    if stake_vault.is_locked {
        Some(TriadProtocolError::StakeVaultLocked)
    } else if stake_vault.token_staked + amount > u64::MAX || user.staked + amount > u64::MAX {
        Some(TriadProtocolError::ArithmeticFailure)
    } else {
        None
    }
}

/// Stakes `args.amount` tokens of `mint` for the user `authority` and
/// returns the stake; the amount is what has to pass into the vault's
/// custody.
///
/// Refused with `StakeVaultLocked` while the vault is locked. A refusal
/// changes nothing.
pub fn stake_token(
    stake_vault: &mut StakeVault,
    user: &mut User,
    args: StakeTokenArgs,
    authority: [u8; 32],
    mint: [u8; 32],
    stake_vault_key: [u8; 32],
    bump: u8,
    now: i64,
) -> (r: Result<StakeV2, TriadProtocolError>)
    ensures
        match r {
            Ok(stake) => {
                &&& stake_token_rejection(*old(stake_vault), *old(user), args.amount) is None
                &&& stake == (StakeV2 {
                    bump,
                    authority,
                    init_ts: now,
                    withdraw_ts: 0,
                    claimed_ts: 0,
                    name: args.name,
                    mint,
                    boost: false,
                    stake_vault: stake_vault_key,
                    claimed: 0,
                    available: 0,
                    amount: args.amount,
                })
                &&& *final(stake_vault) == (StakeVault {
                    token_staked: (old(stake_vault).token_staked + args.amount) as u64,
                    ..*old(stake_vault)
                })
                &&& *final(user) == (User {
                    staked: (old(user).staked + args.amount) as u64,
                    ..*old(user)
                })
            },
            Err(e) => {
                &&& stake_token_rejection(*old(stake_vault), *old(user), args.amount) == Some(e)
                &&& *final(stake_vault) == *old(stake_vault)
                &&& *final(user) == *old(user)
            },
        },
{
    if stake_vault.is_locked {
        return Err(TriadProtocolError::StakeVaultLocked);
    }
    let vault_total: u64 = add_or_fail(stake_vault.token_staked, args.amount)?;
    let user_total: u64 = add_or_fail(user.staked, args.amount)?;
    stake_vault.token_staked = vault_total;
    user.staked = user_total;
    Ok(
        StakeV2 {
            bump,
            authority,
            init_ts: now,
            withdraw_ts: 0,
            claimed_ts: 0,
            name: args.name,
            mint,
            boost: false,
            stake_vault: stake_vault_key,
            claimed: 0,
            available: 0,
            amount: args.amount,
        },
    )
}

} // verus!
