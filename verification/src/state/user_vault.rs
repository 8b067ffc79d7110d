//! A user's vault, created against a fee.

use vstd::prelude::*;

verus! {

/// What creating a vault costs.
pub const VAULT_CREATION_FEE: u64 = 20_000_000;

/// The prefix of the seeds of every user vault's address: the bytes of
/// `user_vault`.
pub const USER_VAULT_PREFIX_SEED: [u8; 10] = [117, 115, 101, 114, 95, 118, 97, 117, 108, 116];

#[derive(Clone, Copy, Debug, PartialEq, Eq)]
pub struct UserVault {
    pub bump: u8,
    /// Authority of the vault
    pub authority: [u8; 32],
    /// Total deposited
    pub deposited: u64,
    /// Total withdrawn
    pub withdrawn: u64,
    /// Net balance
    pub net_balance: u64,
}

#[derive(Clone, Copy, Debug, PartialEq, Eq, Structural)]
pub enum ErrorCode {
    /// Insufficient funds to pay the fee.
    InsufficientFunds,
}

/// A vault that was created, and the balances after the fee has passed.
#[derive(Clone, Copy, Debug, PartialEq, Eq)]
pub struct VaultCreated {
    pub vault: UserVault,
    pub user_balance: u64,
    pub recipient_balance: u64,
}

/// Creates the vault of the user `authority` and takes the fee for it from
/// the user's balance to the recipient's.
///
/// Refused with `InsufficientFunds` where the user's balance is below the
/// fee.
pub fn create_vault(user_balance: u64, recipient_balance: u64, authority: [u8; 32], bump: u8) -> (r:
    Result<VaultCreated, ErrorCode>)
    requires
        user_balance >= VAULT_CREATION_FEE ==> recipient_balance + VAULT_CREATION_FEE <= u64::MAX,
    ensures
        match r {
            Ok(created) => {
                &&& user_balance >= VAULT_CREATION_FEE
                &&& created.user_balance == user_balance - VAULT_CREATION_FEE
                &&& created.recipient_balance == recipient_balance + VAULT_CREATION_FEE
                &&& created.vault == (UserVault {
                    bump,
                    authority,
                    deposited: 0,
                    withdrawn: 0,
                    net_balance: 0,
                })
            },
            Err(e) => e == ErrorCode::InsufficientFunds && user_balance < VAULT_CREATION_FEE,
        },
{
    if user_balance < VAULT_CREATION_FEE {
        return Err(ErrorCode::InsufficientFunds);
    }
    Ok(
        VaultCreated {
            vault: UserVault { bump, authority, deposited: 0, withdrawn: 0, net_balance: 0 },
            user_balance: user_balance - VAULT_CREATION_FEE,
            recipient_balance: recipient_balance + VAULT_CREATION_FEE,
        },
    )
}

} // verus!
