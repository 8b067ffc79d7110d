//! A vault and the seeds its address is derived from.

use vstd::prelude::*;

verus! {

#[derive(Clone, Debug, PartialEq, Eq)]
pub struct Vault {
    /// The bump for the vault's address
    pub bump: u8,
    /// authority for the vault
    pub authority: [u8; 32],
    /// name of the vault
    pub name: String,
    /// token account for the vault
    pub token_account: [u8; 32],
    /// ticker address
    pub ticker_address: [u8; 32],
    /// lifetime total deposits
    pub total_deposits: u64,
    /// lifetime total withdraws
    pub total_withdraws: u64,
    /// timestamp vault initialized
    pub init_ts: i64,
    /// lifetime net deposits
    pub net_deposits: i64,
    /// lifetime net withdraws
    pub net_withdraws: i64,
    /// Long bet balance
    pub long_balance: u64,
    /// Short bet balance
    pub short_balance: u64,
    /// Ticker address
    pub ticker: [u8; 32],
}

#[derive(Clone, Copy, Debug, PartialEq, Eq)]
pub struct DepositVaultArgs {
    pub amount: u64,
    pub is_long: bool,
}

/// The prefix of every vault's seeds: the bytes of `vault`.
pub const VAULT_PREFIX: [u8; 5] = [118, 97, 117, 108, 116];

/// The one byte of a `u8`, seen as a slice.
///
/// Trusted: this is `bytemuck::bytes_of` at the type `u8`. It hands back
/// the memory of its argument as bytes, as many as the type is wide; for a
/// `u8` that is one byte, the value itself.
#[verifier::external_body]
fn byte_as_slice<'a>(byte: &'a u8) -> (bytes: &'a [u8])
    ensures
        bytes@ == seq![*byte],
{
    bytemuck::bytes_of(byte)
}

impl Vault {
    /// The three seeds of a vault's address: the fixed prefix, the vault's
    /// name, and the bump as one byte.
    pub fn get_vault_signer_seeds<'a>(name: &'a [u8], bump: &'a u8) -> (seeds: [&'a [u8]; 3])
        ensures
            seeds@.len() == 3,
            seeds@[0]@ == VAULT_PREFIX@,
            seeds@[1]@ == name@,
            seeds@[2]@ == seq![*bump],
    {
        let prefix: &'static [u8] = &VAULT_PREFIX;
        [prefix, name, byte_as_slice(bump)]
    }
}

} // verus!
