//! Creating the vault of a ticker.

use vstd::prelude::*;
use crate::state::market_v2::blank_key;
use crate::state::vault::Vault;

verus! {

/// The vault of the ticker `ticker_name` at `ticker_address`, as it stands
/// when created at `init_ts`: named after the ticker, with every total at
/// zero.
pub fn create_vault(
    authority: [u8; 32],
    bump: u8,
    ticker_name: String,
    ticker_address: [u8; 32],
    token_account: [u8; 32],
    init_ts: i64,
) -> (vault: Vault)
    ensures
        vault.bump == bump,
        vault.authority == authority,
        vault.name == ticker_name,
        vault.ticker_address == ticker_address,
        vault.token_account == token_account,
        vault.total_deposits == 0,
        vault.total_withdraws == 0,
        vault.init_ts == init_ts,
        vault.net_deposits == 0,
        vault.net_withdraws == 0,
        vault.long_balance == 0,
        vault.short_balance == 0,
        vault.ticker == blank_key(),
{
    Vault {
        bump,
        authority,
        name: ticker_name,
        token_account,
        ticker_address,
        total_deposits: 0,
        total_withdraws: 0,
        init_ts,
        net_deposits: 0,
        net_withdraws: 0,
        long_balance: 0,
        short_balance: 0,
        ticker: [0u8; 32],
    }
}

} // verus!
