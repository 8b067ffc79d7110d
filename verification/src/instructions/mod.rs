//! The operations of the engine. Each is one atomic step: it either takes
//! effect as a whole or reports why not and changes nothing.

pub mod add_liquidity;
pub mod burn_transfer;
pub mod close_order;
pub mod collect_fee;
pub mod create_collection;
pub mod create_user;
pub mod create_user_trade;
pub mod initialize_market;
pub mod mint_ticket;
pub mod open_order;
pub mod payout_order;
pub mod resolve_market;
pub mod settle_order;
pub mod stake_nft;
pub mod stake_token;
pub mod vault_create;
pub mod vote;
pub mod withdraw_stake;
