//! The records the engine keeps.

pub mod market;
pub mod market_v2;
pub mod nft;
pub mod order;
pub mod stake;
pub mod user;
pub mod user_trade;
pub mod user_vault;
pub mod vault;
