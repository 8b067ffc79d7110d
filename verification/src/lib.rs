//! Pricing, order ledger, settlement and fee accrual for a binary-outcome
//! prediction market, with every rule stated as a contract and proved.

pub mod auth;
pub mod constants;
pub mod errors;
pub mod events;
pub mod fees;
pub mod instructions;
pub mod keys;
pub mod laws;
pub mod math;
pub mod settlement;
pub mod state;
