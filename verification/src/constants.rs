//! The fixed scales and limits of the engine.

use vstd::prelude::*;

verus! {

/// The price that stands for certainty: prices are millionths.
pub const PRICE_SCALE: u64 = 1_000_000;

/// The lowest price an outcome can have.
pub const MIN_PRICE: u64 = 1;

/// The highest price an outcome can have.
pub const MAX_PRICE: u64 = 999_999;

/// The price both outcomes start at.
pub const INITIAL_PRICE: u64 = 500_000;

/// The liquidity each pool starts with.
pub const INITIAL_POOL_LIQUIDITY: u64 = 5_000_000_000;

/// The liquidity of both pools together at the start.
pub const INITIAL_MARKET_LIQUIDITY: u64 = 10_000_000_000;

/// The pool share assumed for a market that recorded no starting liquidity.
pub const FALLBACK_INITIAL_POOL_LIQUIDITY: u64 = 500_000_000;

/// The denominator of `fee_bps`: a fee rate of 100_000 would be the whole amount.
pub const FEE_SCALE: u64 = 100_000;

/// The fee rate a market starts with: 2.1 %.
pub const DEFAULT_FEE_BPS: u16 = 2100;

/// A price step covers `DAMPING_NUMERATOR / DAMPING_DENOMINATOR` of the gap
/// between the current price and the target.
pub const DAMPING_NUMERATOR: u64 = 100;

pub const DAMPING_DENOMINATOR: u64 = 102;

/// The NFT holders' pool receives one part in this many of every fee.
pub const HOLDERS_FEE_DIVISOR: u64 = 100;

/// The number of order slots in a user's ledger.
pub const ORDER_SLOTS: usize = 10;

} // verus!
