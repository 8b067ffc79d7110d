//! Fees: what an order pays, how it is split between the two pools, and
//! what a claimant may draw.

use vstd::prelude::*;
use crate::constants::{FEE_SCALE, HOLDERS_FEE_DIVISOR};
use crate::errors::TriadProtocolError;
use crate::math::lemma_product_fits;
use crate::state::market_v2::MarketV2;

verus! {

/// The fee on `amount` at the rate `fee_bps`, truncated toward zero.
pub open spec fn fee_of(amount: int, fee_bps: int) -> int {
    amount * fee_bps / (FEE_SCALE as int)
}

/// The part of a fee that goes to the NFT holders' pool: one hundredth,
/// truncated toward zero.
pub open spec fn holders_part(fee: int) -> int {
    fee / (HOLDERS_FEE_DIVISOR as int)
}

/// The part of a fee that goes to the market operator's pool: the rest.
pub open spec fn operator_part(fee: int) -> int {
    fee - holders_part(fee)
}

/// A fee rate is below the scale, so a fee is never more than the amount.
pub proof fn lemma_fee_within_amount(amount: u64, fee_bps: u16)
    ensures
        0 <= fee_of(amount as int, fee_bps as int) <= amount,
{
    assert(0 <= (amount * fee_bps) / 100_000 <= amount) by (nonlinear_arith)
        requires
            0 <= amount,
            0 <= fee_bps <= 65_535,
    ;
}

/// The fee on `amount`.
pub fn fee_amount(amount: u64, fee_bps: u16) -> (fee: u64)
    ensures
        fee == fee_of(amount as int, fee_bps as int),
        fee <= amount,
{
    proof {
        lemma_fee_within_amount(amount, fee_bps);
        lemma_product_fits(amount, fee_bps as u64);
    }
    let scale: u128 = FEE_SCALE as u128;
    let fee: u128 = (amount as u128) * (fee_bps as u128) / scale;
    fee as u64
}

/// Splits a fee into the holders' part and the operator's part.
pub fn split_fee(fee: u64) -> (parts: (u64, u64))
    ensures
        parts.0 == holders_part(fee as int),
        parts.1 == operator_part(fee as int),
        parts.0 + parts.1 == fee,
{
    let holders: u64 = fee / HOLDERS_FEE_DIVISOR;
    (holders, fee - holders)
}

impl MarketV2 {
    /// What the holders' pool has taken in and not paid out.
    pub open spec fn holders_claimable(self) -> int {
        self.nft_holders_fee_available - self.nft_holders_fee_claimed
    }

    /// What the operator's pool has taken in and not paid out.
    pub open spec fn operator_claimable(self) -> int {
        self.market_fee_available - self.market_fee_claimed
    }

    /// What a claim would draw from both pools together.
    pub open spec fn claimable(self) -> int {
        self.holders_claimable() + self.operator_claimable()
    }

    /// The market after both pools were drawn empty.
    pub open spec fn drained(self) -> MarketV2 {
        MarketV2 {
            nft_holders_fee_claimed: self.nft_holders_fee_available,
            market_fee_claimed: self.market_fee_available,
            ..self
        }
    }

    /// Why a claim is refused, if it is: the counters do not add up, or
    /// there is nothing to draw.
    pub open spec fn claim_rejection(self) -> Option<TriadProtocolError> {
        if self.holders_claimable() < 0 || self.operator_claimable() < 0 || self.claimable()
            > u64::MAX {
            Some(TriadProtocolError::ArithmeticFailure)
        } else if self.claimable() == 0 {
            Some(TriadProtocolError::InsufficientFunds)
        } else {
            None
        }
    }

    /// Draws both fee pools empty and returns what was drawn.
    pub fn claim_fees(&mut self) -> (r: Result<u64, TriadProtocolError>)
        ensures
            match r {
                Ok(amount) => {
                    &&& old(self).claim_rejection() is None
                    &&& amount == old(self).claimable()
                    &&& amount > 0
                    &&& *final(self) == old(self).drained()
                    &&& final(self).claimable() == 0
                },
                Err(e) => {
                    &&& old(self).claim_rejection() == Some(e)
                    &&& *final(self) == *old(self)
                },
            },
            old(self).wf() ==> final(self).wf(),
    {
        let operator: u64 = match self.market_fee_available.checked_sub(self.market_fee_claimed) {
            Some(v) => v,
            None => {
                return Err(TriadProtocolError::ArithmeticFailure);
            },
        };
        let holders: u64 = match self.nft_holders_fee_available.checked_sub(
            self.nft_holders_fee_claimed,
        ) {
            Some(v) => v,
            None => {
                return Err(TriadProtocolError::ArithmeticFailure);
            },
        };
        let amount: u64 = match operator.checked_add(holders) {
            Some(v) => v,
            None => {
                return Err(TriadProtocolError::ArithmeticFailure);
            },
        };
        if amount == 0 {
            return Err(TriadProtocolError::InsufficientFunds);
        }
        self.market_fee_claimed = self.market_fee_available;
        self.nft_holders_fee_claimed = self.nft_holders_fee_available;
        Ok(amount)
    }
}

} // verus!
