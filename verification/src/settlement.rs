//! What a resolved market owes an order.
//!
//! Three rules are offered. `ProportionalPool` is the rule of this engine:
//! a winner receives the principal back plus the part of the losing pool
//! that matches the order's part of all winning shares. The other two are
//! alternates for markets configured to use them. Every rule rounds to the
//! nearest unit, halves up. An order that backed the losing outcome is owed
//! nothing under any rule.

use vstd::prelude::*;
use crate::constants::FALLBACK_INITIAL_POOL_LIQUIDITY;
use crate::errors::TriadProtocolError;
use crate::math::{lemma_product_fits, mul_div_nearest, mul_div_round};
use crate::state::market_v2::{MarketV2, WinningDirection};
use crate::state::order::Order;

verus! {

/// The rule by which a winner is paid.
#[derive(Clone, Copy, Debug, PartialEq, Eq, Structural)]
pub enum PayoutPolicy {
    /// Principal plus a proportional part of the losing pool.
    ProportionalPool,
    /// The shares, blended toward the principal where the losing pool is
    /// smaller than the winning shares.
    MedianBlend,
    /// One unit per share where the losing pool's gains cover all winning
    /// shares; otherwise principal plus a proportional part of those gains,
    /// and never more than the shares.
    OneToOneCapped,
}

/// Whether the proportional rule has an answer: the market has winning
/// shares and the order holds no more of them than there are.
pub open spec fn proportional_applies(shares: int, market_shares: int) -> bool {
    0 < market_shares && shares <= market_shares
}

/// The part of the losing pool that `shares` out of `market_shares` receive.
pub open spec fn proportional_bonus(shares: int, market_shares: int, opposing_liquidity: int) -> int {
    mul_div_round(shares, opposing_liquidity, market_shares)
}

/// What the proportional rule pays a winner.
pub open spec fn proportional_payout(
    shares: int,
    total_amount: int,
    market_shares: int,
    opposing_liquidity: int,
) -> int {
    proportional_bonus(shares, market_shares, opposing_liquidity) + total_amount
}

/// A winner's part of the losing pool is never more than the pool.
pub proof fn lemma_bonus_within_pool(shares: int, market_shares: int, opposing_liquidity: int)
    requires
        0 <= shares <= market_shares,
        0 < market_shares,
        0 <= opposing_liquidity,
    ensures
        0 <= proportional_bonus(shares, market_shares, opposing_liquidity) <= opposing_liquidity,
{
    let n = shares * opposing_liquidity;
    assert(0 <= n <= market_shares * opposing_liquidity) by (nonlinear_arith)
        requires
            0 <= shares <= market_shares,
            0 <= opposing_liquidity,
            n == shares * opposing_liquidity,
    ;
    assert(0 <= (2 * n + market_shares) / (2 * market_shares) <= opposing_liquidity)
        by (nonlinear_arith)
        requires
            0 <= n <= market_shares * opposing_liquidity,
            0 < market_shares,
    ;
}

/// The payout of a winner under the proportional rule.
///
/// `InvalidPosition` where the rule has no answer; `ArithmeticFailure` where
/// the payout does not fit in 64 bits.
pub fn payout_proportional(
    shares: u64,
    total_amount: u64,
    market_shares: u64,
    opposing_liquidity: u64,
) -> (r: Result<u64, TriadProtocolError>)
    ensures
        match r {
            Ok(payout) => {
                &&& proportional_applies(shares as int, market_shares as int)
                &&& payout == proportional_payout(
                    shares as int,
                    total_amount as int,
                    market_shares as int,
                    opposing_liquidity as int,
                )
                &&& total_amount <= payout <= total_amount + opposing_liquidity
            },
            Err(e) => if proportional_applies(shares as int, market_shares as int) {
                &&& e == TriadProtocolError::ArithmeticFailure
                &&& proportional_payout(
                    shares as int,
                    total_amount as int,
                    market_shares as int,
                    opposing_liquidity as int,
                ) > u64::MAX
            } else {
                e == TriadProtocolError::InvalidPosition
            },
        },
{
    if market_shares == 0 || shares > market_shares {
        return Err(TriadProtocolError::InvalidPosition);
    }
    proof {
        lemma_bonus_within_pool(shares as int, market_shares as int, opposing_liquidity as int);
    }
    match mul_div_nearest(shares, opposing_liquidity, market_shares) {
        Some(bonus) => match bonus.checked_add(total_amount) {
            Some(payout) => Ok(payout),
            None => Err(TriadProtocolError::ArithmeticFailure),
        },
        None => Err(TriadProtocolError::ArithmeticFailure),
    }
}

/// What the blended rule pays a winner: the shares where the losing pool
/// covers all winning shares; otherwise the principal plus the part
/// `opposing_liquidity / market_shares` of what the shares exceed it by.
pub open spec fn blended_payout(
    shares: int,
    total_amount: int,
    market_shares: int,
    opposing_liquidity: int,
) -> int {
    if market_shares <= opposing_liquidity {
        shares
    } else {
        (2 * (shares * opposing_liquidity + total_amount * (market_shares - opposing_liquidity))
            + market_shares) / (2 * market_shares)
    }
}

/// The blended payout where the shares are worth at least the principal.
proof fn lemma_blend_above(s: int, a: int, m: int, l: int)
    requires
        0 <= a <= s,
        0 <= l < m,
    ensures
        blended_payout(s, a, m, l) == a + mul_div_round(s - a, l, m),
        0 <= mul_div_round(s - a, l, m) <= s - a,
{
    let n = (s - a) * l;
    assert(0 <= n <= (s - a) * m) by (nonlinear_arith)
        requires
            0 <= s - a,
            0 <= l < m,
            n == (s - a) * l,
    ;
    assert(s * l + a * (m - l) == a * m + n) by (nonlinear_arith)
        requires
            n == (s - a) * l,
    ;
    assert((2 * (a * m + n) + m) / (2 * m) == a + (2 * n + m) / (2 * m)) by (nonlinear_arith)
        requires
            0 < m,
            0 <= n,
    ;
    assert(0 <= (2 * n + m) / (2 * m) <= s - a) by (nonlinear_arith)
        requires
            0 <= n <= (s - a) * m,
            0 < m,
    ;
}

/// The blended payout where the principal exceeds the worth of the shares.
proof fn lemma_blend_below(s: int, a: int, m: int, l: int)
    requires
        0 <= s < a,
        0 <= l < m,
    ensures
        blended_payout(s, a, m, l) == a - (2 * ((a - s) * l) + m - 1) / (2 * m),
        0 <= (2 * ((a - s) * l) + m - 1) / (2 * m) <= a - s,
{
    let n = (a - s) * l;
    let c = (2 * n + m - 1) / (2 * m);
    assert(0 <= n <= (a - s) * m) by (nonlinear_arith)
        requires
            0 <= a - s,
            0 <= l < m,
            n == (a - s) * l,
    ;
    assert(s * l + a * (m - l) == a * m - n) by (nonlinear_arith)
        requires
            n == (a - s) * l,
    ;
    assert(2 * m * c <= 2 * n + m - 1 < 2 * m * c + 2 * m && 0 <= c <= a - s) by (nonlinear_arith)
        requires
            c == (2 * n + m - 1) / (2 * m),
            0 < m,
            0 <= n <= (a - s) * m,
    ;
    assert((2 * (a * m - n) + m) / (2 * m) == a - c) by (nonlinear_arith)
        requires
            2 * m * c <= 2 * n + m - 1 < 2 * m * c + 2 * m,
            0 < m,
    ;
}

/// `(2n + d - 1) / 2d` is truncation plus one exactly when the remainder
/// is more than half the divisor.
proof fn lemma_half_down(n: int, d: int)
    requires
        0 <= n,
        0 < d,
    ensures
        (2 * n + d - 1) / (2 * d) == n / d + if 2 * (n % d) > d { 1int } else { 0int },
{
    let q = n / d;
    let r = n % d;
    assert(n == q * d + r && 0 <= r < d) by (nonlinear_arith)
        requires
            q == n / d,
            r == n % d,
            0 < d,
    ;
    if 2 * r > d {
        assert((2 * n + d - 1) / (2 * d) == q + 1) by (nonlinear_arith)
            requires
                n == q * d + r,
                0 <= r < d,
                2 * r > d,
                0 < d,
        ;
    } else {
        assert((2 * n + d - 1) / (2 * d) == q) by (nonlinear_arith)
            requires
                n == q * d + r,
                0 <= r < d,
                2 * r <= d,
                0 < d,
        ;
    }
}

/// The payout of a winner under the blended rule. It lies between the
/// principal and the shares, whichever order they stand in.
pub fn payout_blended(
    shares: u64,
    total_amount: u64,
    market_shares: u64,
    opposing_liquidity: u64,
) -> (payout: u64)
    ensures
        payout == blended_payout(
            shares as int,
            total_amount as int,
            market_shares as int,
            opposing_liquidity as int,
        ),
        total_amount <= shares ==> total_amount <= payout <= shares,
        shares <= total_amount ==> shares <= payout <= total_amount,
{
    if market_shares <= opposing_liquidity {
        return shares;
    }
    if shares >= total_amount {
        proof {
            lemma_blend_above(
                shares as int,
                total_amount as int,
                market_shares as int,
                opposing_liquidity as int,
            );
        }
        match mul_div_nearest(shares - total_amount, opposing_liquidity, market_shares) {
            Some(gain) => total_amount + gain,
            None => {
                proof {
                    assert(false);
                }
                shares
            },
        }
    } else {
        let short: u64 = total_amount - shares;
        proof {
            lemma_blend_below(
                shares as int,
                total_amount as int,
                market_shares as int,
                opposing_liquidity as int,
            );
            lemma_product_fits(short, opposing_liquidity);
            lemma_half_down(short * opposing_liquidity, market_shares as int);
        }
        let n: u128 = (short as u128) * (opposing_liquidity as u128);
        let q: u128 = n / (market_shares as u128);
        let rem: u128 = n % (market_shares as u128);
        let loss: u128 = if rem > (market_shares as u128) - rem {
            q + 1
        } else {
            q
        };
        total_amount - (loss as u64)
    }
}

/// The part of the losing pool that was there from the start: half of the
/// market's starting liquidity, or a fixed amount where none was recorded.
pub open spec fn initial_pool(market_liquidity_at_start: int) -> int {
    if market_liquidity_at_start == 0 {
        FALLBACK_INITIAL_POOL_LIQUIDITY as int
    } else {
        market_liquidity_at_start / 2
    }
}

/// What the capped rule pays a winner, given what the losing pool gained
/// since the start.
pub open spec fn capped_payout(
    shares: int,
    total_amount: int,
    market_shares: int,
    gained_liquidity: int,
) -> int {
    if gained_liquidity >= market_shares {
        shares
    } else {
        let uncapped = total_amount + mul_div_round(shares, gained_liquidity, market_shares);
        if uncapped > shares {
            shares
        } else {
            uncapped
        }
    }
}

/// The payout of a winner under the capped rule.
///
/// `ArithmeticFailure` where the losing pool holds less than it started
/// with.
pub fn payout_capped(
    shares: u64,
    total_amount: u64,
    market_shares: u64,
    opposing_liquidity: u64,
    market_liquidity_at_start: u64,
) -> (r: Result<u64, TriadProtocolError>)
    ensures
        match r {
            Ok(payout) => {
                &&& opposing_liquidity >= initial_pool(market_liquidity_at_start as int)
                &&& payout == capped_payout(
                    shares as int,
                    total_amount as int,
                    market_shares as int,
                    opposing_liquidity - initial_pool(market_liquidity_at_start as int),
                )
                &&& payout <= shares
            },
            Err(e) => {
                &&& e == TriadProtocolError::ArithmeticFailure
                &&& opposing_liquidity < initial_pool(market_liquidity_at_start as int)
            },
        },
{
    let start: u64 = if market_liquidity_at_start == 0 {
        FALLBACK_INITIAL_POOL_LIQUIDITY
    } else {
        market_liquidity_at_start / 2
    };
    if opposing_liquidity < start {
        return Err(TriadProtocolError::ArithmeticFailure);
    }
    let gained: u64 = opposing_liquidity - start;
    if gained >= market_shares {
        return Ok(shares);
    }
    proof {
        lemma_product_fits(shares, gained);
        let n = shares * gained;
        assert(0 <= n <= shares * market_shares) by (nonlinear_arith)
            requires
                0 <= gained < market_shares,
                0 <= shares,
                n == shares * gained,
        ;
        assert((2 * n + market_shares) / (2 * (market_shares as int)) <= shares)
            by (nonlinear_arith)
            requires
                0 <= n <= shares * market_shares,
                0 < market_shares,
        ;
    }
    match mul_div_nearest(shares, gained, market_shares) {
        Some(bonus) => {
            let uncapped: u128 = (total_amount as u128) + (bonus as u128);
            if uncapped > shares as u128 {
                Ok(shares)
            } else {
                Ok(uncapped as u64)
            }
        },
        None => {
            proof {
                assert(false);
            }
            Ok(shares)
        },
    }
}

/// The winning shares of a resolved market and the liquidity of the pool
/// that lost; both zero while the market is unresolved.
pub open spec fn resolution_pools(market: MarketV2) -> (int, int) {
    match market.winning_direction {
        WinningDirection::Hype => (market.hype_shares as int, market.flop_liquidity as int),
        WinningDirection::Flop => (market.flop_shares as int, market.hype_liquidity as int),
        WinningDirection::Unresolved => (0, 0),
    }
}

/// What `market` owes `order` under `policy`: nothing to an order that did
/// not back the winning outcome, and to a winner what the rule says.
pub open spec fn payout_owed(policy: PayoutPolicy, order: Order, market: MarketV2) -> Result<
    u64,
    TriadProtocolError,
> {
    let (market_shares, opposing) = resolution_pools(market);
    let shares = order.total_shares as int;
    let amount = order.total_amount as int;
    if !market.winning_direction.favours(order.direction) {
        Ok(0)
    } else {
        match policy {
            PayoutPolicy::ProportionalPool => if !proportional_applies(shares, market_shares) {
                Err(TriadProtocolError::InvalidPosition)
            } else if proportional_payout(shares, amount, market_shares, opposing) > u64::MAX {
                Err(TriadProtocolError::ArithmeticFailure)
            } else {
                Ok(proportional_payout(shares, amount, market_shares, opposing) as u64)
            },
            PayoutPolicy::MedianBlend => Ok(
                blended_payout(shares, amount, market_shares, opposing) as u64,
            ),
            PayoutPolicy::OneToOneCapped => if opposing < initial_pool(
                market.market_liquidity_at_start as int,
            ) {
                Err(TriadProtocolError::ArithmeticFailure)
            } else {
                Ok(
                    capped_payout(
                        shares,
                        amount,
                        market_shares,
                        opposing - initial_pool(market.market_liquidity_at_start as int),
                    ) as u64,
                )
            },
        }
    }
}

/// Computes what `market` owes `order` under `policy`.
pub fn calculate_payout(policy: PayoutPolicy, order: &Order, market: &MarketV2) -> (r: Result<
    u64,
    TriadProtocolError,
>)
    ensures
        r == payout_owed(policy, *order, *market),
{
    if !market.winning_direction.is_winner(order.direction) {
        return Ok(0);
    }
    let (market_shares, opposing): (u64, u64) = match market.winning_direction {
        WinningDirection::Hype => (market.hype_shares, market.flop_liquidity),
        WinningDirection::Flop => (market.flop_shares, market.hype_liquidity),
        WinningDirection::Unresolved => (0, 0),
    };
    match policy {
        PayoutPolicy::ProportionalPool => payout_proportional(
            order.total_shares,
            order.total_amount,
            market_shares,
            opposing,
        ),
        PayoutPolicy::MedianBlend => Ok(
            payout_blended(order.total_shares, order.total_amount, market_shares, opposing),
        ),
        PayoutPolicy::OneToOneCapped => payout_capped(
            order.total_shares,
            order.total_amount,
            market_shares,
            opposing,
            market.market_liquidity_at_start,
        ),
    }
}

} // verus!
