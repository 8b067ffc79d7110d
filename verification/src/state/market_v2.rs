//! One binary market and its price engine.

use vstd::prelude::*;
use crate::constants::{
    DAMPING_DENOMINATOR, DAMPING_NUMERATOR, DEFAULT_FEE_BPS, INITIAL_MARKET_LIQUIDITY,
    INITIAL_POOL_LIQUIDITY, INITIAL_PRICE, MAX_PRICE, MIN_PRICE, PRICE_SCALE,
};
use crate::errors::TriadProtocolError;
use crate::events::PriceUpdate;
use crate::state::order::OrderDirection;

verus! {

/// How a market was resolved, if it was.
#[derive(Clone, Copy, Debug, PartialEq, Eq, Structural)]
pub enum WinningDirection {
    /// No outcome has been declared.
    Unresolved,
    Hype,
    Flop,
}

impl WinningDirection {
    /// Whether an order that backs `direction` has won.
    pub open spec fn favours(self, direction: OrderDirection) -> bool {
        match (self, direction) {
            (WinningDirection::Hype, OrderDirection::Hype) => true,
            (WinningDirection::Flop, OrderDirection::Flop) => true,
            _ => false,
        }
    }

    pub fn is_winner(&self, direction: OrderDirection) -> (r: bool)
        ensures
            r == self.favours(direction),
    {
        match (self, direction) {
            (WinningDirection::Hype, OrderDirection::Hype) => true,
            (WinningDirection::Flop, OrderDirection::Flop) => true,
            _ => false,
        }
    }
}

/// One binary market.
#[derive(Clone, Copy, Debug, PartialEq, Eq)]
pub struct MarketV2 {
    pub bump: u8,
    pub authority: [u8; 32],
    /// Unique identifier for the market
    pub market_id: u64,
    pub hype_price: u64,
    pub flop_price: u64,
    /// Total liquidity for Hype
    pub hype_liquidity: u64,
    /// Total liquidity for Flop
    pub flop_liquidity: u64,
    /// Total number of Hype shares issued
    pub hype_shares: u64,
    /// Total number of Flop shares issued
    pub flop_shares: u64,
    /// Total trading volume
    pub volume: u64,
    /// The medium in which value is held
    pub mint: [u8; 32],
    /// When a price last moved
    pub update_ts: i64,
    /// Total number of open orders in this market
    pub opened_orders: u64,
    /// Next available order ID
    pub next_order_id: u64,
    /// Fee rate, in parts of 100_000
    pub fee_bps: u16,
    pub nft_holders_fee_available: u64,
    pub nft_holders_fee_claimed: u64,
    pub market_fee_available: u64,
    pub market_fee_claimed: u64,
    /// Whether the market is currently active for trading
    pub is_active: bool,
    pub market_start: i64,
    pub market_end: i64,
    /// The question or prediction topic
    pub question: [u8; 80],
    pub winning_direction: WinningDirection,
    pub market_liquidity_at_start: u64,
}

/// The prefix of the seeds of every market's address: the bytes of
/// `market`.
pub const MARKET_PREFIX_SEED: [u8; 6] = [109, 97, 114, 107, 101, 116];

/// What a market is created from.
#[derive(Clone, Debug, PartialEq, Eq)]
pub struct InitializeMarketArgs {
    pub name: String,
    pub market_id: u64,
    pub question: [u8; 80],
    pub start_time: i64,
    pub end_time: i64,
}

/// What is added to which pool.
#[derive(Clone, Copy, Debug, PartialEq, Eq)]
pub struct AddLiquidityArgs {
    pub amount: u64,
    pub direction: OrderDirection,
}

/// The reference that stands for nobody: thirty-two zero bytes.
pub open spec fn blank_key() -> [u8; 32] {
    vstd::array::spec_array_fill_for_copy_type::<u8, 32>(0u8)
}

/// The question of a market that was given none: eighty zero bytes.
pub open spec fn blank_question() -> [u8; 80] {
    vstd::array::spec_array_fill_for_copy_type::<u8, 80>(0u8)
}

/// A price brought into the range every price stays in.
pub open spec fn clamp_price(p: int) -> int {
    if p < MIN_PRICE {
        MIN_PRICE as int
    } else if p > MAX_PRICE {
        MAX_PRICE as int
    } else {
        p
    }
}

/// The distance between the current price and the target.
pub open spec fn price_gap(current: int, target: int) -> int {
    if target > current {
        target - current
    } else {
        current - target
    }
}

/// The part of a gap that one step covers, truncated toward zero.
pub open spec fn damped(gap: int) -> int {
    gap * (DAMPING_NUMERATOR as int) / (DAMPING_DENOMINATOR as int)
}

/// The price after one damped step: up by the damped gap when a pool grows,
/// down by it when a pool shrinks, clamped.
pub open spec fn stepped_price(current: int, target: int, is_open: bool) -> int {
    let adjustment = damped(price_gap(current, target));
    clamp_price(if is_open { current + adjustment } else { current - adjustment })
}

/// The price at which a pool of `this_side` stands against one of
/// `other_side`: its share of both, in millionths, clamped.
pub open spec fn pool_ratio_price(this_side: int, other_side: int) -> int {
    clamp_price(this_side * (PRICE_SCALE as int) / (this_side + other_side))
}

impl MarketV2 {
    pub open spec fn price_of(self, direction: OrderDirection) -> u64 {
        match direction {
            OrderDirection::Hype => self.hype_price,
            OrderDirection::Flop => self.flop_price,
        }
    }

    pub open spec fn liquidity_of(self, direction: OrderDirection) -> u64 {
        match direction {
            OrderDirection::Hype => self.hype_liquidity,
            OrderDirection::Flop => self.flop_liquidity,
        }
    }

    pub open spec fn shares_of(self, direction: OrderDirection) -> u64 {
        match direction {
            OrderDirection::Hype => self.hype_shares,
            OrderDirection::Flop => self.flop_shares,
        }
    }

    /// Both prices lie in `[1, 999_999]` and add up to 1_000_000.
    pub open spec fn prices_valid(self) -> bool {
        &&& MIN_PRICE <= self.hype_price <= MAX_PRICE
        &&& MIN_PRICE <= self.flop_price <= MAX_PRICE
        &&& self.hype_price + self.flop_price == PRICE_SCALE
    }

    /// A market is active exactly as long as it has no outcome.
    pub open spec fn lifecycle_valid(self) -> bool {
        self.is_active <==> self.winning_direction == WinningDirection::Unresolved
    }

    /// No fee pool has paid out more than it took in.
    pub open spec fn fees_valid(self) -> bool {
        &&& self.nft_holders_fee_claimed <= self.nft_holders_fee_available
        &&& self.market_fee_claimed <= self.market_fee_available
    }

    /// What holds of a market at every observable point.
    pub open spec fn wf(self) -> bool {
        &&& self.prices_valid()
        &&& self.lifecycle_valid()
        &&& self.fees_valid()
    }

    pub open spec fn resolved(self) -> bool {
        self.winning_direction != WinningDirection::Unresolved
    }

    /// A market as it stands before anything was set.
    pub open spec fn initial() -> MarketV2 {
        MarketV2 {
            bump: 0,
            authority: blank_key(),
            market_id: 0,
            hype_price: INITIAL_PRICE,
            flop_price: INITIAL_PRICE,
            hype_liquidity: INITIAL_POOL_LIQUIDITY,
            flop_liquidity: INITIAL_POOL_LIQUIDITY,
            hype_shares: 0,
            flop_shares: 0,
            volume: 0,
            mint: blank_key(),
            update_ts: 0,
            opened_orders: 0,
            next_order_id: 0,
            fee_bps: DEFAULT_FEE_BPS,
            nft_holders_fee_available: 0,
            nft_holders_fee_claimed: 0,
            market_fee_available: 0,
            market_fee_claimed: 0,
            is_active: true,
            market_start: 0,
            market_end: 0,
            question: blank_question(),
            winning_direction: WinningDirection::Unresolved,
            market_liquidity_at_start: INITIAL_MARKET_LIQUIDITY,
        }
    }

    pub fn is_well_formed(&self) -> (r: bool)
        ensures
            r == self.wf(),
    {
        MIN_PRICE <= self.hype_price && self.hype_price <= MAX_PRICE
            && MIN_PRICE <= self.flop_price && self.flop_price <= MAX_PRICE
            && self.hype_price + self.flop_price == PRICE_SCALE
            && (self.is_active == (self.winning_direction == WinningDirection::Unresolved))
            && self.nft_holders_fee_claimed <= self.nft_holders_fee_available
            && self.market_fee_claimed <= self.market_fee_available
    }

    pub fn price(&self, direction: OrderDirection) -> (r: u64)
        ensures
            r == self.price_of(direction),
    {
        match direction {
            OrderDirection::Hype => self.hype_price,
            OrderDirection::Flop => self.flop_price,
        }
    }

    pub fn liquidity(&self, direction: OrderDirection) -> (r: u64)
        ensures
            r == self.liquidity_of(direction),
    {
        match direction {
            OrderDirection::Hype => self.hype_liquidity,
            OrderDirection::Flop => self.flop_liquidity,
        }
    }

    pub fn shares(&self, direction: OrderDirection) -> (r: u64)
        ensures
            r == self.shares_of(direction),
    {
        match direction {
            OrderDirection::Hype => self.hype_shares,
            OrderDirection::Flop => self.flop_shares,
        }
    }
}

/// A stepped price is a valid price, wherever it started.
pub proof fn lemma_stepped_price_in_range(current: int, target: int, is_open: bool)
    ensures
        MIN_PRICE <= stepped_price(current, target, is_open) <= MAX_PRICE,
{
}

/// One damped step from `current` toward `target`.
pub fn step_price(current: u64, target: u64, is_open: bool) -> (r: u64)
    ensures
        r == stepped_price(current as int, target as int, is_open),
        MIN_PRICE <= r <= MAX_PRICE,
{
    let gap: u64 = if target > current {
        target - current
    } else {
        current - target
    };
    let numerator: u128 = DAMPING_NUMERATOR as u128;
    let denominator: u128 = DAMPING_DENOMINATOR as u128;
    let adjustment: u128 = (gap as u128) * numerator / denominator;
    if is_open {
        let raised: u128 = (current as u128) + adjustment;
        if raised > MAX_PRICE as u128 {
            MAX_PRICE
        } else if raised < MIN_PRICE as u128 {
            MIN_PRICE
        } else {
            raised as u64
        }
    } else if adjustment >= current as u128 {
        MIN_PRICE
    } else {
        let lowered: u128 = (current as u128) - adjustment;
        if lowered > MAX_PRICE as u128 {
            MAX_PRICE
        } else {
            lowered as u64
        }
    }
}

/// The price at which a pool of `this_side` stands against one of
/// `other_side`.
pub fn ratio_price(this_side: u128, other_side: u128) -> (r: u64)
    requires
        this_side * PRICE_SCALE <= u128::MAX,
        this_side + other_side <= u128::MAX,
        this_side + other_side > 0,
    ensures
        r == pool_ratio_price(this_side as int, other_side as int),
        MIN_PRICE <= r <= MAX_PRICE,
{
    let scale: u128 = PRICE_SCALE as u128;
    let scaled: u128 = this_side * scale;
    let quotient: u128 = scaled / (this_side + other_side);
    if quotient > MAX_PRICE as u128 {
        MAX_PRICE
    } else if quotient < MIN_PRICE as u128 {
        MIN_PRICE
    } else {
        quotient as u64
    }
}

impl MarketV2 {
    /// The liquidity of `direction`'s pool after `amount` went in or out,
    /// where the pool can hold the result.
    pub open spec fn moved_liquidity(
        self,
        amount: u64,
        direction: OrderDirection,
        is_open: bool,
    ) -> Option<u64> {
        let held = self.liquidity_of(direction);
        if is_open {
            if held + amount <= u64::MAX {
                Some((held + amount) as u64)
            } else {
                None
            }
        } else {
            if amount <= held {
                Some((held - amount) as u64)
            } else {
                None
            }
        }
    }

    /// The market after a price move: `direction`'s price takes one damped
    /// step toward `future_price`, the other price is what is left of
    /// 1_000_000, `direction`'s pool has moved by `amount`, and the time of
    /// the move is recorded.
    pub open spec fn repriced(
        self,
        amount: u64,
        future_price: u64,
        direction: OrderDirection,
        is_open: bool,
        ts: i64,
    ) -> MarketV2 {
        let price = stepped_price(self.price_of(direction) as int, future_price as int, is_open) as u64;
        let pool = self.moved_liquidity(amount, direction, is_open).unwrap();
        match direction {
            OrderDirection::Hype => MarketV2 {
                hype_price: price,
                flop_price: (PRICE_SCALE - price) as u64,
                hype_liquidity: pool,
                update_ts: ts,
                ..self
            },
            OrderDirection::Flop => MarketV2 {
                flop_price: price,
                hype_price: (PRICE_SCALE - price) as u64,
                flop_liquidity: pool,
                update_ts: ts,
                ..self
            },
        }
    }

    /// The seeds with which the market signs for its custody: the prefix,
    /// the market's id as eight bytes, lowest first, and the bump.
    pub fn signer_seeds(&self) -> (seeds: Vec<Vec<u8>>)
        ensures
            seeds@.len() == 3,
            seeds@[0]@ == MARKET_PREFIX_SEED@,
            seeds@[1]@ == vstd::bytes::spec_u64_to_le_bytes(self.market_id),
            seeds@[2]@ == seq![self.bump],
    {
        let mut prefix: Vec<u8> = Vec::new();
        let mut n: usize = 0;
        while n < 6
            invariant
                n <= 6,
                prefix@ == MARKET_PREFIX_SEED@.take(n as int),
            decreases 6 - n,
        {
            prefix.push(MARKET_PREFIX_SEED[n]);
            assert(MARKET_PREFIX_SEED@.take(n as int + 1) == MARKET_PREFIX_SEED@.take(n as int).push(
                MARKET_PREFIX_SEED@[n as int],
            ));
            n = n + 1;
        }
        assert(MARKET_PREFIX_SEED@.take(6) == MARKET_PREFIX_SEED@);
        let mut bump: Vec<u8> = Vec::new();
        bump.push(self.bump);
        let mut seeds: Vec<Vec<u8>> = Vec::new();
        seeds.push(prefix);
        seeds.push(vstd::bytes::u64_to_le_bytes(self.market_id));
        seeds.push(bump);
        seeds
    }

    /// Why the market takes no trade at `ts`, if it takes none: it is not
    /// active, its period has not begun or is over, or its prices moved at
    /// `ts` or later.
    pub open spec fn trading_rejection(self, ts: i64) -> Option<TriadProtocolError> {
        if !self.is_active {
            Some(TriadProtocolError::MarketInactive)
        } else if ts <= self.market_start {
            Some(TriadProtocolError::QuestionPeriodNotStarted)
        } else if self.market_end <= ts {
            Some(TriadProtocolError::QuestionPeriodEnded)
        } else if ts <= self.update_ts {
            Some(TriadProtocolError::ConcurrentTransaction)
        } else {
            None
        }
    }

    /// Tests whether the market takes a trade at `ts`.
    pub fn check_trading(&self, ts: i64) -> (r: Result<(), TriadProtocolError>)
        ensures
            match r {
                Ok(_) => self.trading_rejection(ts) is None,
                Err(e) => self.trading_rejection(ts) == Some(e),
            },
    {
        if !self.is_active {
            Err(TriadProtocolError::MarketInactive)
        } else if ts <= self.market_start {
            Err(TriadProtocolError::QuestionPeriodNotStarted)
        } else if self.market_end <= ts {
            Err(TriadProtocolError::QuestionPeriodEnded)
        } else if ts <= self.update_ts {
            Err(TriadProtocolError::ConcurrentTransaction)
        } else {
            Ok(())
        }
    }

    /// After a price move the two prices are valid, whatever they were.
    pub proof fn lemma_repriced_prices_valid(
        self,
        amount: u64,
        future_price: u64,
        direction: OrderDirection,
        is_open: bool,
        ts: i64,
    )
        ensures
            self.repriced(amount, future_price, direction, is_open, ts).prices_valid(),
    {
        lemma_stepped_price_in_range(
            self.price_of(direction) as int,
            future_price as int,
            is_open,
        );
    }

    /// The notice that reports this market's prices.
    pub open spec fn price_notice(self, direction: OrderDirection, ts: i64) -> PriceUpdate {
        PriceUpdate {
            market_id: self.market_id,
            hype_price: self.hype_price,
            flop_price: self.flop_price,
            direction,
            timestamp: ts,
        }
    }

    /// Hands out the next order id. The counter wraps.
    pub fn next_order_id(&mut self) -> (id: u64)
        ensures
            id == old(self).next_order_id,
            *final(self) == (MarketV2 {
                next_order_id: if id == u64::MAX { 0u64 } else { (id + 1) as u64 },
                ..*old(self)
            }),
    {
        let id: u64 = self.next_order_id;
        self.next_order_id = if id == u64::MAX { 0 } else { id + 1 };
        id
    }

    /// Moves `amount` into (`is_open`) or out of `direction`'s pool and
    /// reprices both outcomes.
    ///
    /// Fails with `ArithmeticFailure`, changing nothing, where the pool
    /// cannot take or give `amount`.
    pub fn update_price(
        &mut self,
        amount: u64,
        future_price: u64,
        direction: OrderDirection,
        is_open: bool,
        ts: i64,
    ) -> (r: Result<PriceUpdate, TriadProtocolError>)
        ensures
            match r {
                Ok(notice) => {
                    &&& old(self).moved_liquidity(amount, direction, is_open) is Some
                    &&& *final(self) == old(self).repriced(amount, future_price, direction, is_open, ts)
                    &&& notice == final(self).price_notice(direction, ts)
                    &&& final(self).prices_valid()
                },
                Err(e) => {
                    &&& e == TriadProtocolError::ArithmeticFailure
                    &&& old(self).moved_liquidity(amount, direction, is_open) is None
                    &&& *final(self) == *old(self)
                },
            },
            r is Ok && old(self).lifecycle_valid() && old(self).fees_valid() ==> final(self).wf(),
    {
        let held: u64 = self.liquidity(direction);
        let moved: Option<u64> = if is_open {
            held.checked_add(amount)
        } else {
            held.checked_sub(amount)
        };
        let pool: u64 = match moved {
            Some(pool) => pool,
            None => {
                return Err(TriadProtocolError::ArithmeticFailure);
            },
        };
        let price: u64 = step_price(self.price(direction), future_price, is_open);
        match direction {
            OrderDirection::Hype => {
                self.hype_price = price;
                self.flop_price = PRICE_SCALE - price;
                self.hype_liquidity = pool;
            },
            OrderDirection::Flop => {
                self.flop_price = price;
                self.hype_price = PRICE_SCALE - price;
                self.flop_liquidity = pool;
            },
        }
        self.update_ts = ts;
        Ok(
            PriceUpdate {
                market_id: self.market_id,
                hype_price: self.hype_price,
                flop_price: self.flop_price,
                direction,
                timestamp: ts,
            },
        )
    }
}

impl Default for MarketV2 {
    fn default() -> (r: Self)
        ensures
            r == MarketV2::initial(),
            r.wf(),
    {
        MarketV2 {
            bump: 0,
            authority: [0u8; 32],
            market_id: 0,
            hype_price: INITIAL_PRICE,
            flop_price: INITIAL_PRICE,
            hype_liquidity: INITIAL_POOL_LIQUIDITY,
            flop_liquidity: INITIAL_POOL_LIQUIDITY,
            hype_shares: 0,
            flop_shares: 0,
            volume: 0,
            mint: [0u8; 32],
            update_ts: 0,
            opened_orders: 0,
            next_order_id: 0,
            fee_bps: DEFAULT_FEE_BPS,
            nft_holders_fee_available: 0,
            nft_holders_fee_claimed: 0,
            market_fee_available: 0,
            market_fee_claimed: 0,
            is_active: true,
            market_start: 0,
            market_end: 0,
            question: [0u8; 80],
            winning_direction: WinningDirection::Unresolved,
            market_liquidity_at_start: INITIAL_MARKET_LIQUIDITY,
        }
    }
}

} // verus!
