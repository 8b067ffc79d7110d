//! The first generation of markets: a price that rises with every order by
//! at most a tenth, within the same bounds as every price, and orders that
//! are filled against the other side's pool.

use vstd::prelude::*;
use crate::constants::{MAX_PRICE, MIN_PRICE, PRICE_SCALE};
use crate::events::MarketPriceUpdate;
use crate::math::lemma_product_fits;
use crate::state::market_v2::{blank_key, clamp_price};
use crate::state::order::{Order, OrderDirection, OrderStatus, OrderType};

verus! {

/// The largest part of a price, in millionths, that one order adds to it.
pub const MAX_PRICE_IMPACT: u64 = 100_000;

#[derive(Clone, Debug, PartialEq, Eq)]
pub struct Market {
    pub bump: u8,
    pub authority: [u8; 32],
    /// Unique identifier for the market
    pub market_id: u64,
    /// The event being predicted
    pub name: String,
    /// Current price for Hype, in millionths
    pub hype_price: u64,
    /// Current price for Flop, in millionths
    pub flop_price: u64,
    /// Total liquidity for Hype
    pub hype_liquidity: u64,
    /// Total liquidity for Flop
    pub flop_liquidity: u64,
    /// Total number of Hype shares issued
    pub total_hype_shares: u64,
    /// Total number of Flop shares issued
    pub total_flop_shares: u64,
    /// Total trading volume
    pub total_volume: u64,
    /// The medium in which value is held
    pub mint: [u8; 32],
    /// Timestamp of the init
    pub ts: i64,
    pub update_ts: i64,
    /// Total number of open orders in this market
    pub open_orders_count: u64,
    /// Next available order ID
    pub next_order_id: u64,
    /// Fees applied to trades, in hundredths of a percent
    pub fee_bps: u16,
    /// Where fees are received
    pub fee_vault: [u8; 32],
    /// Whether the market is currently active for trading
    pub is_active: bool,
    pub is_official: bool,
    /// The higher of the two prices
    pub market_price: u64,
}

/// What a market of the first generation is created from.
#[derive(Clone, Debug, PartialEq, Eq)]
pub struct InitializeMarketArgs {
    pub name: String,
    pub market_id: u64,
}

/// How far an order has been filled.
#[derive(Clone, Copy, Debug, PartialEq, Eq)]
pub struct Fill {
    pub filled_amount: u64,
    pub filled_shares: u64,
}

/// The part of the price, in millionths, that an order of `amount` adds:
/// the amount itself, and no more than a tenth.
pub open spec fn price_impact(amount: int) -> int {
    if amount > MAX_PRICE_IMPACT {
        MAX_PRICE_IMPACT as int
    } else {
        amount
    }
}

/// A price raised by the impact of `amount`, truncated toward zero, and
/// kept within the range every price stays in.
pub open spec fn raised_price(price: int, amount: int) -> int {
    clamp_price(price + price * price_impact(amount) / (PRICE_SCALE as int))
}

/// The shares that `amount` buys at `price`, truncated toward zero.
pub open spec fn shares_for(amount: int, price: int) -> int {
    amount * (PRICE_SCALE as int) / price
}

impl Market {
    pub open spec fn price_of(self, direction: OrderDirection) -> u64 {
        match direction {
            OrderDirection::Hype => self.hype_price,
            OrderDirection::Flop => self.flop_price,
        }
    }

    pub open spec fn liquidity_of(self, direction: OrderDirection) -> u64 {
        match direction {
            OrderDirection::Hype => self.hype_liquidity,
            OrderDirection::Flop => self.flop_liquidity,
        }
    }

    /// Both prices lie in `[1, 999_999]` and add up to 1_000_000.
    pub open spec fn prices_valid(self) -> bool {
        &&& MIN_PRICE <= self.hype_price <= MAX_PRICE
        &&& MIN_PRICE <= self.flop_price <= MAX_PRICE
        &&& self.hype_price + self.flop_price == PRICE_SCALE
    }

    /// The market after an order of `amount` on `direction` moved its
    /// prices at `ts`: the price of `direction` is raised, the other is
    /// what is left of 1_000_000.
    pub open spec fn repriced(self, amount: u64, direction: OrderDirection, ts: i64) -> Market {
        let this_side = raised_price(self.price_of(direction) as int, amount as int) as u64;
        let other_side = (PRICE_SCALE - this_side) as u64;
        let (hype_price, flop_price) = match direction {
            OrderDirection::Hype => (this_side, other_side),
            OrderDirection::Flop => (other_side, this_side),
        };
        Market {
            hype_price,
            flop_price,
            update_ts: ts,
            market_price: if hype_price > flop_price {
                hype_price
            } else {
                flop_price
            },
            ..self
        }
    }

    /// The notice that reports this market's prices.
    pub open spec fn price_notice(
        self,
        direction: OrderDirection,
        order_type: OrderType,
        comment: Option<[u8; 64]>,
        ts: i64,
    ) -> MarketPriceUpdate {
        MarketPriceUpdate {
            market_id: self.market_id,
            hype_price: self.hype_price,
            flop_price: self.flop_price,
            direction,
            market_price: self.market_price,
            timestamp: ts,
            comment: if order_type == OrderType::Market {
                comment
            } else {
                None
            },
        }
    }

    /// Hands out the next order id. The counter wraps.
    pub fn next_order_id(&mut self) -> (id: u64)
        ensures
            id == old(self).next_order_id,
            final(self).next_order_id == if id == u64::MAX {
                0u64
            } else {
                (id + 1) as u64
            },
            *final(self) == (Market { next_order_id: final(self).next_order_id, ..*old(self) }),
    {
        let id: u64 = self.next_order_id;
        self.next_order_id = if id == u64::MAX {
            0
        } else {
            id + 1
        };
        id
    }

    /// The shares that `amount` buys at the current price of `direction`.
    pub fn calculate_shares(&self, amount: u64, direction: OrderDirection) -> (shares: u64)
        requires
            self.price_of(direction) > 0,
            amount * PRICE_SCALE <= u64::MAX,
        ensures
            shares == shares_for(amount as int, self.price_of(direction) as int),
    {
        let price: u64 = match direction {
            OrderDirection::Hype => self.hype_price,
            OrderDirection::Flop => self.flop_price,
        };
        let scale: u64 = PRICE_SCALE;
        assert(amount * scale / (price as int) <= amount * scale) by (nonlinear_arith)
            requires
                0 <= amount * scale,
                price > 0,
        ;
        (amount * scale) / price
    }

    /// Adds `shares` to the total of `direction`; a total that is full
    /// stays full.
    pub fn update_shares(&mut self, shares: u64, direction: OrderDirection)
        ensures
            *final(self) == match direction {
                OrderDirection::Hype => Market {
                    total_hype_shares: if old(self).total_hype_shares + shares > u64::MAX {
                        u64::MAX
                    } else {
                        (old(self).total_hype_shares + shares) as u64
                    },
                    ..*old(self)
                },
                OrderDirection::Flop => Market {
                    total_flop_shares: if old(self).total_flop_shares + shares > u64::MAX {
                        u64::MAX
                    } else {
                        (old(self).total_flop_shares + shares) as u64
                    },
                    ..*old(self)
                },
            },
    {
        match direction {
            OrderDirection::Hype => {
                self.total_hype_shares = self.total_hype_shares.saturating_add(shares);
            },
            OrderDirection::Flop => {
                self.total_flop_shares = self.total_flop_shares.saturating_add(shares);
            },
        }
    }

    /// Raises the price of `direction` by the impact of `amount`, no
    /// higher than 999_999, sets the other price to what is left of
    /// 1_000_000, and records the time.
    pub fn update_price(
        &mut self,
        amount: u64,
        direction: OrderDirection,
        order_type: OrderType,
        comment: Option<[u8; 64]>,
        ts: i64,
    ) -> (notice: MarketPriceUpdate)
        ensures
            *final(self) == old(self).repriced(amount, direction, ts),
            notice == final(self).price_notice(direction, order_type, comment, ts),
            final(self).prices_valid(),
            final(self).market_price >= final(self).hype_price,
            final(self).market_price >= final(self).flop_price,
            final(self).market_price == final(self).hype_price || final(self).market_price
                == final(self).flop_price,
    {
        let price: u64 = match direction {
            OrderDirection::Hype => self.hype_price,
            OrderDirection::Flop => self.flop_price,
        };
        let impact: u64 = if amount > MAX_PRICE_IMPACT {
            MAX_PRICE_IMPACT
        } else {
            amount
        };
        proof {
            lemma_product_fits(price, impact);
        }
        let scale: u128 = PRICE_SCALE as u128;
        let gain: u128 = (price as u128) * (impact as u128) / scale;
        assert(gain <= price) by (nonlinear_arith)
            requires
                gain == (price as int) * (impact as int) / 1_000_000,
                0 <= impact <= 100_000,
                0 <= price,
        ;
        let sum: u128 = (price as u128) + gain;
        let this_side: u64 = if sum > MAX_PRICE as u128 {
            MAX_PRICE
        } else if sum < MIN_PRICE as u128 {
            MIN_PRICE
        } else {
            sum as u64
        };
        let other_side: u64 = PRICE_SCALE - this_side;
        match direction {
            OrderDirection::Hype => {
                self.hype_price = this_side;
                self.flop_price = other_side;
            },
            OrderDirection::Flop => {
                self.flop_price = this_side;
                self.hype_price = other_side;
            },
        }
        self.update_ts = ts;
        self.market_price = if self.hype_price > self.flop_price {
            self.hype_price
        } else {
            self.flop_price
        };
        MarketPriceUpdate {
            market_id: self.market_id,
            hype_price: self.hype_price,
            flop_price: self.flop_price,
            direction,
            market_price: self.market_price,
            timestamp: ts,
            comment: match order_type {
                OrderType::Market => comment,
                OrderType::Limit => None,
            },
        }
    }

    /// The side whose price is higher, if either is.
    pub fn get_winning_direction(&self) -> (r: Option<OrderDirection>)
        ensures
            r == if self.hype_price > self.flop_price {
                Some(OrderDirection::Hype)
            } else if self.flop_price > self.hype_price {
                Some(OrderDirection::Flop)
            } else {
                None::<OrderDirection>
            },
    {
        if self.hype_price > self.flop_price {
            Some(OrderDirection::Hype)
        } else if self.flop_price > self.hype_price {
            Some(OrderDirection::Flop)
        } else {
            None
        }
    }

    /// What of `amount` can be filled now: no more than the other side's
    /// pool holds.
    pub open spec fn fillable(self, direction: OrderDirection, amount: u64) -> u64 {
        let available = self.liquidity_of(direction.flipped());
        if amount < available {
            amount
        } else {
            available
        }
    }

    /// Fills `order` by what of `amount` the other side's pool can give,
    /// and returns the amount filled and the shares it bought.
    ///
    /// Where anything is filled, it passes from the other side's pool into
    /// the order's, the order's progress is advanced, an order filled whole
    /// is marked so, and the price of the order's side rises by the impact
    /// of its own price.
    pub fn fill_order_internal(
        &mut self,
        order: &mut Order,
        progress: &mut Fill,
        amount: u64,
        ts: i64,
    ) -> (filled: (u64, u64))
        requires
            old(self).price_of(old(order).direction) > 0,
            old(self).fillable(old(order).direction, amount) * PRICE_SCALE <= u64::MAX,
            old(progress).filled_amount + old(self).fillable(old(order).direction, amount)
                <= u64::MAX,
            old(progress).filled_shares + shares_for(
                old(self).fillable(old(order).direction, amount) as int,
                old(self).price_of(old(order).direction) as int,
            ) <= u64::MAX,
            old(self).liquidity_of(old(order).direction) + old(self).fillable(
                old(order).direction,
                amount,
            ) <= u64::MAX,
        ensures
            filled.0 == old(self).fillable(old(order).direction, amount),
            filled.1 == shares_for(
                filled.0 as int,
                old(self).price_of(old(order).direction) as int,
            ),
            final(progress).filled_amount == old(progress).filled_amount + filled.0,
            final(progress).filled_shares == old(progress).filled_shares + filled.1,
            *final(order) == (Order {
                status: if filled.0 > 0 && final(progress).filled_amount == old(
                    order,
                ).total_amount {
                    OrderStatus::Filled
                } else {
                    old(order).status
                },
                ..*old(order)
            }),
            filled.0 == 0 ==> *final(self) == *old(self),
            filled.0 > 0 ==> final(self).prices_valid(),
            old(self).prices_valid() ==> final(self).prices_valid(),
            filled.0 > 0 ==> {
                let repriced = old(self).repriced(
                    old(self).price_of(old(order).direction),
                    old(order).direction,
                    ts,
                );
                *final(self) == match old(order).direction {
                    OrderDirection::Hype => Market {
                        hype_liquidity: (old(self).hype_liquidity + filled.0) as u64,
                        flop_liquidity: (old(self).flop_liquidity - filled.0) as u64,
                        ..repriced
                    },
                    OrderDirection::Flop => Market {
                        flop_liquidity: (old(self).flop_liquidity + filled.0) as u64,
                        hype_liquidity: (old(self).hype_liquidity - filled.0) as u64,
                        ..repriced
                    },
                }
            },
    {
        let direction: OrderDirection = order.direction;
        let current_price: u64 = match direction {
            OrderDirection::Hype => self.hype_price,
            OrderDirection::Flop => self.flop_price,
        };
        let available: u64 = match direction {
            OrderDirection::Hype => self.flop_liquidity,
            OrderDirection::Flop => self.hype_liquidity,
        };
        let fill_amount: u64 = if amount < available {
            amount
        } else {
            available
        };
        let fill_shares: u64 = self.calculate_shares(fill_amount, direction);
        if fill_amount > 0 {
            progress.filled_amount = progress.filled_amount + fill_amount;
            progress.filled_shares = progress.filled_shares + fill_shares;
            if progress.filled_amount == order.total_amount {
                order.status = OrderStatus::Filled;
            }
            self.update_price(current_price, direction, order.order_type, None, ts);
            match direction {
                OrderDirection::Hype => {
                    self.hype_liquidity = self.hype_liquidity + fill_amount;
                    self.flop_liquidity = self.flop_liquidity - fill_amount;
                },
                OrderDirection::Flop => {
                    self.flop_liquidity = self.flop_liquidity + fill_amount;
                    self.hype_liquidity = self.hype_liquidity - fill_amount;
                },
            }
        }
        (fill_amount, fill_shares)
    }
}

impl Default for Market {
    fn default() -> (r: Self)
        ensures
            r.bump == 0,
            r.authority == blank_key(),
            r.market_id == 0,
            r.name@ == Seq::<char>::empty(),
            r.hype_price == 500_000,
            r.flop_price == 500_000,
            r.hype_liquidity == 0,
            r.flop_liquidity == 0,
            r.total_hype_shares == 0,
            r.total_flop_shares == 0,
            r.total_volume == 0,
            r.mint == blank_key(),
            r.ts == 0,
            r.update_ts == 0,
            r.open_orders_count == 0,
            r.next_order_id == 0,
            r.fee_bps == 300,
            r.fee_vault == blank_key(),
            r.is_active,
            r.is_official,
            r.market_price == 0,
            r.prices_valid(),
    {
        Market {
            bump: 0,
            authority: [0u8; 32],
            market_id: 0,
            name: String::new(),
            hype_price: 500_000,
            flop_price: 500_000,
            hype_liquidity: 0,
            flop_liquidity: 0,
            total_hype_shares: 0,
            total_flop_shares: 0,
            total_volume: 0,
            mint: [0u8; 32],
            ts: 0,
            update_ts: 0,
            open_orders_count: 0,
            next_order_id: 0,
            fee_bps: 300,
            fee_vault: [0u8; 32],
            is_active: true,
            is_official: true,
            market_price: 0,
        }
    }
}

} // verus!
