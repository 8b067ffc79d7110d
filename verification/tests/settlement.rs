use triad_protocol::auth::Authorization;
use triad_protocol::errors::TriadProtocolError;
use triad_protocol::instructions::close_order::close_order;
use triad_protocol::instructions::open_order::open_order;
use triad_protocol::instructions::payout_order::payout_order;
use triad_protocol::instructions::resolve_market::resolve_market;
use triad_protocol::instructions::settle_order::settle_order;
use triad_protocol::settlement::{
    calculate_payout, payout_blended, payout_capped, payout_proportional, PayoutPolicy,
};
use triad_protocol::state::market_v2::{MarketV2, WinningDirection};
use triad_protocol::state::order::{OpenOrderArgs, Order, OrderDirection, OrderStatus};
use triad_protocol::state::user_trade::UserTrade;

const USER: Authorization = Authorization { is_admin: false, is_owner: true };
const ADMIN: Authorization = Authorization { is_admin: true, is_owner: false };
const STRANGER: Authorization = Authorization { is_admin: false, is_owner: false };

fn trading_market() -> MarketV2 {
    let mut m = MarketV2::default();
    m.market_id = 3;
    m.market_start = 100;
    m.market_end = 10_000;
    m
}

fn order(direction: OrderDirection, shares: u64, amount: u64) -> Order {
    let mut o = Order::default();
    o.status = OrderStatus::Open;
    o.order_id = 11;
    o.market_id = 3;
    o.direction = direction;
    o.total_shares = shares;
    o.total_amount = amount;
    o.price = 400_000;
    o
}

/// A market resolved to Hype with `shares` winning shares and `pool` in the
/// losing pool, and a ledger that holds `held` in its first slot.
fn resolved(shares: u64, pool: u64, held: Order) -> (MarketV2, UserTrade) {
    let mut m = trading_market();
    m.hype_shares = shares;
    m.flop_liquidity = pool;
    m.opened_orders = 5;
    m.is_active = false;
    m.winning_direction = WinningDirection::Hype;
    let mut l = UserTrade::new([4u8; 32], 0);
    l.orders[0] = held;
    l.opened_orders = 1;
    (m, l)
}

#[test]
fn losing_order_is_paid_nothing_and_closed() {
    let (mut m, mut l) = resolved(1_000, 50_000, order(OrderDirection::Flop, 400, 150));
    let receipt = payout_order(&mut m, &mut l, &USER, 11, PayoutPolicy::ProportionalPool, 77).unwrap();
    assert_eq!(receipt.payout, 0);
    assert_eq!(receipt.order.is_question_winner, Some(false));
    assert_eq!(receipt.order.refund_amount, Some(0));
    assert_eq!(receipt.order.pnl, -150);
    assert_eq!(receipt.order.order_status, OrderStatus::Closed);
    assert_eq!(receipt.order.timestamp, 77);
    assert_eq!(l.orders[0].status, OrderStatus::Closed);
    assert_eq!(l.opened_orders, 0);
    assert_eq!(l.total_withdraws, 0);
    assert_eq!(m.opened_orders, 4);
    assert!(l.is_well_formed());
}

#[test]
fn losing_order_is_paid_nothing_under_every_rule() {
    for policy in [
        PayoutPolicy::ProportionalPool,
        PayoutPolicy::MedianBlend,
        PayoutPolicy::OneToOneCapped,
    ] {
        let (m, _) = resolved(0, 0, Order::default());
        assert_eq!(calculate_payout(policy, &order(OrderDirection::Flop, 400, 150), &m), Ok(0));
    }
    let mut m = trading_market();
    m.winning_direction = WinningDirection::Flop;
    m.flop_shares = 10;
    assert_eq!(
        calculate_payout(PayoutPolicy::ProportionalPool, &order(OrderDirection::Hype, 4, 1), &m),
        Ok(0)
    );
}

#[test]
fn winner_receives_principal_and_share_of_the_losing_pool() {
    // 400 of 1_000 shares, 50_001 in the losing pool: 20_000.4 -> 20_000
    let (mut m, mut l) = resolved(1_000, 50_001, order(OrderDirection::Hype, 400, 150));
    let before = m;
    let receipt = settle_order(&mut m, &mut l, &USER, 11, 77).unwrap();
    assert_eq!(receipt.payout, 20_000 + 150);
    assert_eq!(receipt.order.is_question_winner, Some(true));
    assert_eq!(receipt.order.refund_amount, Some(20_150));
    assert_eq!(receipt.order.pnl, 20_000);
    assert_eq!(receipt.order.price, 400_000);
    assert_eq!(receipt.order.total_shares, 400);
    assert_eq!(receipt.order.total_amount, 150);
    assert_eq!(receipt.order.user, [4u8; 32]);
    assert_eq!(l.total_withdraws, 20_150);
    assert_eq!(l.opened_orders, 0);
    assert_eq!(l.orders[0].status, OrderStatus::Closed);
    assert_eq!(l.orders[0].order_id, 11);
    assert_eq!(m.opened_orders, 4);
    // pools and shares are frozen
    assert_eq!(m.hype_shares, before.hype_shares);
    assert_eq!(m.flop_liquidity, before.flop_liquidity);
    assert_eq!(m.hype_liquidity, before.hype_liquidity);
    assert_eq!(m.hype_price, before.hype_price);
    assert_eq!(m.update_ts, before.update_ts);
}

#[test]
fn flop_winner_draws_on_the_hype_pool() {
    let mut m = trading_market();
    m.winning_direction = WinningDirection::Flop;
    m.is_active = false;
    m.flop_shares = 8;
    m.hype_liquidity = 100;
    m.flop_liquidity = 1_000_000;
    let o = order(OrderDirection::Flop, 2, 5);
    assert_eq!(calculate_payout(PayoutPolicy::ProportionalPool, &o, &m), Ok(25 + 5));
}

#[test]
fn proportional_payout_rounds_to_nearest_halves_up() {
    // 1/3 of 10 = 3.33
    assert_eq!(payout_proportional(1, 7, 3, 10), Ok(3 + 7));
    // 2/3 of 10 = 6.67
    assert_eq!(payout_proportional(2, 7, 3, 10), Ok(7 + 7));
    // 1/2 of 5 = 2.5
    assert_eq!(payout_proportional(1, 0, 2, 5), Ok(3));
    // 1/4 of 5 = 1.25
    assert_eq!(payout_proportional(1, 0, 4, 5), Ok(1));
    // 3/4 of 5 = 3.75
    assert_eq!(payout_proportional(3, 0, 4, 5), Ok(4));
    // all shares take the whole pool
    assert_eq!(payout_proportional(9, 1, 9, 1_234), Ok(1_235));
    // no shares, no part
    assert_eq!(payout_proportional(0, 12, 9, 1_234), Ok(12));
    // an empty pool returns the principal
    assert_eq!(payout_proportional(5, 12, 9, 0), Ok(12));
    // large figures
    assert_eq!(
        payout_proportional(u64::MAX, 0, u64::MAX, u64::MAX),
        Ok(u64::MAX)
    );
    assert_eq!(
        payout_proportional(u64::MAX / 2, 0, u64::MAX, u64::MAX),
        Ok(u64::MAX / 2)
    );
}

#[test]
fn proportional_payout_refusals() {
    assert_eq!(payout_proportional(1, 0, 0, 5), Err(TriadProtocolError::InvalidPosition));
    assert_eq!(payout_proportional(0, 0, 0, 5), Err(TriadProtocolError::InvalidPosition));
    assert_eq!(payout_proportional(4, 0, 3, 5), Err(TriadProtocolError::InvalidPosition));
    assert_eq!(
        payout_proportional(3, u64::MAX, 3, 1),
        Err(TriadProtocolError::ArithmeticFailure)
    );
    assert_eq!(payout_proportional(3, u64::MAX - 1, 3, 1), Ok(u64::MAX));
}

#[test]
fn winners_together_stay_within_pool_up_to_rounding() {
    // three winners hold all 10 shares; the losing pool holds 1_000
    let pool = 1_000u64;
    let winners = [(5u64, 40u64), (3, 30), (2, 20)];
    let mut paid = 0u64;
    let mut principal = 0u64;
    for (shares, amount) in winners {
        paid += payout_proportional(shares, amount, 10, pool).unwrap();
        principal += amount;
    }
    assert_eq!(paid, 500 + 300 + 200 + 90);
    assert!(paid <= pool + principal);

    // thirds of 10: 3.33 each, rounded down
    let mut paid = 0u64;
    for _ in 0..3 {
        paid += payout_proportional(1, 0, 3, 10).unwrap();
    }
    assert_eq!(paid, 9);

    // halves of 1: half a unit each, rounded up: one unit more than the pool
    let mut paid = 0u64;
    for _ in 0..2 {
        paid += payout_proportional(1, 0, 2, 1).unwrap();
    }
    assert_eq!(paid, 2);
    assert!(2 * paid <= 2 * 1 + 2);
}

#[test]
fn blended_payout() {
    // the pool covers all shares: one unit per share
    assert_eq!(payout_blended(400, 150, 1_000, 1_000), 400);
    assert_eq!(payout_blended(400, 150, 1_000, 5_000), 400);
    assert_eq!(payout_blended(400, 150, 0, 0), 400);
    // the pool covers half: 150 + 250 * 0.5
    assert_eq!(payout_blended(400, 150, 1_000, 500), 275);
    // 150 + 250 * 0.333 = 233.25
    assert_eq!(payout_blended(400, 150, 1_000, 333), 233);
    // 150 + 250 * 0.002 = 150.5
    assert_eq!(payout_blended(400, 150, 1_000, 2), 151);
    // an empty pool returns the principal
    assert_eq!(payout_blended(400, 150, 1_000, 0), 150);
    // shares worth less than the principal: 150 - 50 * 0.5
    assert_eq!(payout_blended(100, 150, 1_000, 500), 125);
    // 150 - 50 * 0.25 = 137.5
    assert_eq!(payout_blended(100, 150, 1_000, 250), 138);
    // 150 - 50 * 0.26 = 137
    assert_eq!(payout_blended(100, 150, 1_000, 260), 137);
    // 150 - 50 * 0.27 = 136.5
    assert_eq!(payout_blended(100, 150, 1_000, 270), 137);
    // 150 - 50 * 0.999 = 100.05
    assert_eq!(payout_blended(100, 150, 1_000, 999), 100);
    assert_eq!(payout_blended(u64::MAX, 0, u64::MAX, u64::MAX - 1), u64::MAX - 1);
    assert_eq!(payout_blended(0, u64::MAX, u64::MAX, u64::MAX - 1), 1);
}

#[test]
fn capped_payout() {
    // the pool started with 5_000_000_000 and gained 1_000: covers 1_000 shares
    assert_eq!(payout_capped(400, 150, 1_000, 5_000_001_000, 10_000_000_000), Ok(400));
    assert_eq!(payout_capped(400, 150, 999, 5_000_001_000, 10_000_000_000), Ok(400));
    // gained 500 of 1_000: 150 + 0.4 * 500 = 350
    assert_eq!(payout_capped(400, 150, 1_000, 5_000_000_500, 10_000_000_000), Ok(350));
    // gained 999: 150 + 399.6 = 549.6, capped at the shares
    assert_eq!(payout_capped(400, 150, 1_000, 5_000_000_999, 10_000_000_000), Ok(400));
    // gained nothing: the principal
    assert_eq!(payout_capped(400, 150, 1_000, 5_000_000_000, 10_000_000_000), Ok(150));
    // a principal above the shares is capped too
    assert_eq!(payout_capped(100, 150, 1_000, 5_000_000_000, 10_000_000_000), Ok(100));
    // gained 3 of 8: 0.375 * 4 = 1.5, rounded up
    assert_eq!(payout_capped(4, 1, 8, 103, 200), Ok(3));
    // no recorded start: 500_000_000 is assumed
    assert_eq!(payout_capped(400, 150, 1_000, 500_000_500, 0), Ok(350));
    assert_eq!(payout_capped(400, 150, 1_000, 499_999_999, 0), Err(TriadProtocolError::ArithmeticFailure));
    // the pool holds less than it started with
    assert_eq!(
        payout_capped(400, 150, 1_000, 4_999_999_999, 10_000_000_000),
        Err(TriadProtocolError::ArithmeticFailure)
    );
    // an odd start is halved downwards
    assert_eq!(payout_capped(4, 1, 8, 3, 7), Ok(1));
}

#[test]
fn payout_order_follows_the_policy() {
    let held = order(OrderDirection::Hype, 400, 150);
    let (mut m, mut l) = resolved(1_000, 500, held);
    let receipt = payout_order(&mut m, &mut l, &USER, 11, PayoutPolicy::MedianBlend, 77).unwrap();
    assert_eq!(receipt.payout, 275);
    assert_eq!(receipt.order.pnl, 125);

    let (mut m, mut l) = resolved(1_000, 5_000_000_500, held);
    let receipt = payout_order(&mut m, &mut l, &USER, 11, PayoutPolicy::OneToOneCapped, 77).unwrap();
    assert_eq!(receipt.payout, 350);

    let (mut m, mut l) = resolved(1_000, 500, held);
    let receipt = payout_order(&mut m, &mut l, &USER, 11, PayoutPolicy::ProportionalPool, 77).unwrap();
    assert_eq!(receipt.payout, 350);
}

#[test]
fn settling_twice_is_refused() {
    let (mut m, mut l) = resolved(1_000, 50_000, order(OrderDirection::Hype, 400, 150));
    settle_order(&mut m, &mut l, &USER, 11, 77).unwrap();
    let before = (m, l.clone());
    assert_eq!(settle_order(&mut m, &mut l, &USER, 11, 78), Err(TriadProtocolError::OrderNotFound));
    assert_eq!(
        payout_order(&mut m, &mut l, &USER, 11, PayoutPolicy::MedianBlend, 78),
        Err(TriadProtocolError::OrderNotFound)
    );
    assert_eq!((m, l.clone()), before);
    assert_eq!(l.total_withdraws, 20_150);
}

#[test]
fn settling_twice_meets_another_markets_order() {
    let (mut m, mut l) = resolved(1_000, 50_000, order(OrderDirection::Hype, 400, 150));
    let mut other = order(OrderDirection::Hype, 10, 10);
    other.market_id = 4;
    l.orders[1] = other;
    l.opened_orders = 2;
    settle_order(&mut m, &mut l, &USER, 11, 77).unwrap();
    assert_eq!(settle_order(&mut m, &mut l, &USER, 11, 78), Err(TriadProtocolError::OrderNotOpen));
    assert_eq!(l.orders[1], other);
}

#[test]
fn second_order_of_the_same_id_is_paid_next() {
    let (mut m, mut l) = resolved(1_000, 50_000, order(OrderDirection::Hype, 400, 150));
    l.orders[5] = order(OrderDirection::Hype, 100, 20);
    l.opened_orders = 2;
    assert_eq!(settle_order(&mut m, &mut l, &USER, 11, 77).unwrap().payout, 20_150);
    assert_eq!(settle_order(&mut m, &mut l, &USER, 11, 78).unwrap().payout, 5_020);
    assert_eq!(settle_order(&mut m, &mut l, &USER, 11, 79), Err(TriadProtocolError::OrderNotFound));
}

#[test]
fn payout_refusals() {
    let held = order(OrderDirection::Hype, 400, 150);
    let (m, l) = resolved(1_000, 50_000, held);

    let (mut m1, mut l1) = (m, l.clone());
    assert_eq!(settle_order(&mut m1, &mut l1, &STRANGER, 11, 77), Err(TriadProtocolError::Unauthorized));
    assert_eq!(settle_order(&mut m1, &mut l1, &ADMIN, 11, 77), Err(TriadProtocolError::Unauthorized));
    assert_eq!(settle_order(&mut m1, &mut l1, &USER, 12, 77), Err(TriadProtocolError::OrderNotFound));

    let mut open = m;
    open.winning_direction = WinningDirection::Unresolved;
    open.is_active = true;
    assert_eq!(
        settle_order(&mut open, &mut l1, &USER, 11, 77),
        Err(TriadProtocolError::MarketNotResolved)
    );

    let mut elsewhere = m;
    elsewhere.market_id = 99;
    assert_eq!(
        settle_order(&mut elsewhere, &mut l1, &USER, 11, 77),
        Err(TriadProtocolError::OrderNotOpen)
    );

    // more shares than the market issued
    let mut short = m;
    short.hype_shares = 399;
    assert_eq!(
        settle_order(&mut short, &mut l1, &USER, 11, 77),
        Err(TriadProtocolError::InvalidPosition)
    );
    short.hype_shares = 0;
    assert_eq!(
        settle_order(&mut short, &mut l1, &USER, 11, 77),
        Err(TriadProtocolError::InvalidPosition)
    );

    // totals without room
    let mut spent = l.clone();
    spent.total_withdraws = u64::MAX;
    assert_eq!(
        settle_order(&mut m1, &mut spent, &USER, 11, 77),
        Err(TriadProtocolError::ArithmeticFailure)
    );
    let mut none = m;
    none.opened_orders = 0;
    assert_eq!(
        settle_order(&mut none, &mut l1, &USER, 11, 77),
        Err(TriadProtocolError::ArithmeticFailure)
    );
    let mut miscounted = l.clone();
    miscounted.opened_orders = 0;
    assert_eq!(
        settle_order(&mut m1, &mut miscounted, &USER, 11, 77),
        Err(TriadProtocolError::ArithmeticFailure)
    );
    assert_eq!((m1, l1), (m, l));
}

#[test]
fn order_closed_early_is_not_paid_later() {
    let mut m = trading_market();
    let mut l = UserTrade::new([4u8; 32], 0);
    let args = OpenOrderArgs {
        amount: 2_000_000,
        direction: OrderDirection::Hype,
        leverage: None,
        comment: None,
    };
    open_order(&mut m, &mut l, &USER, args, 200).unwrap();
    close_order(&mut m, &mut l, &USER, 0, 201).unwrap();
    resolve_market(&mut m, &ADMIN, WinningDirection::Hype, 300).unwrap();
    assert_eq!(settle_order(&mut m, &mut l, &USER, 0, 301), Err(TriadProtocolError::OrderNotFound));
}

#[test]
fn whole_life_of_two_orders() {
    let mut m = trading_market();
    let mut ann = UserTrade::new([1u8; 32], 0);
    let mut bob = UserTrade::new([2u8; 32], 0);
    let a = OpenOrderArgs {
        amount: 100_000_000,
        direction: OrderDirection::Hype,
        leverage: None,
        comment: None,
    };
    let b = OpenOrderArgs {
        amount: 40_000_000,
        direction: OrderDirection::Flop,
        leverage: None,
        comment: None,
    };
    let opened_a = open_order(&mut m, &mut ann, &USER, a, 200).unwrap();
    let opened_b = open_order(&mut m, &mut bob, &USER, b, 201).unwrap();
    assert_eq!(opened_a.order.order_id, 0);
    assert_eq!(opened_b.order.order_id, 1);
    assert_eq!(m.opened_orders, 2);

    // nothing is paid while the market trades
    assert_eq!(settle_order(&mut m, &mut ann, &USER, 0, 250), Err(TriadProtocolError::MarketNotResolved));

    let notice = resolve_market(&mut m, &ADMIN, WinningDirection::Hype, 300).unwrap();
    assert_eq!(notice.winning_direction, WinningDirection::Hype);
    assert_eq!(notice.total_hype_shares, m.hype_shares);
    assert_eq!(notice.hype_liquidity, m.hype_liquidity);
    assert_eq!(notice.final_hype_price, m.hype_price);
    assert_eq!(notice.final_flop_price, m.flop_price);
    assert_eq!(notice.market_id, 3);
    assert_eq!(notice.start_time, 100);
    assert_eq!(notice.end_time, 10_000);
    assert_eq!(notice.timestamp, 300);

    // no trade after resolution
    assert_eq!(open_order(&mut m, &mut ann, &USER, a, 301), Err(TriadProtocolError::MarketInactive));
    assert_eq!(close_order(&mut m, &mut ann, &USER, 0, 301), Err(TriadProtocolError::MarketInactive));

    // the only winner holds all winning shares and takes the whole losing pool
    let paid_a = settle_order(&mut m, &mut ann, &USER, 0, 302).unwrap();
    assert_eq!(paid_a.payout, m.flop_liquidity + opened_a.order.total_amount);
    assert_eq!(paid_a.order.is_question_winner, Some(true));
    let paid_b = settle_order(&mut m, &mut bob, &USER, 1, 303).unwrap();
    assert_eq!(paid_b.payout, 0);
    assert_eq!(paid_b.order.is_question_winner, Some(false));
    assert_eq!(paid_b.order.pnl, -(opened_b.order.total_amount as i64));
    assert_eq!(m.opened_orders, 0);
    assert!(m.is_well_formed());
    assert!(ann.is_well_formed());
    assert!(bob.is_well_formed());
}
