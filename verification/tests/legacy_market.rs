use triad_protocol::state::market::{Fill, Market, MAX_PRICE_IMPACT};
use triad_protocol::state::order::{Order, OrderDirection, OrderStatus, OrderType};

#[test]
fn first_generation_defaults() {
    let m = Market::default();
    assert_eq!(m.hype_price, 500_000);
    assert_eq!(m.flop_price, 500_000);
    assert_eq!(m.hype_liquidity, 0);
    assert_eq!(m.flop_liquidity, 0);
    assert_eq!(m.fee_bps, 300);
    assert_eq!(m.market_price, 0);
    assert_eq!(m.name, "");
    assert!(m.is_active);
    assert!(m.is_official);
    assert_eq!(MAX_PRICE_IMPACT, 100_000);
}

#[test]
fn first_generation_order_ids() {
    let mut m = Market::default();
    assert_eq!(m.next_order_id(), 0);
    assert_eq!(m.next_order_id(), 1);
    m.next_order_id = u64::MAX;
    assert_eq!(m.next_order_id(), u64::MAX);
    assert_eq!(m.next_order_id, 0);
}

#[test]
fn shares_at_the_current_price() {
    let mut m = Market::default();
    assert_eq!(m.calculate_shares(1_000, OrderDirection::Hype), 2_000);
    m.flop_price = 300_000;
    assert_eq!(m.calculate_shares(1_000, OrderDirection::Flop), 3_333);
    assert_eq!(m.calculate_shares(0, OrderDirection::Flop), 0);
    assert_eq!(m.calculate_shares(18_446_744_073_709, OrderDirection::Hype), 36_893_488_147_418);
}

#[test]
fn share_totals_saturate() {
    let mut m = Market::default();
    m.update_shares(5, OrderDirection::Hype);
    m.update_shares(7, OrderDirection::Flop);
    assert_eq!(m.total_hype_shares, 5);
    assert_eq!(m.total_flop_shares, 7);
    m.update_shares(u64::MAX, OrderDirection::Hype);
    assert_eq!(m.total_hype_shares, u64::MAX);
    assert_eq!(m.total_flop_shares, 7);
}

#[test]
fn price_rises_by_a_tenth_at_most() {
    let mut m = Market::default();
    m.market_id = 4;
    let notice = m.update_price(50_000, OrderDirection::Hype, OrderType::Market, Some([1u8; 64]), 9);
    assert_eq!(m.hype_price, 525_000);
    assert_eq!(m.flop_price, 475_000);
    assert_eq!(m.market_price, 525_000);
    assert_eq!(m.update_ts, 9);
    assert_eq!(notice.market_id, 4);
    assert_eq!(notice.hype_price, 525_000);
    assert_eq!(notice.flop_price, 475_000);
    assert_eq!(notice.market_price, 525_000);
    assert_eq!(notice.timestamp, 9);
    assert_eq!(notice.comment, Some([1u8; 64]));

    let notice = m.update_price(u64::MAX, OrderDirection::Flop, OrderType::Limit, Some([1u8; 64]), 10);
    assert_eq!(m.flop_price, 522_500);
    assert_eq!(m.hype_price, 477_500);
    assert_eq!(m.market_price, 522_500);
    assert_eq!(notice.comment, None);

    // truncation: 477_500 * 3 / 1_000_000 = 1.4
    m.update_price(3, OrderDirection::Hype, OrderType::Market, None, 11);
    assert_eq!(m.hype_price, 477_501);
    assert_eq!(m.flop_price, 522_499);
}

#[test]
fn prices_stay_in_range_and_add_up() {
    let mut m = Market::default();
    m.hype_price = 950_000;
    m.flop_price = 50_000;
    m.update_price(1_000_000, OrderDirection::Hype, OrderType::Market, None, 1);
    assert_eq!(m.hype_price, 999_999);
    assert_eq!(m.flop_price, 1);
    assert_eq!(m.hype_price + m.flop_price, 1_000_000);
    assert_eq!(m.market_price, 999_999);
    assert_eq!(m.get_winning_direction(), Some(OrderDirection::Hype));

    // a price of nothing is raised to the least price
    m.flop_price = 0;
    m.update_price(100_000, OrderDirection::Flop, OrderType::Market, None, 2);
    assert_eq!(m.flop_price, 1);
    assert_eq!(m.hype_price, 999_999);

    // a price beyond the range is brought back into it
    m.hype_price = u64::MAX;
    m.update_price(0, OrderDirection::Hype, OrderType::Market, None, 3);
    assert_eq!(m.hype_price, 999_999);
    assert_eq!(m.flop_price, 1);

    let mut m = Market::default();
    for round in 0..60u64 {
        let side = if round % 4 == 0 { OrderDirection::Flop } else { OrderDirection::Hype };
        m.update_price(30_000 * round, side, OrderType::Market, None, round as i64);
        assert_eq!(m.hype_price + m.flop_price, 1_000_000);
        assert!(1 <= m.hype_price && m.hype_price <= 999_999);
        assert!(1 <= m.flop_price && m.flop_price <= 999_999);
        assert_eq!(m.market_price, m.hype_price.max(m.flop_price));
    }
}

#[test]
fn winning_direction_is_the_dearer_side() {
    let mut m = Market::default();
    assert_eq!(m.get_winning_direction(), None);
    m.flop_price = 500_001;
    assert_eq!(m.get_winning_direction(), Some(OrderDirection::Flop));
    m.hype_price = 500_002;
    assert_eq!(m.get_winning_direction(), Some(OrderDirection::Hype));
}

#[test]
fn order_is_filled_against_the_other_pool() {
    let mut m = Market::default();
    m.hype_liquidity = 1_000;
    m.flop_liquidity = 600;
    let mut o = Order::default();
    o.status = OrderStatus::Open;
    o.direction = OrderDirection::Hype;
    o.order_type = OrderType::Limit;
    o.total_amount = 1_000;
    let mut progress = Fill { filled_amount: 0, filled_shares: 0 };

    // only 600 are there
    let filled = m.fill_order_internal(&mut o, &mut progress, 1_000, 5);
    assert_eq!(filled, (600, 1_200));
    assert_eq!(progress, Fill { filled_amount: 600, filled_shares: 1_200 });
    assert_eq!(o.status, OrderStatus::Open);
    assert_eq!(m.hype_liquidity, 1_600);
    assert_eq!(m.flop_liquidity, 0);
    // the price rose by a tenth
    assert_eq!(m.hype_price, 550_000);
    assert_eq!(m.flop_price, 450_000);
    assert_eq!(m.update_ts, 5);

    // nothing is left to fill against
    let before = m.clone();
    let filled = m.fill_order_internal(&mut o, &mut progress, 400, 6);
    assert_eq!(filled, (0, 0));
    assert_eq!(m, before);
    assert_eq!(progress.filled_amount, 600);

    m.flop_liquidity = 5_000;
    let filled = m.fill_order_internal(&mut o, &mut progress, 400, 7);
    assert_eq!(filled, (400, 727));
    assert_eq!(progress, Fill { filled_amount: 1_000, filled_shares: 1_927 });
    assert_eq!(o.status, OrderStatus::Filled);
    assert_eq!(m.hype_liquidity, 2_000);
    assert_eq!(m.flop_liquidity, 4_600);
    assert_eq!(m.hype_price, 605_000);
}
