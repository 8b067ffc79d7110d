use triad_protocol::auth::Authorization;
use triad_protocol::errors::TriadProtocolError;
use triad_protocol::instructions::close_order::close_order;
use triad_protocol::instructions::create_user_trade::create_user_trade;
use triad_protocol::instructions::initialize_market::initialize_market;
use triad_protocol::instructions::open_order::open_order;
use triad_protocol::state::market_v2::{InitializeMarketArgs, MarketV2, WinningDirection};
use triad_protocol::state::order::{OpenOrderArgs, Order, OrderDirection, OrderStatus, OrderType};
use triad_protocol::state::user_trade::UserTrade;

const USER: Authorization = Authorization { is_admin: false, is_owner: true };
const ADMIN: Authorization = Authorization { is_admin: true, is_owner: false };
const STRANGER: Authorization = Authorization { is_admin: false, is_owner: false };

fn market() -> MarketV2 {
    let args = InitializeMarketArgs {
        name: String::from("rain"),
        market_id: 7,
        question: [0u8; 80],
        start_time: 100,
        end_time: 10_000,
    };
    initialize_market(&ADMIN, args, [1u8; 32], [2u8; 32], 254, 50).unwrap()
}

fn ledger() -> UserTrade {
    create_user_trade(&USER, [9u8; 32], 3).unwrap()
}

fn hype(amount: u64) -> OpenOrderArgs {
    OpenOrderArgs { amount, direction: OrderDirection::Hype, leverage: None, comment: None }
}

fn flop(amount: u64) -> OpenOrderArgs {
    OpenOrderArgs { amount, direction: OrderDirection::Flop, leverage: None, comment: None }
}

#[test]
fn initialized_market_has_the_starting_figures() {
    let m = market();
    assert_eq!(m.market_id, 7);
    assert_eq!(m.bump, 254);
    assert_eq!(m.authority, [1u8; 32]);
    assert_eq!(m.mint, [2u8; 32]);
    assert_eq!(m.hype_price, 500_000);
    assert_eq!(m.flop_price, 500_000);
    assert_eq!(m.hype_liquidity, 5_000_000_000);
    assert_eq!(m.flop_liquidity, 5_000_000_000);
    assert_eq!(m.hype_shares, 0);
    assert_eq!(m.flop_shares, 0);
    assert_eq!(m.volume, 0);
    assert_eq!(m.opened_orders, 0);
    assert_eq!(m.next_order_id, 0);
    assert_eq!(m.fee_bps, 2100);
    assert_eq!(m.market_start, 100);
    assert_eq!(m.market_end, 10_000);
    assert_eq!(m.update_ts, 50);
    assert_eq!(m.market_liquidity_at_start, 10_000_000_000);
    assert_eq!(m.winning_direction, WinningDirection::Unresolved);
    assert!(m.is_active);
    assert!(m.is_well_formed());
}

#[test]
fn only_an_administrator_creates_a_market() {
    let args = InitializeMarketArgs {
        name: String::new(),
        market_id: 1,
        question: [0u8; 80],
        start_time: 0,
        end_time: 1,
    };
    assert_eq!(
        initialize_market(&USER, args, [0u8; 32], [0u8; 32], 0, 0),
        Err(TriadProtocolError::Unauthorized)
    );
}

#[test]
fn new_ledger_has_ten_empty_slots() {
    let l = ledger();
    assert_eq!(l.orders.len(), 10);
    assert_eq!(l.opened_orders, 0);
    assert_eq!(l.total_deposits, 0);
    assert_eq!(l.total_withdraws, 0);
    assert_eq!(l.authority, [9u8; 32]);
    assert_eq!(l.bump, 3);
    for slot in l.orders.iter() {
        assert_eq!(*slot, Order::default());
        assert_eq!(slot.status, OrderStatus::Init);
    }
    assert!(l.is_well_formed());
    assert_eq!(create_user_trade(&STRANGER, [9u8; 32], 3), Err(TriadProtocolError::Unauthorized));
}

#[test]
fn open_hype_order_moves_price_and_pool() {
    let mut m = market();
    let mut l = ledger();
    let receipt = open_order(&mut m, &mut l, &USER, hype(1_000_000), 200).unwrap();

    // fee 2.1 % of 1_000_000
    assert_eq!(receipt.transfer_amount, 1_000_000);
    assert_eq!(receipt.order.total_amount, 979_000);
    assert_eq!(m.nft_holders_fee_available + m.market_fee_available, 21_000);
    assert_eq!(m.nft_holders_fee_available, 210);
    assert_eq!(m.market_fee_available, 20_790);

    assert!(m.hype_price > 500_000);
    assert_eq!(m.hype_price, 500_047);
    assert_eq!(m.flop_price, 1_000_000 - m.hype_price);
    assert_eq!(m.hype_liquidity, 5_000_000_000 + 979_000);
    assert_eq!(m.flop_liquidity, 5_000_000_000);

    assert_eq!(m.hype_shares, 1_957_812);
    assert_eq!(m.flop_shares, 0);
    assert_eq!(m.volume, 979_000);
    assert_eq!(m.opened_orders, 1);
    assert_eq!(m.next_order_id, 1);
    assert_eq!(m.update_ts, 200);

    assert_eq!(l.opened_orders, 1);
    assert_eq!(l.total_deposits, 979_000);
    let order = l.orders[0];
    assert_eq!(order.status, OrderStatus::Open);
    assert_eq!(order.order_id, 0);
    assert_eq!(order.market_id, 7);
    // the order is entered at the price of the pools, the market steps toward it
    assert_eq!(order.price, 500_048);
    assert_eq!(order.total_amount, 979_000);
    assert_eq!(order.total_shares, 1_957_812);
    assert_eq!(receipt.order.price, 500_048);
    assert_eq!(receipt.order.total_shares, 1_957_812);
    assert_eq!(order.direction, OrderDirection::Hype);
    assert_eq!(order.order_type, OrderType::Market);
    assert_eq!(order.ts, 200);

    assert_eq!(receipt.order.order_status, OrderStatus::Open);
    assert_eq!(receipt.order.user, [9u8; 32]);
    assert_eq!(receipt.order.pnl, 0);
    assert_eq!(receipt.order.refund_amount, None);
    assert_eq!(receipt.price.hype_price, 500_047);
    assert_eq!(receipt.price.flop_price, 499_953);
    assert_eq!(receipt.price.market_id, 7);
    assert_eq!(receipt.price.timestamp, 200);
    assert_eq!(receipt.price.new_price(), 500_047);
    assert!(m.is_well_formed());
    assert!(l.is_well_formed());
}

#[test]
fn open_flop_order_moves_the_other_side() {
    let mut m = market();
    let mut l = ledger();
    open_order(&mut m, &mut l, &USER, flop(1_000_000), 200).unwrap();
    assert_eq!(m.flop_price, 500_047);
    assert_eq!(m.hype_price, 499_953);
    assert_eq!(m.flop_liquidity, 5_000_979_000);
    assert_eq!(m.hype_liquidity, 5_000_000_000);
    assert_eq!(m.flop_shares, 1_957_812);
    assert_eq!(m.hype_shares, 0);
}

#[test]
fn leverage_multiplies_shares_not_the_pool() {
    let mut m = market();
    let mut l = ledger();
    let args = OpenOrderArgs {
        amount: 1_000_000,
        direction: OrderDirection::Hype,
        leverage: Some(2),
        comment: Some([7u8; 64]),
    };
    let receipt = open_order(&mut m, &mut l, &USER, args, 200).unwrap();
    // target 500_097, step 95
    assert_eq!(m.hype_price, 500_095);
    assert_eq!(l.orders[0].price, 500_097);
    assert_eq!(m.hype_liquidity, 5_000_979_000);
    assert_eq!(m.volume, 1_958_000);
    assert_eq!(l.orders[0].total_shares, 3_915_240);
    assert_eq!(m.hype_shares, 3_915_240);
    assert_eq!(l.orders[0].total_amount, 979_000);
    assert_eq!(l.orders[0].leverage, Some(2));
    assert_eq!(l.total_deposits, 979_000);
    assert_eq!(receipt.order.comment, Some([7u8; 64]));
}

#[test]
fn prices_add_up_after_every_trade() {
    let mut m = market();
    let mut l = ledger();
    let mut ts = 200;
    for round in 0..40u64 {
        let args = if round % 3 == 0 { flop(5_000_000 + round) } else { hype(900_000_000 + round) };
        ts += 1;
        let opened = open_order(&mut m, &mut l, &USER, args, ts).unwrap();
        assert_eq!(m.hype_price + m.flop_price, 1_000_000);
        assert!(1 <= m.hype_price && m.hype_price <= 999_999);
        assert!(1 <= m.flop_price && m.flop_price <= 999_999);
        if round % 2 == 0 {
            ts += 1;
            close_order(&mut m, &mut l, &USER, opened.order.order_id, ts).unwrap();
            assert_eq!(m.hype_price + m.flop_price, 1_000_000);
            assert!(1 <= m.hype_price && m.hype_price <= 999_999);
        } else if l.opened_orders == 10 {
            break;
        }
        assert!(m.is_well_formed());
        assert!(l.is_well_formed());
    }
}

#[test]
fn second_trade_at_the_same_time_is_refused() {
    let mut m = market();
    let mut l = ledger();
    open_order(&mut m, &mut l, &USER, hype(1_000_000), 200).unwrap();
    let before = (m, l.clone());
    assert_eq!(
        open_order(&mut m, &mut l, &USER, hype(1_000_000), 200),
        Err(TriadProtocolError::ConcurrentTransaction)
    );
    assert_eq!(
        open_order(&mut m, &mut l, &USER, flop(1_000_000), 150),
        Err(TriadProtocolError::ConcurrentTransaction)
    );
    assert_eq!(
        close_order(&mut m, &mut l, &USER, 0, 200),
        Err(TriadProtocolError::ConcurrentTransaction)
    );
    assert_eq!((m, l.clone()), before);
    assert!(TriadProtocolError::ConcurrentTransaction.is_retryable());
    assert!(!TriadProtocolError::OrderNotFound.is_retryable());
    // a later time is taken
    assert!(open_order(&mut m, &mut l, &USER, hype(1_000_000), 201).is_ok());
    // another user's ledger is held to the same clock
    let mut other = ledger();
    assert_eq!(
        open_order(&mut m, &mut other, &USER, hype(1_000_000), 201),
        Err(TriadProtocolError::ConcurrentTransaction)
    );
}

#[test]
fn eleventh_order_is_refused_and_a_closed_slot_is_reused() {
    let mut m = market();
    let mut l = ledger();
    for n in 0..10 {
        open_order(&mut m, &mut l, &USER, hype(1_000_000), 200 + n).unwrap();
    }
    assert_eq!(l.opened_orders, 10);
    let before = (m, l.clone());
    assert_eq!(
        open_order(&mut m, &mut l, &USER, hype(1_000_000), 300),
        Err(TriadProtocolError::NoAvailableOrderSlot)
    );
    assert_eq!((m, l.clone()), before);

    close_order(&mut m, &mut l, &USER, 4, 301).unwrap();
    assert_eq!(l.opened_orders, 9);
    assert_eq!(l.orders[4], Order::default());

    let receipt = open_order(&mut m, &mut l, &USER, flop(2_000_000), 302).unwrap();
    assert_eq!(receipt.order.order_id, 10);
    assert_eq!(l.orders[4].order_id, 10);
    assert_eq!(l.orders[4].status, OrderStatus::Open);
    assert_eq!(l.orders[4].direction, OrderDirection::Flop);
    assert_eq!(l.opened_orders, 10);
    assert!(l.is_well_formed());
}

#[test]
fn smaller_ledger_has_its_own_limit() {
    let mut m = market();
    let mut l = UserTrade::with_capacity([0u8; 32], 0, 2);
    open_order(&mut m, &mut l, &USER, hype(1_000_000), 200).unwrap();
    open_order(&mut m, &mut l, &USER, hype(1_000_000), 201).unwrap();
    assert_eq!(
        open_order(&mut m, &mut l, &USER, hype(1_000_000), 202),
        Err(TriadProtocolError::NoAvailableOrderSlot)
    );
    let mut none = UserTrade::with_capacity([0u8; 32], 0, 0);
    assert_eq!(
        open_order(&mut m, &mut none, &USER, hype(1_000_000), 202),
        Err(TriadProtocolError::NoAvailableOrderSlot)
    );
}

#[test]
fn open_order_refusals() {
    let mut l = ledger();

    let mut m = market();
    assert_eq!(
        open_order(&mut m, &mut l, &STRANGER, hype(1_000_000), 200),
        Err(TriadProtocolError::Unauthorized)
    );
    assert_eq!(
        open_order(&mut m, &mut l, &ADMIN, hype(1_000_000), 200),
        Err(TriadProtocolError::Unauthorized)
    );

    m.is_active = false;
    assert_eq!(
        open_order(&mut m, &mut l, &USER, hype(1_000_000), 200),
        Err(TriadProtocolError::MarketInactive)
    );

    let mut m = market();
    assert_eq!(
        open_order(&mut m, &mut l, &USER, hype(1_000_000), 100),
        Err(TriadProtocolError::QuestionPeriodNotStarted)
    );
    assert_eq!(
        open_order(&mut m, &mut l, &USER, hype(1_000_000), 10_000),
        Err(TriadProtocolError::QuestionPeriodEnded)
    );
    assert_eq!(
        open_order(&mut m, &mut l, &USER, hype(1_000_000), 20_000),
        Err(TriadProtocolError::QuestionPeriodEnded)
    );

    m.hype_price = 0;
    assert_eq!(
        open_order(&mut m, &mut l, &USER, hype(1_000_000), 200),
        Err(TriadProtocolError::InvalidPrice)
    );

    let mut m = market();
    m.flop_liquidity = 0;
    assert_eq!(
        open_order(&mut m, &mut l, &USER, hype(1_000_000), 200),
        Err(TriadProtocolError::InsufficientLiquidity)
    );
    let mut m = market();
    m.hype_liquidity = 0;
    assert_eq!(
        open_order(&mut m, &mut l, &USER, hype(1_000_000), 200),
        Err(TriadProtocolError::InsufficientLiquidity)
    );

    // what is committed has to exceed the price: 510_725 - 10_725 = 500_000
    let mut m = market();
    assert_eq!(
        open_order(&mut m, &mut l, &USER, hype(510_725), 200),
        Err(TriadProtocolError::InsufficientFunds)
    );
    assert!(open_order(&mut m, &mut ledger(), &USER, hype(510_726), 200).is_ok());

    // no leverage, no shares
    let mut m = market();
    let zero = OpenOrderArgs {
        amount: 1_000_000,
        direction: OrderDirection::Hype,
        leverage: Some(0),
        comment: None,
    };
    assert_eq!(open_order(&mut m, &mut l, &USER, zero, 200), Err(TriadProtocolError::InsufficientFunds));

    let huge = OpenOrderArgs {
        amount: 1_000_000,
        direction: OrderDirection::Hype,
        leverage: Some(u64::MAX),
        comment: None,
    };
    assert_eq!(open_order(&mut m, &mut l, &USER, huge, 200), Err(TriadProtocolError::ArithmeticFailure));

    // shares that do not fit: the whole range at a price below one
    let mut free = market();
    free.fee_bps = 0;
    assert_eq!(
        open_order(&mut free, &mut l, &USER, hype(u64::MAX), 200),
        Err(TriadProtocolError::ArithmeticFailure)
    );

    // a total without room
    let mut m = market();
    m.volume = u64::MAX;
    assert_eq!(
        open_order(&mut m, &mut l, &USER, hype(1_000_000), 200),
        Err(TriadProtocolError::ArithmeticFailure)
    );
    assert_eq!(l, ledger());
}

#[test]
fn order_ids_wrap() {
    let mut m = market();
    let mut l = ledger();
    m.next_order_id = u64::MAX;
    let receipt = open_order(&mut m, &mut l, &USER, hype(1_000_000), 200).unwrap();
    assert_eq!(receipt.order.order_id, u64::MAX);
    assert_eq!(m.next_order_id, 0);
    let mut m2 = market();
    assert_eq!(m2.next_order_id(), 0);
    assert_eq!(m2.next_order_id(), 1);
    assert_eq!(m2.next_order_id, 2);
}

#[test]
fn close_returns_the_current_worth() {
    let mut m = market();
    let mut l = ledger();
    open_order(&mut m, &mut l, &USER, hype(1_000_000), 200).unwrap();
    let receipt = close_order(&mut m, &mut l, &USER, 0, 201).unwrap();

    // 1_957_812 shares at 500_047
    assert_eq!(receipt.refund_amount, 978_998);
    assert_eq!(receipt.order.refund_amount, Some(978_998));
    assert_eq!(receipt.order.pnl, -2);
    assert_eq!(receipt.order.order_status, OrderStatus::Closed);
    assert_eq!(receipt.order.price, 500_047);
    assert_eq!(receipt.order.total_amount, 979_000);
    assert_eq!(receipt.order.total_shares, 1_957_812);
    assert_eq!(receipt.order.is_question_winner, None);
    assert_eq!(receipt.order.timestamp, 201);

    assert_eq!(m.hype_liquidity, 5_000_979_000 - 978_998);
    assert_eq!(m.flop_liquidity, 5_000_000_000);
    assert_eq!(m.hype_shares, 0);
    assert_eq!(m.volume, 979_000 + 978_998);
    assert_eq!(m.opened_orders, 0);
    assert_eq!(m.update_ts, 201);
    // target 500_000, gap 47, step 46
    assert_eq!(m.hype_price, 500_001);
    assert_eq!(m.flop_price, 499_999);
    let notice = receipt.price.unwrap();
    assert_eq!(notice.hype_price, 500_001);
    assert_eq!(notice.flop_price, 499_999);
    assert_eq!(notice.direction, OrderDirection::Hype);

    assert_eq!(l.opened_orders, 0);
    assert_eq!(l.total_withdraws, 978_998);
    assert_eq!(l.orders[0], Order::default());
    assert!(m.is_well_formed());
    assert!(l.is_well_formed());
}

#[test]
fn close_without_liquidity_changes_nothing() {
    let mut m = market();
    let mut l = ledger();
    open_order(&mut m, &mut l, &USER, hype(1_000_000), 200).unwrap();
    // the order is worth 978_998
    m.hype_liquidity = 978_998;
    let before = (m, l.clone());
    assert_eq!(
        close_order(&mut m, &mut l, &USER, 0, 201),
        Err(TriadProtocolError::InsufficientLiquidity)
    );
    assert_eq!((m, l.clone()), before);
    m.hype_liquidity = 978_997;
    assert_eq!(
        close_order(&mut m, &mut l, &USER, 0, 201),
        Err(TriadProtocolError::InsufficientLiquidity)
    );
    m.hype_liquidity = 978_999;
    assert!(close_order(&mut m, &mut l, &USER, 0, 201).is_ok());
    assert_eq!(m.hype_liquidity, 1);
}

#[test]
fn close_refusals() {
    let mut m = market();
    let mut l = ledger();
    open_order(&mut m, &mut l, &USER, hype(1_000_000), 200).unwrap();
    let before = (m, l.clone());

    assert_eq!(close_order(&mut m, &mut l, &STRANGER, 0, 201), Err(TriadProtocolError::Unauthorized));
    assert_eq!(close_order(&mut m, &mut l, &USER, 1, 201), Err(TriadProtocolError::OrderNotFound));
    // the lookup comes before the market's state
    assert_eq!(close_order(&mut m, &mut l, &USER, 1, 100), Err(TriadProtocolError::OrderNotFound));
    assert_eq!(
        close_order(&mut m, &mut l, &USER, 0, 100),
        Err(TriadProtocolError::QuestionPeriodNotStarted)
    );
    assert_eq!(
        close_order(&mut m, &mut l, &USER, 0, 10_000),
        Err(TriadProtocolError::QuestionPeriodEnded)
    );
    assert_eq!((m, l.clone()), before);

    let mut elsewhere = market();
    elsewhere.market_id = 8;
    assert_eq!(
        close_order(&mut elsewhere, &mut l, &USER, 0, 201),
        Err(TriadProtocolError::OrderNotFound)
    );

    let mut stopped = m;
    stopped.is_active = false;
    assert_eq!(
        close_order(&mut stopped, &mut l, &USER, 0, 201),
        Err(TriadProtocolError::MarketInactive)
    );

    let mut drained = m;
    drained.hype_shares = 0;
    assert_eq!(
        close_order(&mut drained, &mut l, &USER, 0, 201),
        Err(TriadProtocolError::ArithmeticFailure)
    );

    // an empty slot is no order, although its id and market are zero
    let mut zero = market();
    zero.market_id = 0;
    let mut empty = ledger();
    assert_eq!(
        close_order(&mut zero, &mut empty, &USER, 0, 201),
        Err(TriadProtocolError::OrderNotFound)
    );
}

#[test]
fn closing_twice_finds_nothing() {
    let mut m = market();
    let mut l = ledger();
    open_order(&mut m, &mut l, &USER, hype(1_000_000), 200).unwrap();
    close_order(&mut m, &mut l, &USER, 0, 201).unwrap();
    assert_eq!(close_order(&mut m, &mut l, &USER, 0, 202), Err(TriadProtocolError::OrderNotFound));
}

#[test]
fn worthless_order_closes_without_a_price_move() {
    let mut m = market();
    let mut l = ledger();
    open_order(&mut m, &mut l, &USER, hype(1_000_000), 200).unwrap();
    l.orders[0].total_shares = 1;
    m.hype_shares = 1;
    let price = m.hype_price;
    let receipt = close_order(&mut m, &mut l, &USER, 0, 201).unwrap();
    assert_eq!(receipt.refund_amount, 0);
    assert_eq!(receipt.price, None);
    assert_eq!(receipt.order.pnl, -979_000);
    assert_eq!(m.hype_price, price);
    assert_eq!(m.hype_liquidity, 5_000_979_000);
    assert_eq!(m.update_ts, 201);
    assert_eq!(m.opened_orders, 0);
}
