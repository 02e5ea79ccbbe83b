use anchor_lang::prelude::Pubkey;
use sol_dex_amm::errors::DexError;
use sol_dex_amm::mint::{add_liquidity, check_deposit, fixed_quote, settle, FIXED_AMOUNT_0, FIXED_AMOUNT_1};
use sol_dex_amm::pool::{Pool, MAX_TICK, MIN_TICK};
use sol_dex_amm::position::PositionInfo;
use sol_dex_amm::tick::{TickArray, TickInfo, TICKS_PER_ARRAY};

fn key(b: u8) -> Pubkey {
    Pubkey::new_from_array([b; 32])
}

fn new_pool() -> Pool {
    Pool::initialize(key(1), key(2), 79228162514264337593543950336, 0, 60, 255).unwrap()
}

#[test]
fn initialize_pool_starts_empty() {
    let pool = new_pool();
    assert_eq!(pool.liquidity, 0);
    assert_eq!(pool.tick, 0);
    assert_eq!(pool.tick_spacing, 60);
    assert_eq!(pool.sqrt_price_x96, 79228162514264337593543950336);
    assert!(pool.token_0 == key(1));
    assert!(pool.token_1 == key(2));
}

#[test]
fn initialize_pool_rejects_tick_outside_domain() {
    let r = Pool::initialize(key(1), key(2), 1, MAX_TICK + 1, 60, 0);
    assert!(matches!(r, Err(DexError::InvalidTickRange)));
    let r = Pool::initialize(key(1), key(2), 1, MIN_TICK - 1, 60, 0);
    assert!(matches!(r, Err(DexError::InvalidTickRange)));
    assert!(Pool::initialize(key(1), key(2), 1, MIN_TICK, 60, 0).is_ok());
}

#[test]
fn first_deposit_example() {
    let mut pool = new_pool();
    let mut lower = TickInfo::new();
    let mut upper = TickInfo::new();
    let mut position: Option<PositionInfo> = None;
    let u = key(9);
    let r = add_liquidity(&mut pool, &mut lower, &mut upper, &mut position, u, -60, 60, 1000);
    assert!(r.is_ok());
    assert_eq!(lower, TickInfo { initialized: true, liquidity: 1000 });
    assert_eq!(upper, TickInfo { initialized: true, liquidity: 1000 });
    let p = position.as_ref().unwrap();
    assert!(p.owner == u);
    assert_eq!((p.tick_lower, p.tick_upper, p.liquidity), (-60, 60, 1000));
    assert_eq!(pool.liquidity, 1000);
}

#[test]
fn second_deposit_accumulates() {
    let mut pool = new_pool();
    let mut lower = TickInfo::new();
    let mut upper = TickInfo::new();
    let mut position: Option<PositionInfo> = None;
    let u = key(9);
    add_liquidity(&mut pool, &mut lower, &mut upper, &mut position, u, -60, 60, 1000).unwrap();
    add_liquidity(&mut pool, &mut lower, &mut upper, &mut position, u, -60, 60, 500).unwrap();
    assert_eq!(position.as_ref().unwrap().liquidity, 1500);
    assert_eq!(pool.liquidity, 1500);
    assert_eq!(lower.liquidity, 1500);
    assert_eq!(upper.liquidity, 1500);
    assert!(lower.initialized && upper.initialized);
}

#[test]
fn overflowing_deposit_changes_nothing() {
    let mut pool = new_pool();
    let mut lower = TickInfo::new();
    let mut upper = TickInfo::new();
    let mut position: Option<PositionInfo> = None;
    let u = key(9);
    add_liquidity(&mut pool, &mut lower, &mut upper, &mut position, u, -60, 60, 1000).unwrap();
    let r = add_liquidity(&mut pool, &mut lower, &mut upper, &mut position, u, -60, 60, u128::MAX);
    assert!(matches!(r, Err(DexError::LiquidityOverflow)));
    assert_eq!(lower, TickInfo { initialized: true, liquidity: 1000 });
    assert_eq!(upper, TickInfo { initialized: true, liquidity: 1000 });
    assert_eq!(position.as_ref().unwrap().liquidity, 1000);
    assert_eq!(pool.liquidity, 1000);
}

#[test]
fn overflow_in_position_alone_changes_nothing() {
    let mut pool = new_pool();
    let mut lower = TickInfo::new();
    let mut upper = TickInfo::new();
    let mut position = Some(PositionInfo::new(key(9), -60, 60, u128::MAX));
    let r = add_liquidity(&mut pool, &mut lower, &mut upper, &mut position, key(9), -60, 60, 1);
    assert!(matches!(r, Err(DexError::LiquidityOverflow)));
    assert_eq!(lower, TickInfo::new());
    assert_eq!(upper, TickInfo::new());
    assert_eq!(pool.liquidity, 0);
    assert_eq!(position.unwrap().liquidity, u128::MAX);
}

#[test]
fn inverted_range_is_rejected_without_change() {
    let mut pool = new_pool();
    let mut lower = TickInfo::new();
    let mut upper = TickInfo::new();
    let mut position: Option<PositionInfo> = None;
    for (lo, hi) in [(60, -60), (60, 60), (MIN_TICK - 60, 60), (-60, MAX_TICK + 60)] {
        let r = add_liquidity(&mut pool, &mut lower, &mut upper, &mut position, key(9), lo, hi, 1000);
        assert!(matches!(r, Err(DexError::InvalidTickRange)));
    }
    assert_eq!(lower, TickInfo::new());
    assert_eq!(upper, TickInfo::new());
    assert!(position.is_none());
    assert_eq!(pool.liquidity, 0);
}

#[test]
fn zero_amount_is_rejected_without_change() {
    let mut pool = new_pool();
    let mut lower = TickInfo::new();
    let mut upper = TickInfo::new();
    let mut position: Option<PositionInfo> = None;
    let r = add_liquidity(&mut pool, &mut lower, &mut upper, &mut position, key(9), -60, 60, 0);
    assert!(matches!(r, Err(DexError::InsufficientInputAmount)));
    assert_eq!(lower, TickInfo::new());
    assert_eq!(upper, TickInfo::new());
    assert!(position.is_none());
    assert_eq!(pool.liquidity, 0);
}

#[test]
fn tick_update_flips_initialized_once() {
    let mut t = TickInfo::new();
    assert!(!t.initialized);
    t.update(5).unwrap();
    assert!(t.initialized);
    t.update(7).unwrap();
    assert!(t.initialized);
    assert_eq!(t.liquidity, 12);
    let before = t;
    assert!(matches!(t.update(u128::MAX), Err(DexError::LiquidityOverflow)));
    assert_eq!(t, before);
}

#[test]
fn position_update_adds() {
    let mut p = PositionInfo::new(key(3), -120, 180, 10);
    p.update(32).unwrap();
    assert_eq!(p.liquidity, 42);
    assert_eq!((p.tick_lower, p.tick_upper), (-120, 180));
    assert!(matches!(p.update(u128::MAX), Err(DexError::LiquidityOverflow)));
    assert_eq!(p.liquidity, 42);
}

#[test]
fn starting_index_uses_floor_division() {
    assert_eq!(TickArray::get_starting_index(0, 60), 0);
    assert_eq!(TickArray::get_starting_index(5279, 60), 0);
    assert_eq!(TickArray::get_starting_index(5280, 60), 5280);
    assert_eq!(TickArray::get_starting_index(-1, 60), -5280);
    assert_eq!(TickArray::get_starting_index(-5280, 60), -5280);
    assert_eq!(TickArray::get_starting_index(-5281, 60), -10560);
    assert_eq!(TickArray::get_starting_index(100, 1), 88);
    assert_eq!(TickArray::get_starting_index(MIN_TICK, 1), -887304);
}

#[test]
fn locate_round_trips() {
    for &s in &[1u16, 10, 60, 200] {
        let mut t = MIN_TICK - MIN_TICK % s as i32;
        while t <= MAX_TICK {
            let (start, offset) = TickArray::locate(t, s);
            assert_eq!(start + offset as i32 * s as i32, t);
            assert!(offset < TICKS_PER_ARRAY);
            assert_eq!(TickArray::locate(t, s), (start, offset));
            t += s as i32 * 37;
        }
    }
    assert_eq!(TickArray::locate(-60, 60), (-5280, 87));
    assert_eq!(TickArray::locate(60, 60), (0, 1));
}

#[test]
fn adjacent_pages_differ_by_one_span() {
    let span = 60 * TICKS_PER_ARRAY as i32;
    for t in [-10000, -5281, -1, 0, 59, 5279, 123456] {
        let a = TickArray::get_starting_index(t, 60);
        let b = TickArray::get_starting_index(t + span, 60);
        assert_eq!(b - a, span);
        assert_eq!(TickArray::get_starting_index(a + span - 1, 60), a);
    }
}

#[test]
fn new_tick_array_is_empty() {
    let a = TickArray::new(key(4), -5280);
    assert_eq!(a.starting_tick_index, -5280);
    assert!(a.pool == key(4));
    assert_eq!(a.ticks.len(), TICKS_PER_ARRAY);
    assert!(a.ticks.iter().all(|t| *t == TickInfo::new()));
}

#[test]
fn tick_array_slots_by_tick() {
    let mut a = TickArray::new(key(4), -5280);
    a.info_for_tick_mutable(-60, 60).update(1000).unwrap();
    assert_eq!(a.offset_for_tick(-60, 60), 87);
    assert_eq!(a.ticks[87].liquidity, 1000);
    assert_eq!(*a.info_for_tick(-60, 60), TickInfo { initialized: true, liquidity: 1000 });
    assert_eq!(*a.info_for_tick(-5280, 60), TickInfo::new());
}

#[test]
fn fixed_quote_amounts() {
    assert_eq!(fixed_quote(1), (1_000_000_000, 150_000_000));
    assert_eq!(fixed_quote(u128::MAX), (FIXED_AMOUNT_0, FIXED_AMOUNT_1));
}

#[test]
fn deposit_check_on_balances() {
    assert!(check_deposit(0, 10, 0).is_ok());
    assert!(check_deposit(5, 10, 15).is_ok());
    assert!(check_deposit(5, 10, 20).is_ok());
    assert!(matches!(check_deposit(5, 10, 14), Err(DexError::InsufficientInputAmount)));
    assert!(matches!(check_deposit(2, u64::MAX, u64::MAX), Err(DexError::InsufficientInputAmount)));
}

#[test]
fn settle_returns_amounts_or_fails() {
    assert!(matches!(settle(100, 7, 0, 100, 3, 10), Ok((100, 7))));
    assert!(matches!(settle(100, 7, 0, 99, 3, 10), Err(DexError::InsufficientInputAmount)));
    assert!(matches!(settle(100, 7, 0, 100, 3, 9), Err(DexError::InsufficientInputAmount)));
    assert!(matches!(settle(0, 0, 5, 0, 5, 0), Ok((0, 0))));
}
