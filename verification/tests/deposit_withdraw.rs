//! Liquidity operations: deposit and withdrawal scenarios, slippage and
//! error behaviour.

use liquidity_pool::add_liquidity;
use liquidity_pool::create_pool;
use liquidity_pool::math;
use liquidity_pool::remove_liquidity;
use liquidity_pool::ErrorCode;
use liquidity_pool::Pool;
use liquidity_pool::PoolStatus;

fn addr(tag: u8) -> Vec<u8> {
    let mut a = vec![0u8; 32];
    a[0] = tag;
    a
}

fn fresh_pool() -> Pool {
    create_pool(
        addr(1),
        addr(2),
        addr(3),
        addr(4),
        addr(5),
        addr(6),
        30,
        addr(7),
        1_000,
    )
}

#[test]
fn first_deposit_takes_desired_amounts() {
    let mut pool = fresh_pool();
    let added = add_liquidity(&mut pool, 0, 0, 0, 1000, 2000, 0, 0, 1_100).unwrap();
    assert_eq!(added.amount_a_deposited, 1000);
    assert_eq!(added.amount_b_deposited, 2000);
    assert_eq!(added.liquidity_minted, 1000);
    assert_eq!(pool.total_liquidity, 1000);
    assert_eq!(pool.last_updated_at, 1_100);
}

#[test]
fn later_deposit_is_trimmed_to_reserve_ratio() {
    let mut pool = fresh_pool();
    pool.total_liquidity = 1000;
    let added = add_liquidity(&mut pool, 1000, 2000, 1000, 100, 300, 0, 0, 1_200).unwrap();
    assert_eq!(added.amount_a_deposited, 100);
    assert_eq!(added.amount_b_deposited, 200);
    assert_eq!(added.liquidity_minted, 100);
    assert_eq!(pool.total_liquidity, 1100);
}

#[test]
fn deposit_trims_asset_a_when_b_is_short() {
    // desired B below the ratio-implied amount: A is trimmed instead
    let q = math::quote_deposit(1000, 2000, 1000, 100, 150, 0, 0).unwrap();
    assert_eq!(q.amount_a_optimal, 75);
    assert_eq!(q.amount_b_optimal, 150);
    assert_eq!(q.liquidity_minted, 75);
}

#[test]
fn withdrawal_pays_proportional_amounts() {
    let mut pool = fresh_pool();
    pool.total_liquidity = 1100;
    let removed = remove_liquidity(&mut pool, 1100, 2200, 1100, 110, 110, 0, 0, 1_300).unwrap();
    assert_eq!(removed.amount_a_out, 110);
    assert_eq!(removed.amount_b_out, 220);
    assert_eq!(removed.liquidity_burned, 110);
    assert_eq!(pool.total_liquidity, 990);
}

#[test]
fn withdrawal_truncates_in_the_pools_favor() {
    let q = math::quote_withdrawal(1000, 1000, 3, 1, 1, 0, 0).unwrap();
    assert_eq!(q.amount_a_out, 333);
    assert_eq!(q.amount_b_out, 333);
}

#[test]
fn paused_pool_refuses_both_operations() {
    let mut pool = fresh_pool();
    pool.status = PoolStatus::Paused;
    let before = pool.total_liquidity;
    assert_eq!(
        add_liquidity(&mut pool, 0, 0, 0, 10, 10, 0, 0, 2_000),
        Err(ErrorCode::PoolPaused)
    );
    assert_eq!(
        remove_liquidity(&mut pool, 10, 10, 10, 10, 1, 0, 0, 2_000),
        Err(ErrorCode::PoolPaused)
    );
    assert_eq!(pool.total_liquidity, before);
    assert_eq!(pool.last_updated_at, 1_000);
}

#[test]
fn deposit_below_minimum_fails_with_slippage_and_no_mutation() {
    let mut pool = fresh_pool();
    pool.total_liquidity = 1000;
    // true optimal pair is (100, 200); both floors strictly above it
    let r = add_liquidity(&mut pool, 1000, 2000, 1000, 100, 300, 101, 201, 2_000);
    assert_eq!(r, Err(ErrorCode::SlippageExceeded));
    assert_eq!(pool.total_liquidity, 1000);
    assert_eq!(pool.last_updated_at, 1_000);
}

#[test]
fn trimmed_side_below_its_minimum_fails_with_slippage() {
    // B is trimmed to 200, but the caller insists on at least 250
    let r = math::quote_deposit(1000, 2000, 1000, 100, 300, 0, 250);
    assert_eq!(r, Err(ErrorCode::SlippageExceeded));
}

#[test]
fn withdrawal_below_minimum_fails_with_slippage_and_no_mutation() {
    let mut pool = fresh_pool();
    pool.total_liquidity = 1100;
    let r = remove_liquidity(&mut pool, 1100, 2200, 1100, 110, 110, 111, 221, 2_000);
    assert_eq!(r, Err(ErrorCode::SlippageExceeded));
    assert_eq!(pool.total_liquidity, 1100);
}

#[test]
fn zero_mint_is_refused() {
    // a first deposit of zero asset A mints zero shares
    let mut pool = fresh_pool();
    assert_eq!(
        add_liquidity(&mut pool, 0, 0, 0, 0, 500, 0, 0, 2_000),
        Err(ErrorCode::ZeroLiquidityMinted)
    );
    // a tiny later deposit can also round down to zero shares
    assert_eq!(
        math::quote_deposit(1_000_000, 1_000_000, 10, 5, 5, 0, 0),
        Err(ErrorCode::ZeroLiquidityMinted)
    );
}

#[test]
fn zero_burn_is_refused() {
    let mut pool = fresh_pool();
    pool.total_liquidity = 100;
    assert_eq!(
        remove_liquidity(&mut pool, 100, 100, 100, 100, 0, 0, 0, 2_000),
        Err(ErrorCode::ZeroLiquidityBurned)
    );
}

#[test]
fn empty_pool_refuses_withdrawal() {
    let mut pool = fresh_pool();
    assert_eq!(
        remove_liquidity(&mut pool, 0, 0, 0, 10, 10, 0, 0, 2_000),
        Err(ErrorCode::PoolEmpty)
    );
}

#[test]
fn burning_more_than_held_is_refused() {
    let mut pool = fresh_pool();
    pool.total_liquidity = 100;
    assert_eq!(
        remove_liquidity(&mut pool, 100, 100, 100, 5, 10, 0, 0, 2_000),
        Err(ErrorCode::InsufficientLpTokens)
    );
}

#[test]
fn deposit_product_overflow_is_reported() {
    assert_eq!(
        math::quote_deposit(1, 3, 1, u64::MAX, 1, 0, 0),
        Err(ErrorCode::Overflow)
    );
}

#[test]
fn deposit_against_zero_reserve_is_an_arithmetic_fault() {
    // supply without reserves: the ratio division has no meaning
    assert_eq!(
        math::quote_deposit(0, 2000, 1000, 100, 300, 0, 0),
        Err(ErrorCode::Overflow)
    );
}

#[test]
fn withdrawal_product_overflow_is_reported() {
    assert_eq!(
        math::quote_withdrawal(u64::MAX, 1, 2, 3, 3, 0, 0),
        Err(ErrorCode::Overflow)
    );
}

#[test]
fn share_total_overflow_is_reported() {
    let mut pool = fresh_pool();
    pool.total_liquidity = u64::MAX;
    assert_eq!(
        add_liquidity(&mut pool, 100, 100, 100, 10, 10, 0, 0, 2_000),
        Err(ErrorCode::Overflow)
    );
    assert_eq!(pool.total_liquidity, u64::MAX);
    assert_eq!(pool.last_updated_at, 1_000);
}

#[test]
fn deprecated_pool_also_refuses_operations() {
    let mut pool = fresh_pool();
    pool.status = PoolStatus::Deprecated;
    assert_eq!(
        add_liquidity(&mut pool, 0, 0, 0, 10, 10, 0, 0, 2_000),
        Err(ErrorCode::PoolPaused)
    );
}

#[test]
fn share_total_underflow_is_reported() {
    // the ledger reports more supply than the pool record accounts for
    let mut pool = fresh_pool();
    pool.total_liquidity = 5;
    assert_eq!(
        remove_liquidity(&mut pool, 1000, 1000, 1000, 1000, 10, 0, 0, 2_000),
        Err(ErrorCode::Underflow)
    );
    assert_eq!(pool.total_liquidity, 5);
}

#[test]
fn accepted_deposits_match_the_reserve_ratio() {
    // within integer truncation: a*rb and b*ra differ by less than one unit
    // of either denominator
    let cases: [(u64, u64, u64, u64, u64); 4] = [
        (1000, 2000, 1000, 100, 300),
        (1000, 2000, 1000, 100, 150),
        (7, 13, 5, 3, 11),
        (3, 1000, 42, 5, 2000),
    ];
    for (ra, rb, s, da, db) in cases {
        let q = math::quote_deposit(ra, rb, s, da, db, 0, 0).unwrap();
        let (a, b) = (q.amount_a_optimal as u128, q.amount_b_optimal as u128);
        let (ra, rb) = (ra as u128, rb as u128);
        assert!(a * rb < (b + 1) * ra);
        assert!(b * ra < (a + 1) * rb);
    }
}

#[test]
fn share_total_moves_by_exactly_the_minted_and_burned_amounts() {
    let mut pool = fresh_pool();
    let added = add_liquidity(&mut pool, 500, 500, 500, 40, 40, 0, 0, 1_100).unwrap();
    assert!(added.liquidity_minted > 0);
    assert_eq!(pool.total_liquidity, added.liquidity_minted);
    let supply = 500 + added.liquidity_minted;
    let removed = remove_liquidity(
        &mut pool,
        540,
        540,
        supply,
        added.liquidity_minted,
        added.liquidity_minted,
        0,
        0,
        1_200,
    )
    .unwrap();
    assert_eq!(removed.liquidity_burned, added.liquidity_minted);
    assert_eq!(pool.total_liquidity, 0);
}

#[test]
fn add_then_remove_never_pays_out_more_than_deposited() {
    // no-fee round trip: deposit, then burn exactly the minted shares
    let cases: [(u64, u64, u64, u64, u64); 4] = [
        (1000, 2000, 1000, 100, 300),
        (1000, 2000, 1000, 100, 150),
        (7, 13, 5, 3, 11),
        (0, 0, 0, 1234, 999),
    ];
    for (ra, rb, s, da, db) in cases {
        let q = math::quote_deposit(ra, rb, s, da, db, 0, 0).unwrap();
        let w = math::quote_withdrawal(
            ra + q.amount_a_optimal,
            rb + q.amount_b_optimal,
            s + q.liquidity_minted,
            q.liquidity_minted,
            q.liquidity_minted,
            0,
            0,
        )
        .unwrap();
        assert!(w.amount_a_out <= q.amount_a_optimal);
        assert!(w.amount_b_out <= q.amount_b_optimal);
    }
}
