use amm_engine::{
    add_liquidity, fee_amount, initialize_pool, quote_swap, swap, AmmError, LiquidityAdded, Pool,
    SwapExecuted,
};

const USER: [u8; 32] = [9u8; 32];

fn pool_with(reserve_a: u64, reserve_b: u64, fee_rate: u64) -> Pool {
    let (mut pool, _) =
        initialize_pool([1u8; 32], [2u8; 32], [3u8; 32], [4u8; 32], [5u8; 32], [6u8; 32], fee_rate, 254);
    add_liquidity(&mut pool, USER, reserve_a, reserve_b).unwrap();
    pool
}

#[test]
fn new_pool_is_empty_and_keeps_its_fields() {
    let (pool, event) =
        initialize_pool([1u8; 32], [2u8; 32], [3u8; 32], [4u8; 32], [5u8; 32], [6u8; 32], 30, 254);
    assert_eq!(pool.reserve_a, 0);
    assert_eq!(pool.reserve_b, 0);
    assert_eq!(pool.fee_rate, 30);
    assert_eq!(pool.bump, 254);
    assert_eq!(pool.authority, [2u8; 32]);
    assert_eq!(pool.mint_a, [3u8; 32]);
    assert_eq!(pool.mint_b, [4u8; 32]);
    assert_eq!(pool.vault_a, [5u8; 32]);
    assert_eq!(pool.vault_b, [6u8; 32]);
    assert_eq!(event.pool, [1u8; 32]);
    assert_eq!(event.mint_a, [3u8; 32]);
    assert_eq!(event.mint_b, [4u8; 32]);
    assert_eq!(event.fee_rate, 30);
}

#[test]
fn fee_rate_above_whole_is_stored_unmodified() {
    let (pool, _) =
        initialize_pool([1u8; 32], [2u8; 32], [3u8; 32], [4u8; 32], [5u8; 32], [6u8; 32], 20000, 1);
    assert_eq!(pool.fee_rate, 20000);
}

#[test]
fn fee_is_floor_of_basis_points() {
    assert_eq!(fee_amount(100, 30), 0);
    assert_eq!(fee_amount(1000, 100), 10);
    assert_eq!(fee_amount(12345, 30), 37);
    assert_eq!(fee_amount(500, 10000), 500);
    assert_eq!(fee_amount(777, 0), 0);
    assert_eq!(fee_amount(0, 10000), 0);
}

#[test]
fn fee_never_exceeds_input_within_whole_rate() {
    for amount_in in [0u64, 1, 99, 10_000, 123_456_789, u64::MAX] {
        for fee_rate in [0u64, 1, 30, 9_999, 10_000] {
            let fee = fee_amount(amount_in, fee_rate);
            assert_eq!(fee, amount_in as u128 * fee_rate as u128 / 10_000);
            assert!(fee <= amount_in as u128);
        }
    }
}

#[test]
fn fee_on_largest_input_does_not_overflow() {
    assert_eq!(fee_amount(u64::MAX, u64::MAX), (u64::MAX as u128) * (u64::MAX as u128) / 10_000);
}

#[test]
fn scenario_a_small_swap_succeeds() {
    let mut pool = pool_with(1000, 1000, 30);
    assert_eq!(fee_amount(100, 30), 0);
    assert_eq!(quote_swap(1000, 1000, 100, 30), Ok(90));
    let event = swap(&mut pool, USER, 100, 85, true).unwrap();
    assert_eq!(event, SwapExecuted { user: USER, amount_in: 100, amount_out: 90, a_to_b: true });
    assert_eq!((pool.reserve_a, pool.reserve_b), (1100, 910));
}

#[test]
fn scenario_b_fee_stays_in_pool() {
    let mut pool = pool_with(1000, 1000, 100);
    assert_eq!(fee_amount(1000, 100), 10);
    assert_eq!(quote_swap(1000, 1000, 1000, 100), Ok(497));
    let event = swap(&mut pool, USER, 1000, 0, true).unwrap();
    assert_eq!(event.amount_out, 497);
    assert_eq!((pool.reserve_a, pool.reserve_b), (2000, 503));
}

#[test]
fn scenario_c_large_input_stays_below_reserve() {
    let mut pool = pool_with(500, 500, 30);
    let event = swap(&mut pool, USER, 10000, 0, true).unwrap();
    assert_eq!(event.amount_out, 476);
    assert!(event.amount_out < 500);
    assert_eq!((pool.reserve_a, pool.reserve_b), (10500, 24));
}

#[test]
fn scenario_c_output_reaching_reserve_is_refused() {
    let mut pool = pool_with(0, 500, 0);
    assert_eq!(quote_swap(0, 500, 10000, 0), Ok(500));
    let before = pool;
    assert_eq!(swap(&mut pool, USER, 10000, 0, true), Err(AmmError::InsufficientLiquidity));
    assert_eq!(pool, before);
}

#[test]
fn scenario_d_skewed_deposit_is_accepted() {
    let mut pool = pool_with(1000, 1000, 30);
    let event = add_liquidity(&mut pool, USER, 200, 50).unwrap();
    assert_eq!(event, LiquidityAdded { user: USER, amount_a: 200, amount_b: 50 });
    assert_eq!((pool.reserve_a, pool.reserve_b), (1200, 1050));
}

#[test]
fn deposit_of_zero_changes_nothing() {
    let mut pool = pool_with(1000, 1000, 30);
    add_liquidity(&mut pool, USER, 0, 0).unwrap();
    assert_eq!((pool.reserve_a, pool.reserve_b), (1000, 1000));
}

#[test]
fn deposit_overflow_is_refused() {
    let mut pool = pool_with(u64::MAX - 5, 10, 30);
    let before = pool;
    assert_eq!(add_liquidity(&mut pool, USER, 6, 0), Err(AmmError::ArithmeticOverflow));
    assert_eq!(add_liquidity(&mut pool, USER, 0, u64::MAX), Err(AmmError::ArithmeticOverflow));
    assert_eq!(pool, before);
    add_liquidity(&mut pool, USER, 5, 0).unwrap();
    assert_eq!(pool.reserve_a, u64::MAX);
}

#[test]
fn slippage_is_refused_without_change() {
    let mut pool = pool_with(1000, 1000, 30);
    let before = pool;
    assert_eq!(swap(&mut pool, USER, 100, 91, true), Err(AmmError::SlippageExceeded));
    assert_eq!(pool, before);
}

#[test]
fn zero_input_fails_slippage_for_positive_minimum() {
    let mut pool = pool_with(1000, 1000, 30);
    assert_eq!(quote_swap(1000, 1000, 0, 30), Ok(0));
    assert_eq!(swap(&mut pool, USER, 0, 1, true), Err(AmmError::SlippageExceeded));
    let event = swap(&mut pool, USER, 0, 0, true).unwrap();
    assert_eq!(event.amount_out, 0);
    assert_eq!((pool.reserve_a, pool.reserve_b), (1000, 1000));
}

#[test]
fn slippage_is_checked_before_liquidity() {
    let mut pool = pool_with(0, 500, 0);
    assert_eq!(swap(&mut pool, USER, 10000, 501, true), Err(AmmError::SlippageExceeded));
}

#[test]
fn empty_pool_cannot_pay_out() {
    let mut pool = pool_with(0, 0, 30);
    assert_eq!(quote_swap(0, 0, 0, 30), Ok(0));
    assert_eq!(swap(&mut pool, USER, 0, 0, true), Err(AmmError::InsufficientLiquidity));
    assert_eq!(swap(&mut pool, USER, 50, 0, false), Err(AmmError::InsufficientLiquidity));
}

#[test]
fn fee_above_input_is_underflow() {
    let mut pool = pool_with(1000, 1000, 20000);
    let before = pool;
    assert_eq!(quote_swap(1000, 1000, 100, 20000), Err(AmmError::ArithmeticUnderflow));
    assert_eq!(swap(&mut pool, USER, 100, 0, true), Err(AmmError::ArithmeticUnderflow));
    assert_eq!(pool, before);
}

#[test]
fn input_reserve_overflow_is_refused() {
    let mut pool = pool_with(u64::MAX - 10, 1000, 0);
    let before = pool;
    assert_eq!(swap(&mut pool, USER, 11, 0, true), Err(AmmError::ArithmeticOverflow));
    assert_eq!(pool, before);
}

#[test]
fn b_to_a_swap_moves_the_other_way() {
    let mut pool = pool_with(1000, 1000, 30);
    let event = swap(&mut pool, USER, 100, 85, false).unwrap();
    assert_eq!(event, SwapExecuted { user: USER, amount_in: 100, amount_out: 90, a_to_b: false });
    assert_eq!((pool.reserve_a, pool.reserve_b), (910, 1100));
}

#[test]
fn product_never_decreases_over_swaps() {
    for fee_rate in [0u64, 1, 30, 100, 10_000] {
        let mut pool = pool_with(12_345, 67_890, fee_rate);
        for (amount_in, a_to_b) in [(1u64, true), (997, false), (5_000, true), (3, false), (40_000, true)] {
            let before = pool.reserve_a as u128 * pool.reserve_b as u128;
            if swap(&mut pool, USER, amount_in, 0, a_to_b).is_ok() {
                let after = pool.reserve_a as u128 * pool.reserve_b as u128;
                assert!(after >= before);
            }
        }
    }
}

#[test]
fn largest_reserves_quote_without_overflow() {
    assert_eq!(quote_swap(u64::MAX, u64::MAX, u64::MAX, 0), Ok(u64::MAX / 2));
}
