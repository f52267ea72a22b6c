use forge_x::errors::CustomError;
use forge_x::pool::{initialize_pool, Pool, SwapOutcome};

fn pool(reserve_a: u64, reserve_b: u64, fee: u64) -> Pool {
    Pool { token_a_reserve: reserve_a, token_b_reserve: reserve_b, fee, bump: 0 }
}

#[test]
fn initialize_rejects_fee_above_ten_thousand() {
    assert_eq!(initialize_pool(10001, 3), Err(CustomError::InvalidFee));
}

#[test]
fn initialize_accepts_fee_of_ten_thousand() {
    let p = initialize_pool(10000, 5).unwrap();
    assert_eq!(p.fee, 10000);
    assert_eq!(p.bump, 5);
    assert_eq!(p.token_a_reserve, 0);
    assert_eq!(p.token_b_reserve, 0);
}

#[test]
fn initialize_accepts_zero_fee() {
    let p = initialize_pool(0, 255).unwrap();
    assert_eq!(p.fee, 0);
    assert_eq!(p.bump, 255);
    assert_eq!(p.token_a_reserve, 0);
    assert_eq!(p.token_b_reserve, 0);
}

#[test]
fn add_liquidity_rejects_zero_amount_a() {
    let mut p = pool(10, 20, 30);
    assert_eq!(p.add_liquidity(0, 5), Err(CustomError::InvalidLiquidityAmount));
    assert_eq!(p, pool(10, 20, 30));
}

#[test]
fn add_liquidity_rejects_zero_amount_b() {
    let mut p = pool(10, 20, 30);
    assert_eq!(p.add_liquidity(5, 0), Err(CustomError::InvalidLiquidityAmount));
    assert_eq!(p, pool(10, 20, 30));
}

#[test]
fn add_liquidity_grows_both_reserves_exactly() {
    let mut p = pool(10, 20, 30);
    assert_eq!(p.add_liquidity(5, 7), Ok(()));
    assert_eq!(p.token_a_reserve, 15);
    assert_eq!(p.token_b_reserve, 27);
    assert_eq!(p.fee, 30);
    assert_eq!(p.bump, 0);
}

#[test]
fn add_liquidity_overflow_on_reserve_a_is_a_no_op() {
    let mut p = pool(u64::MAX, 20, 30);
    assert_eq!(p.add_liquidity(1, 1), Err(CustomError::Overflow));
    assert_eq!(p, pool(u64::MAX, 20, 30));
}

#[test]
fn add_liquidity_overflow_on_reserve_b_is_a_no_op() {
    let mut p = pool(10, u64::MAX, 30);
    assert_eq!(p.add_liquidity(1, 1), Err(CustomError::Overflow));
    assert_eq!(p, pool(10, u64::MAX, 30));
}

#[test]
fn validate_add_liquidity_decides_without_mutating() {
    let p = pool(10, 20, 30);
    assert_eq!(p.validate_add_liquidity(5, 7), Ok((15, 27)));
    assert_eq!(p.validate_add_liquidity(0, 7), Err(CustomError::InvalidLiquidityAmount));
    assert_eq!(p, pool(10, 20, 30));
}

#[test]
fn commit_add_liquidity_applies_validated_growth() {
    let mut p = pool(10, 20, 30);
    let (new_a, new_b) = p.validate_add_liquidity(5, 7).unwrap();
    p.commit_add_liquidity(5, 7);
    assert_eq!(p.token_a_reserve, new_a);
    assert_eq!(p.token_b_reserve, new_b);
}

#[test]
fn swap_on_fresh_pool_fails_insufficient_liquidity() {
    let mut p = initialize_pool(30, 0).unwrap();
    assert_eq!(p.swap(5), Err(CustomError::InsufficientLiquidity));
    assert_eq!(p.token_a_reserve, 0);
    assert_eq!(p.token_b_reserve, 0);
}

#[test]
fn swap_rejects_zero_input() {
    let mut p = pool(1000, 1000, 30);
    assert_eq!(p.swap(0), Err(CustomError::InvalidSwapAmount));
    assert_eq!(p, pool(1000, 1000, 30));
}

#[test]
fn swap_concrete_thirty_bps() {
    // effective input: 100 * 9970 / 10000 = 99
    // output: 99 * 1000 / (1000 + 99) = 99000 / 1099 = 90
    let mut p = pool(1000, 1000, 30);
    let outcome = p.swap(100).unwrap();
    assert_eq!(
        outcome,
        SwapOutcome { amount_out: 90, new_reserve_a: 1100, new_reserve_b: 910 }
    );
    assert_eq!(p.token_a_reserve, 1100);
    assert_eq!(p.token_b_reserve, 910);
    assert_eq!(p.fee, 30);
}

#[test]
fn compute_swap_prices_without_mutating() {
    let p = pool(1000, 1000, 30);
    let outcome = p.compute_swap(100).unwrap();
    assert_eq!(outcome.amount_out, 90);
    assert_eq!(outcome.new_reserve_a, 1100);
    assert_eq!(outcome.new_reserve_b, 910);
    assert_eq!(p, pool(1000, 1000, 30));
}

#[test]
fn commit_swap_applies_computed_outcome() {
    let mut p = pool(1000, 1000, 30);
    let outcome = p.compute_swap(100).unwrap();
    p.commit_swap(100, outcome);
    assert_eq!(p.token_a_reserve, 1100);
    assert_eq!(p.token_b_reserve, 910);
}

#[test]
fn swap_too_small_to_price_fails_insufficient_output() {
    // effective input 1, output 1 * 1 / (1000000 + 1) = 0
    let mut p = pool(1000000, 1, 0);
    assert_eq!(p.swap(1), Err(CustomError::InsufficientOutput));
    assert_eq!(p, pool(1000000, 1, 0));
}

#[test]
fn swap_with_full_fee_fails_insufficient_output() {
    // a 10000 bps fee swallows the whole input, so nothing can be priced
    let mut p = pool(1000, 1000, 10000);
    assert_eq!(p.swap(100), Err(CustomError::InsufficientOutput));
    assert_eq!(p, pool(1000, 1000, 10000));
}

#[test]
fn swap_fee_scaling_overflow_is_a_no_op() {
    // amount_in * (10000 - fee) exceeds u64::MAX
    let mut p = pool(1000, 1000, 0);
    assert_eq!(p.swap(u64::MAX), Err(CustomError::Overflow));
    assert_eq!(p, pool(1000, 1000, 0));
}

#[test]
fn swap_denominator_overflow_is_a_no_op() {
    // reserve_a + effective input exceeds u64::MAX
    let mut p = pool(u64::MAX, 5, 0);
    assert_eq!(p.swap(1), Err(CustomError::Overflow));
    assert_eq!(p, pool(u64::MAX, 5, 0));
}

#[test]
fn swap_committed_reserve_overflow_is_a_no_op() {
    // All pricing checks pass (effective input 2, output 1), but
    // reserve_a + amount_in exceeds u64::MAX: the commit check fails
    // Overflow and the reserves are bit-for-bit unchanged.
    let reserve_a = u64::MAX - 150;
    let reserve_b = 9223372036854775807; // floor(u64::MAX / 2)
    let mut p = pool(reserve_a, reserve_b, 9900);
    assert_eq!(p.swap(200), Err(CustomError::Overflow));
    assert_eq!(p, pool(reserve_a, reserve_b, 9900));
}

#[test]
fn swap_sequence_keeps_product_nondecreasing() {
    let mut p = pool(1000, 1000, 30);
    for amount_in in [100u64, 1, 250, 999, 3, 40] {
        let before = p.token_a_reserve as u128 * p.token_b_reserve as u128;
        match p.swap(amount_in) {
            Ok(outcome) => {
                let after = p.token_a_reserve as u128 * p.token_b_reserve as u128;
                assert!(after >= before);
                assert_eq!(p.token_a_reserve, outcome.new_reserve_a);
                assert_eq!(p.token_b_reserve, outcome.new_reserve_b);
            }
            Err(_) => {
                let after = p.token_a_reserve as u128 * p.token_b_reserve as u128;
                assert_eq!(after, before);
            }
        }
    }
}

#[test]
fn swap_zero_fee_product_rises_by_less_than_new_reserve_a() {
    let mut p = pool(1000, 1000, 0);
    let before = p.token_a_reserve as u128 * p.token_b_reserve as u128;
    p.swap(100).unwrap();
    let after = p.token_a_reserve as u128 * p.token_b_reserve as u128;
    assert!(after >= before);
    assert!(after < before + p.token_a_reserve as u128);
}

#[test]
fn initialized_event_carries_fee_and_address() {
    let p = initialize_pool(30, 0).unwrap();
    let address = [7u8; 32];
    let e = p.initialized_event(address);
    assert_eq!(e.fee, 30);
    assert_eq!(e.pool_address, address);
}

#[test]
fn liquidity_added_event_reports_committed_reserves() {
    let mut p = pool(10, 20, 30);
    p.add_liquidity(5, 7).unwrap();
    let e = p.liquidity_added_event(5, 7, [1u8; 32]);
    assert_eq!(e.amount_a, 5);
    assert_eq!(e.amount_b, 7);
    assert_eq!(e.new_reserve_a, 15);
    assert_eq!(e.new_reserve_b, 27);
    assert_eq!(e.pool_address, [1u8; 32]);
}

#[test]
fn swap_executed_event_reports_committed_state() {
    let mut p = pool(1000, 1000, 30);
    let outcome = p.swap(100).unwrap();
    let user = [9u8; 32];
    let e = p.swap_executed_event(user, 100, outcome.amount_out);
    assert_eq!(e.user, user);
    assert_eq!(e.amount_in, 100);
    assert_eq!(e.amount_out, 90);
    assert_eq!(e.new_reserve_a, 1100);
    assert_eq!(e.new_reserve_b, 910);
    assert_eq!(e.fee, 30);
}
