use solana_swap::{
    apply_swap, calculate_swap_output, initialize_pool, swap, swap_sol_to_usdt, swap_usdt_to_sol,
    LiquidityPool, Pubkey, SwapDirection, SwapError, SwapRequest,
};

fn key(tag: u8) -> Pubkey {
    let mut bytes = [0u8; 32];
    bytes[0] = tag;
    Pubkey { bytes }
}

fn fresh_pool(sol_reserve: u64, usdt_reserve: u64) -> LiquidityPool {
    initialize_pool(key(1), key(2), sol_reserve, usdt_reserve, key(3), 254, 1_700_000_000)
}

/// Reference model of the pricing formula, computed independently in u128.
fn model_output(amount_in: u64, reserve_in: u64, reserve_out: u64) -> u64 {
    let fee = amount_in as u128 * 997;
    (fee * reserve_out as u128 / (reserve_in as u128 * 1000 + fee)) as u64
}

#[test]
fn fee_formula_exact_value() {
    // 997_000 * 2_000_000 / (1000 * 1_000_000 + 997_000), floor-divided.
    let expected = 997_000u128 * 2_000_000 / (1000u128 * 1_000_000 + 997_000);
    assert_eq!(expected, 1992);
    assert_eq!(calculate_swap_output(1000, 1_000_000, 2_000_000), Ok(1992));
}

#[test]
fn output_always_below_reserve_out() {
    for &(a, rin, rout) in &[
        (1u64, 1u64, 1u64),
        (1, 1, u64::MAX),
        (u64::MAX, u64::MAX, 1),
        (123_456, 1_000, 999_999_937),
        (5, 3, 8),
    ] {
        let out = calculate_swap_output(a, rin, rout).unwrap();
        assert!(out < rout);
        assert_eq!(out, model_output(a, rin, rout));
    }
}

#[test]
fn output_monotone_in_amount_in() {
    let mut prev = 0u64;
    for a in 1..2000u64 {
        let out = calculate_swap_output(a, 1_000_000, 2_000_000).unwrap();
        assert!(out >= prev);
        prev = out;
    }
}

#[test]
fn zero_reserve_rejected_in_pricing() {
    assert_eq!(
        calculate_swap_output(10, 0, 1_000),
        Err(SwapError::InsufficientLiquidity)
    );
    assert_eq!(
        calculate_swap_output(10, 1_000, 0),
        Err(SwapError::InsufficientLiquidity)
    );
    assert_eq!(
        calculate_swap_output(10, 0, 0),
        Err(SwapError::InsufficientLiquidity)
    );
}

#[test]
fn numerator_overflow_rejected() {
    // 997 * amount_in * reserve_out far exceeds the 128-bit working width.
    assert_eq!(
        calculate_swap_output(u64::MAX, 1, u64::MAX),
        Err(SwapError::MathOverflow)
    );
    assert_eq!(
        calculate_swap_output(u64::MAX, u64::MAX, u64::MAX),
        Err(SwapError::MathOverflow)
    );
}

#[test]
fn swap_updates_reserves_and_timestamp() {
    let mut pool = fresh_pool(1_000_000, 2_000_000);
    let user = key(9);
    let event = swap_sol_to_usdt(&mut pool, user, 1000, 1992, 42).unwrap();
    assert_eq!(pool.sol_reserve, 1_001_000);
    assert_eq!(pool.usdt_reserve, 2_000_000 - 1992);
    assert_eq!(pool.last_update_time, 42);
    assert_eq!(event.user, user);
    assert_eq!(event.token_in, key(1));
    assert_eq!(event.token_out, key(2));
    assert_eq!(event.amount_in, 1000);
    assert_eq!(event.amount_out, 1992);
    assert_eq!(event.timestamp, 42);
}

#[test]
fn swap_reverse_direction_moves_reserves_the_other_way() {
    let mut pool = fresh_pool(1_000_000, 2_000_000);
    let expected = model_output(1000, 2_000_000, 1_000_000);
    let event = swap_usdt_to_sol(&mut pool, key(9), 1000, 0, 43).unwrap();
    assert_eq!(pool.usdt_reserve, 2_001_000);
    assert_eq!(pool.sol_reserve, 1_000_000 - expected);
    assert_eq!(event.token_in, key(2));
    assert_eq!(event.token_out, key(1));
    assert_eq!(event.amount_out, expected);
}

#[test]
fn swap_request_entry_point_matches_direction_wrappers() {
    let mut a = fresh_pool(1_000_000, 2_000_000);
    let mut b = fresh_pool(1_000_000, 2_000_000);
    let request = SwapRequest {
        direction: SwapDirection::SolToUsdt,
        amount_in: 777,
        minimum_amount_out: 1,
    };
    let ra = swap(&mut a, request, key(9), 50);
    let rb = swap_sol_to_usdt(&mut b, key(9), 777, 1, 50);
    assert_eq!(ra, rb);
    assert_eq!(a, b);
}

#[test]
fn invariant_product_never_decreases() {
    for &(rin, rout, a) in &[
        (1_000_000u64, 2_000_000u64, 1000u64),
        (1, 1, 1),
        (3, 1_000_000_000, 7),
        (1_000_000_000, 3, 500),
    ] {
        let mut pool = fresh_pool(rin, rout);
        let before = rin as u128 * rout as u128;
        swap_sol_to_usdt(&mut pool, key(9), a, 0, 1).unwrap();
        let after = pool.sol_reserve as u128 * pool.usdt_reserve as u128;
        assert!(after >= before);
    }
}

#[test]
fn slippage_gate_one_unit_above_output() {
    let mut pool = fresh_pool(1_000_000, 2_000_000);
    let snapshot = pool;
    let true_out = model_output(1000, 1_000_000, 2_000_000);
    let r = swap_sol_to_usdt(&mut pool, key(9), 1000, true_out + 1, 42);
    assert_eq!(r, Err(SwapError::SlippageExceeded));
    assert_eq!(pool, snapshot);
    // Exactly at the true output the same swap goes through.
    assert!(swap_sol_to_usdt(&mut pool, key(9), 1000, true_out, 42).is_ok());
}

#[test]
fn zero_amount_rejected_first() {
    // Even against a depleted pool the zero amount is what gets reported.
    let mut pool = fresh_pool(0, 0);
    let snapshot = pool;
    let r = swap_sol_to_usdt(&mut pool, key(9), 0, 0, 42);
    assert_eq!(r, Err(SwapError::InvalidAmount));
    assert_eq!(pool, snapshot);
}

#[test]
fn depleted_pool_rejects_every_swap() {
    for &(rin, rout) in &[(0u64, 1_000u64), (1_000, 0), (0, 0)] {
        let mut pool = fresh_pool(rin, rout);
        let snapshot = pool;
        for a in [1u64, 1000, u64::MAX] {
            assert_eq!(
                swap_sol_to_usdt(&mut pool, key(9), a, 0, 42),
                Err(SwapError::InsufficientLiquidity)
            );
            assert_eq!(
                swap_usdt_to_sol(&mut pool, key(9), a, 0, 42),
                Err(SwapError::InsufficientLiquidity)
            );
            assert_eq!(pool, snapshot);
        }
    }
}

#[test]
fn round_trip_returns_strictly_less() {
    for &(rin, rout, a) in &[
        (1_000_000u64, 2_000_000u64, 1000u64),
        (1_000_000, 2_000_000, 1),
        (500, 500, 499),
        (1_000_000_000_000, 7, 123_456_789),
    ] {
        let mut pool = fresh_pool(rin, rout);
        let first = swap_sol_to_usdt(&mut pool, key(9), a, 0, 1).unwrap();
        if first.amount_out == 0 {
            // Nothing came out; nothing to swap back.
            continue;
        }
        let back = swap_usdt_to_sol(&mut pool, key(9), first.amount_out, 0, 2).unwrap();
        assert!(back.amount_out < a);
    }
}

#[test]
fn overflow_boundary_fails_cleanly() {
    // A huge input against large reserves overflows the widened numerator.
    let mut pool = fresh_pool(u64::MAX, u64::MAX);
    let snapshot = pool;
    let r = swap_sol_to_usdt(&mut pool, key(9), u64::MAX, 0, 42);
    assert_eq!(r, Err(SwapError::MathOverflow));
    assert_eq!(pool, snapshot);
}

#[test]
fn receiving_reserve_overflow_fails_cleanly() {
    // Pricing succeeds but the receiving reserve cannot absorb the input.
    let mut pool = fresh_pool(u64::MAX - 5, 1_000);
    let snapshot = pool;
    let r = swap_sol_to_usdt(&mut pool, key(9), 10, 0, 42);
    assert_eq!(r, Err(SwapError::MathOverflow));
    assert_eq!(pool, snapshot);
}

#[test]
fn apply_swap_is_all_or_nothing() {
    // The paying leg would go negative: nothing changes.
    let mut pool = fresh_pool(100, 50);
    let snapshot = pool;
    assert_eq!(
        apply_swap(&mut pool, SwapDirection::SolToUsdt, 10, 51, 9),
        Err(SwapError::InsufficientLiquidity)
    );
    assert_eq!(pool, snapshot);
    // The receiving leg would overflow: nothing changes, even though the
    // paying leg could pay.
    let mut pool = fresh_pool(u64::MAX, 50);
    let snapshot = pool;
    assert_eq!(
        apply_swap(&mut pool, SwapDirection::SolToUsdt, 1, 10, 9),
        Err(SwapError::MathOverflow)
    );
    assert_eq!(pool, snapshot);
    // Success applies both legs together and stamps the time.
    let mut pool = fresh_pool(100, 50);
    assert_eq!(apply_swap(&mut pool, SwapDirection::UsdtToSol, 7, 3, 77), Ok(()));
    assert_eq!(pool.usdt_reserve, 57);
    assert_eq!(pool.sol_reserve, 97);
    assert_eq!(pool.last_update_time, 77);
}

#[test]
fn initialize_pool_records_every_field() {
    let pool = initialize_pool(key(1), key(2), 5, 7, key(3), 200, 1234);
    assert_eq!(pool.sol_mint, key(1));
    assert_eq!(pool.usdt_mint, key(2));
    assert_eq!(pool.sol_reserve, 5);
    assert_eq!(pool.usdt_reserve, 7);
    assert_eq!(pool.authority, key(3));
    assert_eq!(pool.bump, 200);
    assert_eq!(pool.last_update_time, 1234);
}

#[test]
fn pool_record_width_has_no_padding() {
    // Two identities, two reserves, the authority, the nonce, the timestamp.
    assert_eq!(LiquidityPool::LEN, 32 + 32 + 8 + 8 + 32 + 1 + 8);
    assert_eq!(LiquidityPool::LEN, 121);
}
