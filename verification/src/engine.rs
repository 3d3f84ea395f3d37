//! One swap, end to end: validate the request, price it, gate it on the
//! caller's slippage floor, and commit the two-legged reserve change as a
//! single unit. Custody transfers happen outside this crate, strictly
//! after validation and pricing succeed.

use vstd::prelude::*;
use vstd::arithmetic::mul::lemma_mul_is_commutative;
use crate::error::SwapError;
use crate::math::{calculate_swap_output, output_overflows, swap_output, lemma_reserve_product_grows};
use crate::pool::{LiquidityPool, Pubkey};

verus! {

/// Which reserve plays the role of the input side.
#[derive(Clone, Copy, Debug, PartialEq, Eq, Structural)]
pub enum SwapDirection {
    /// The caller pays base ("sol") and receives quote ("usdt").
    SolToUsdt,
    /// The caller pays quote ("usdt") and receives base ("sol").
    UsdtToSol,
}

/// One swap request: a direction, an input amount, and the caller's
/// worst-acceptable output.
#[derive(Clone, Copy, Debug, PartialEq, Eq)]
pub struct SwapRequest {
    pub direction: SwapDirection,
    pub amount_in: u64,
    pub minimum_amount_out: u64,
}

/// The record produced by a completed swap, carrying everything an
/// external notification needs.
#[derive(Clone, Copy, Debug, PartialEq, Eq)]
pub struct SwapEvent {
    pub user: Pubkey,
    pub token_in: Pubkey,
    pub token_out: Pubkey,
    pub amount_in: u64,
    pub amount_out: u64,
    pub timestamp: i64,
}

/// The reserve that receives the input amount, by direction.
pub open spec fn reserve_in_of(pool: LiquidityPool, direction: SwapDirection) -> int {
    match direction {
        SwapDirection::SolToUsdt => pool.sol_reserve as int,
        SwapDirection::UsdtToSol => pool.usdt_reserve as int,
    }
}

/// The reserve that pays the output amount, by direction.
pub open spec fn reserve_out_of(pool: LiquidityPool, direction: SwapDirection) -> int {
    match direction {
        SwapDirection::SolToUsdt => pool.usdt_reserve as int,
        SwapDirection::UsdtToSol => pool.sol_reserve as int,
    }
}

/// Identity of the asset the caller pays, by direction.
pub open spec fn token_in_of(pool: LiquidityPool, direction: SwapDirection) -> Pubkey {
    match direction {
        SwapDirection::SolToUsdt => pool.sol_mint,
        SwapDirection::UsdtToSol => pool.usdt_mint,
    }
}

/// Identity of the asset the caller receives, by direction.
pub open spec fn token_out_of(pool: LiquidityPool, direction: SwapDirection) -> Pubkey {
    match direction {
        SwapDirection::SolToUsdt => pool.usdt_mint,
        SwapDirection::UsdtToSol => pool.sol_mint,
    }
}

/// When a swap succeeds: a positive input against two positive reserves,
/// a priced output within the working width and at or above the caller's
/// floor, and a receiving reserve that still fits in 64 bits afterwards.
pub open spec fn swap_allowed(
    amount_in: int,
    reserve_in: int,
    reserve_out: int,
    minimum_amount_out: int,
) -> bool {
    &&& amount_in > 0
    &&& reserve_in > 0
    &&& reserve_out > 0
    &&& !output_overflows(amount_in, reserve_out)
    &&& swap_output(amount_in, reserve_in, reserve_out) >= minimum_amount_out
    &&& reserve_in + amount_in <= u64::MAX as int
}

/// Which error a disallowed swap fails with, in the order the checks run:
/// a zero amount is rejected before any reserve is read, a depleted pool
/// before pricing, an overflowing numerator before the slippage gate, and
/// a receiving reserve that would overflow last.
pub open spec fn swap_failure(
    amount_in: int,
    reserve_in: int,
    reserve_out: int,
    minimum_amount_out: int,
) -> SwapError {
    if amount_in <= 0 {
        SwapError::InvalidAmount
    } else if reserve_in <= 0 || reserve_out <= 0 {
        SwapError::InsufficientLiquidity
    } else if output_overflows(amount_in, reserve_out) {
        SwapError::MathOverflow
    } else if swap_output(amount_in, reserve_in, reserve_out) < minimum_amount_out {
        SwapError::SlippageExceeded
    } else {
        SwapError::MathOverflow
    }
}

/// Applies a validated swap's balance delta to the two reserve fields as
/// one unit and stamps the update time. Either every field changes or none
/// does: both new reserve values are computed, with checked arithmetic,
/// before the first one is written.
pub fn apply_swap(
    pool: &mut LiquidityPool,
    direction: SwapDirection,
    amount_in: u64,
    amount_out: u64,
    now: i64,
) -> (r: Result<(), SwapError>)
    ensures
        r is Ok <==> (reserve_in_of(*old(pool), direction) + amount_in <= u64::MAX as int
            && amount_out <= reserve_out_of(*old(pool), direction)),
        r == Err::<(), SwapError>(SwapError::MathOverflow) <==> reserve_in_of(
            *old(pool),
            direction,
        ) + amount_in > u64::MAX as int,
        r == Err::<(), SwapError>(SwapError::InsufficientLiquidity) <==> (reserve_in_of(
            *old(pool),
            direction,
        ) + amount_in <= u64::MAX as int && amount_out > reserve_out_of(*old(pool), direction)),
        r is Ok ==> reserve_in_of(*final(pool), direction) == reserve_in_of(*old(pool), direction)
            + amount_in,
        r is Ok ==> reserve_out_of(*final(pool), direction) == reserve_out_of(
            *old(pool),
            direction,
        ) - amount_out,
        r is Ok ==> final(pool).last_update_time == now,
        r is Ok ==> final(pool).sol_mint == old(pool).sol_mint && final(pool).usdt_mint == old(
            pool,
        ).usdt_mint && final(pool).authority == old(pool).authority && final(pool).bump == old(
            pool,
        ).bump,
        r is Err ==> *final(pool) == *old(pool),
{
    match direction {
        SwapDirection::SolToUsdt => {
            let new_in = match pool.sol_reserve.checked_add(amount_in) {
                Some(v) => v,
                None => {
                    return Err(SwapError::MathOverflow);
                },
            };
            let new_out = match pool.usdt_reserve.checked_sub(amount_out) {
                Some(v) => v,
                None => {
                    return Err(SwapError::InsufficientLiquidity);
                },
            };
            pool.sol_reserve = new_in;
            pool.usdt_reserve = new_out;
        },
        SwapDirection::UsdtToSol => {
            let new_in = match pool.usdt_reserve.checked_add(amount_in) {
                Some(v) => v,
                None => {
                    return Err(SwapError::MathOverflow);
                },
            };
            let new_out = match pool.sol_reserve.checked_sub(amount_out) {
                Some(v) => v,
                None => {
                    return Err(SwapError::InsufficientLiquidity);
                },
            };
            pool.usdt_reserve = new_in;
            pool.sol_reserve = new_out;
        },
    }
    pool.last_update_time = now;
    Ok(())
}

/// Orchestrates one swap: rejects a zero amount, prices the input against
/// the reserves the direction selects, enforces the caller's slippage
/// floor, and only then commits the reserve change. Any failure leaves the
/// pool untouched; success grows the reserve product.
pub fn swap(pool: &mut LiquidityPool, request: SwapRequest, user: Pubkey, now: i64) -> (r: Result<
    SwapEvent,
    SwapError,
>)
    ensures
        r is Ok <==> swap_allowed(
            request.amount_in as int,
            reserve_in_of(*old(pool), request.direction),
            reserve_out_of(*old(pool), request.direction),
            request.minimum_amount_out as int,
        ),
        r is Err ==> *final(pool) == *old(pool),
        r is Err ==> r->Err_0 == swap_failure(
            request.amount_in as int,
            reserve_in_of(*old(pool), request.direction),
            reserve_out_of(*old(pool), request.direction),
            request.minimum_amount_out as int,
        ),
        r is Ok ==> reserve_in_of(*final(pool), request.direction) == reserve_in_of(
            *old(pool),
            request.direction,
        ) + request.amount_in,
        r is Ok ==> reserve_out_of(*final(pool), request.direction) == reserve_out_of(
            *old(pool),
            request.direction,
        ) - swap_output(
            request.amount_in as int,
            reserve_in_of(*old(pool), request.direction),
            reserve_out_of(*old(pool), request.direction),
        ),
        r is Ok ==> final(pool).last_update_time == now,
        r is Ok ==> final(pool).sol_mint == old(pool).sol_mint && final(pool).usdt_mint == old(
            pool,
        ).usdt_mint && final(pool).authority == old(pool).authority && final(pool).bump == old(
            pool,
        ).bump,
        r is Ok ==> r->Ok_0.user == user && r->Ok_0.token_in == token_in_of(
            *old(pool),
            request.direction,
        ) && r->Ok_0.token_out == token_out_of(*old(pool), request.direction)
            && r->Ok_0.amount_in == request.amount_in && r->Ok_0.amount_out == swap_output(
            request.amount_in as int,
            reserve_in_of(*old(pool), request.direction),
            reserve_out_of(*old(pool), request.direction),
        ) && r->Ok_0.timestamp == now,
        r is Ok ==> (final(pool).sol_reserve as int) * (final(pool).usdt_reserve as int) >= (old(
            pool,
        ).sol_reserve as int) * (old(pool).usdt_reserve as int),
{
    if request.amount_in == 0 {
        return Err(SwapError::InvalidAmount);
    }
    let (reserve_in, reserve_out) = match request.direction {
        SwapDirection::SolToUsdt => (pool.sol_reserve, pool.usdt_reserve),
        SwapDirection::UsdtToSol => (pool.usdt_reserve, pool.sol_reserve),
    };
    let amount_out = match calculate_swap_output(request.amount_in, reserve_in, reserve_out) {
        Ok(v) => v,
        Err(e) => {
            return Err(e);
        },
    };
    if amount_out < request.minimum_amount_out {
        return Err(SwapError::SlippageExceeded);
    }
    let (token_in, token_out) = match request.direction {
        SwapDirection::SolToUsdt => (pool.sol_mint, pool.usdt_mint),
        SwapDirection::UsdtToSol => (pool.usdt_mint, pool.sol_mint),
    };
    match apply_swap(pool, request.direction, request.amount_in, amount_out, now) {
        Ok(()) => {},
        Err(e) => {
            return Err(e);
        },
    }
    proof {
        lemma_reserve_product_grows(
            request.amount_in as int,
            reserve_in as int,
            reserve_out as int,
        );
        lemma_mul_is_commutative(
            reserve_in as int + request.amount_in as int,
            reserve_out as int - amount_out as int,
        );
        lemma_mul_is_commutative(reserve_in as int, reserve_out as int);
    }
    Ok(
        SwapEvent {
            user,
            token_in,
            token_out,
            amount_in: request.amount_in,
            amount_out,
            timestamp: now,
        },
    )
}

/// Swap base for quote: the base reserve is the input side.
pub fn swap_sol_to_usdt(
    pool: &mut LiquidityPool,
    user: Pubkey,
    amount_in: u64,
    minimum_amount_out: u64,
    now: i64,
) -> (r: Result<SwapEvent, SwapError>)
    ensures
        r is Ok <==> swap_allowed(
            amount_in as int,
            old(pool).sol_reserve as int,
            old(pool).usdt_reserve as int,
            minimum_amount_out as int,
        ),
        r is Err ==> *final(pool) == *old(pool),
        r is Err ==> r->Err_0 == swap_failure(
            amount_in as int,
            old(pool).sol_reserve as int,
            old(pool).usdt_reserve as int,
            minimum_amount_out as int,
        ),
        r is Ok ==> final(pool).sol_reserve == old(pool).sol_reserve + amount_in,
        r is Ok ==> final(pool).usdt_reserve == old(pool).usdt_reserve - swap_output(
            amount_in as int,
            old(pool).sol_reserve as int,
            old(pool).usdt_reserve as int,
        ),
        r is Ok ==> final(pool).last_update_time == now,
        r is Ok ==> final(pool).sol_mint == old(pool).sol_mint && final(pool).usdt_mint == old(
            pool,
        ).usdt_mint && final(pool).authority == old(pool).authority && final(pool).bump == old(
            pool,
        ).bump,
        r is Ok ==> r->Ok_0.user == user && r->Ok_0.token_in == old(pool).sol_mint
            && r->Ok_0.token_out == old(pool).usdt_mint && r->Ok_0.amount_in == amount_in
            && r->Ok_0.amount_out == swap_output(
            amount_in as int,
            old(pool).sol_reserve as int,
            old(pool).usdt_reserve as int,
        ) && r->Ok_0.timestamp == now,
        r is Ok ==> (final(pool).sol_reserve as int) * (final(pool).usdt_reserve as int) >= (old(
            pool,
        ).sol_reserve as int) * (old(pool).usdt_reserve as int),
{
    let request = SwapRequest {
        direction: SwapDirection::SolToUsdt,
        amount_in,
        minimum_amount_out,
    };
    swap(pool, request, user, now)
}

/// Swap quote for base: the quote reserve is the input side.
pub fn swap_usdt_to_sol(
    pool: &mut LiquidityPool,
    user: Pubkey,
    amount_in: u64,
    minimum_amount_out: u64,
    now: i64,
) -> (r: Result<SwapEvent, SwapError>)
    ensures
        r is Ok <==> swap_allowed(
            amount_in as int,
            old(pool).usdt_reserve as int,
            old(pool).sol_reserve as int,
            minimum_amount_out as int,
        ),
        r is Err ==> *final(pool) == *old(pool),
        r is Err ==> r->Err_0 == swap_failure(
            amount_in as int,
            old(pool).usdt_reserve as int,
            old(pool).sol_reserve as int,
            minimum_amount_out as int,
        ),
        r is Ok ==> final(pool).usdt_reserve == old(pool).usdt_reserve + amount_in,
        r is Ok ==> final(pool).sol_reserve == old(pool).sol_reserve - swap_output(
            amount_in as int,
            old(pool).usdt_reserve as int,
            old(pool).sol_reserve as int,
        ),
        r is Ok ==> final(pool).last_update_time == now,
        r is Ok ==> final(pool).sol_mint == old(pool).sol_mint && final(pool).usdt_mint == old(
            pool,
        ).usdt_mint && final(pool).authority == old(pool).authority && final(pool).bump == old(
            pool,
        ).bump,
        r is Ok ==> r->Ok_0.user == user && r->Ok_0.token_in == old(pool).usdt_mint
            && r->Ok_0.token_out == old(pool).sol_mint && r->Ok_0.amount_in == amount_in
            && r->Ok_0.amount_out == swap_output(
            amount_in as int,
            old(pool).usdt_reserve as int,
            old(pool).sol_reserve as int,
        ) && r->Ok_0.timestamp == now,
        r is Ok ==> (final(pool).sol_reserve as int) * (final(pool).usdt_reserve as int) >= (old(
            pool,
        ).sol_reserve as int) * (old(pool).usdt_reserve as int),
{
    let request = SwapRequest {
        direction: SwapDirection::UsdtToSol,
        amount_in,
        minimum_amount_out,
    };
    swap(pool, request, user, now)
}

} // verus!
