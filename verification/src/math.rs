//! Constant-product pricing: the output amount owed for a given input
//! amount against a pair of reserves, with a fixed 0.3% fee deducted from
//! the input before pricing.

use vstd::prelude::*;
use vstd::arithmetic::div_mod::{
    lemma_div_is_ordered, lemma_div_multiples_vanish, lemma_div_pos_is_pos,
    lemma_fundamental_div_mod, lemma_mod_division_less_than_divisor, lemma_multiply_divide_lt,
};
use crate::error::SwapError;

verus! {

/// The mathematical output of the pricing formula: with the fee folded in,
/// `floor(997 * amount_in * reserve_out / (1000 * reserve_in + 997 * amount_in))`.
/// Division truncates toward zero, which always favors the pool.
pub open spec fn swap_output(amount_in: int, reserve_in: int, reserve_out: int) -> int {
    (997 * amount_in * reserve_out) / (1000 * reserve_in + 997 * amount_in)
}

/// The one arithmetic step of the pricing formula whose intermediate can
/// exceed the 128-bit working width: the numerator `997 * amount_in * reserve_out`.
pub open spec fn output_overflows(amount_in: int, reserve_out: int) -> bool {
    997 * amount_in * reserve_out > u128::MAX as int
}

/// The output is well defined and can never drain the output reserve:
/// `0 <= swap_output < reserve_out` whenever both reserves are positive.
pub proof fn lemma_swap_output_bounds(amount_in: int, reserve_in: int, reserve_out: int)
    requires
        0 <= amount_in,
        0 < reserve_in,
        0 < reserve_out,
    ensures
        0 <= swap_output(amount_in, reserve_in, reserve_out),
        swap_output(amount_in, reserve_in, reserve_out) < reserve_out,
{
    let n = 997 * amount_in * reserve_out;
    let d = 1000 * reserve_in + 997 * amount_in;
    assert(0 <= n && 0 < d && n < d * reserve_out) by (nonlinear_arith)
        requires
            0 <= amount_in,
            0 < reserve_in,
            0 < reserve_out,
            n == 997 * amount_in * reserve_out,
            d == 1000 * reserve_in + 997 * amount_in;
    lemma_div_pos_is_pos(n, d);
    lemma_multiply_divide_lt(n, d, reserve_out);
}

/// Integer-division monotonicity through cross-multiplication: if the
/// fraction `n1 / d1` is at most `n2 / d2` as rationals, the floors are
/// ordered the same way.
proof fn lemma_div_frac_le(n1: int, d1: int, n2: int, d2: int)
    requires
        0 <= n1,
        0 < d1,
        0 < d2,
        n1 * d2 <= n2 * d1,
    ensures
        n1 / d1 <= n2 / d2,
{
    let q1 = n1 / d1;
    lemma_fundamental_div_mod(n1, d1);
    lemma_mod_division_less_than_divisor(n1, d1);
    assert(d1 * q1 <= n1);
    assert(d2 * q1 * d1 <= n2 * d1) by (nonlinear_arith)
        requires
            0 < d1,
            0 < d2,
            d1 * q1 <= n1,
            n1 * d2 <= n2 * d1;
    assert(d2 * q1 <= n2) by (nonlinear_arith)
        requires
            0 < d1,
            d2 * q1 * d1 <= n2 * d1;
    lemma_div_multiples_vanish(q1, d2);
    lemma_div_is_ordered(d2 * q1, n2, d2);
}

/// Monotonicity of the pricing formula: increasing the input amount while
/// holding both reserves fixed never decreases the output amount.
pub proof fn lemma_swap_output_monotonic(a1: int, a2: int, reserve_in: int, reserve_out: int)
    requires
        0 <= a1 <= a2,
        0 < reserve_in,
        0 < reserve_out,
    ensures
        swap_output(a1, reserve_in, reserve_out) <= swap_output(a2, reserve_in, reserve_out),
{
    let n1 = 997 * a1 * reserve_out;
    let d1 = 1000 * reserve_in + 997 * a1;
    let n2 = 997 * a2 * reserve_out;
    let d2 = 1000 * reserve_in + 997 * a2;
    assert(0 <= n1 && 0 < d1 && 0 < d2 && n1 * d2 <= n2 * d1) by (nonlinear_arith)
        requires
            0 <= a1 <= a2,
            0 < reserve_in,
            0 < reserve_out,
            n1 == 997 * a1 * reserve_out,
            d1 == 1000 * reserve_in + 997 * a1,
            n2 == 997 * a2 * reserve_out,
            d2 == 1000 * reserve_in + 997 * a2;
    lemma_div_frac_le(n1, d1, n2, d2);
}

/// The rational bound behind fee conservation: the output times the grown
/// input reserve never exceeds the input amount times the old output
/// reserve, i.e. `out * (reserve_in + amount_in) <= amount_in * reserve_out`.
proof fn lemma_output_value_bound(amount_in: int, reserve_in: int, reserve_out: int)
    requires
        0 < amount_in,
        0 < reserve_in,
        0 < reserve_out,
    ensures
        swap_output(amount_in, reserve_in, reserve_out) * (reserve_in + amount_in) <= amount_in
            * reserve_out,
{
    let n = 997 * amount_in * reserve_out;
    let d = 1000 * reserve_in + 997 * amount_in;
    let out = n / d;
    lemma_swap_output_bounds(amount_in, reserve_in, reserve_out);
    lemma_fundamental_div_mod(n, d);
    lemma_mod_division_less_than_divisor(n, d);
    assert(out * d <= n);
    assert(out * (reserve_in + amount_in) <= amount_in * reserve_out) by (nonlinear_arith)
        requires
            0 < amount_in,
            0 < reserve_in,
            0 < reserve_out,
            n == 997 * amount_in * reserve_out,
            d == 1000 * reserve_in + 997 * amount_in,
            out * d <= n,
            0 <= out,
            out < reserve_out;
}

/// Invariant growth: a successful swap never decreases the product of the
/// two reserves. The fee plus floor rounding always favor the pool.
pub proof fn lemma_reserve_product_grows(amount_in: int, reserve_in: int, reserve_out: int)
    requires
        0 < amount_in,
        0 < reserve_in,
        0 < reserve_out,
    ensures
        (reserve_in + amount_in) * (reserve_out - swap_output(amount_in, reserve_in, reserve_out))
            >= reserve_in * reserve_out,
{
    let out = swap_output(amount_in, reserve_in, reserve_out);
    lemma_output_value_bound(amount_in, reserve_in, reserve_out);
    assert((reserve_in + amount_in) * (reserve_out - out) >= reserve_in * reserve_out)
        by (nonlinear_arith)
        requires
            out * (reserve_in + amount_in) <= amount_in * reserve_out;
}

/// Round-trip near-conservation: swapping an amount one way and swapping
/// the entire proceeds back always returns strictly less than the original
/// amount. The fee leaks value to the pool on every leg, never to the caller.
pub proof fn lemma_round_trip_loses(amount_in: int, reserve_in: int, reserve_out: int)
    requires
        0 < amount_in,
        0 < reserve_in,
        0 < reserve_out,
    ensures
        ({
            let first_out = swap_output(amount_in, reserve_in, reserve_out);
            swap_output(first_out, reserve_out - first_out, reserve_in + amount_in) < amount_in
        }),
{
    let o1 = swap_output(amount_in, reserve_in, reserve_out);
    lemma_swap_output_bounds(amount_in, reserve_in, reserve_out);
    lemma_output_value_bound(amount_in, reserve_in, reserve_out);
    let n2 = 997 * o1 * (reserve_in + amount_in);
    let d2 = 1000 * (reserve_out - o1) + 997 * o1;
    assert(0 < d2 && n2 < d2 * amount_in) by (nonlinear_arith)
        requires
            0 < amount_in,
            0 < reserve_in,
            0 < reserve_out,
            0 <= o1,
            o1 < reserve_out,
            o1 * (reserve_in + amount_in) <= amount_in * reserve_out,
            n2 == 997 * o1 * (reserve_in + amount_in),
            d2 == 1000 * (reserve_out - o1) + 997 * o1;
    lemma_multiply_divide_lt(n2, d2, amount_in);
}

/// Computes the swap output with checked arithmetic, widened to 128 bits.
///
/// Fails with `InsufficientLiquidity` exactly when a reserve is zero, and
/// with `MathOverflow` exactly when the widened numerator would exceed the
/// 128-bit working width. On success the result is exactly the floor-divided
/// constant-product formula, and is strictly less than `reserve_out`.
pub fn calculate_swap_output(amount_in: u64, reserve_in: u64, reserve_out: u64) -> (r: Result<
    u64,
    SwapError,
>)
    ensures
        r == Err::<u64, SwapError>(SwapError::InsufficientLiquidity) <==> (reserve_in == 0
            || reserve_out == 0),
        r == Err::<u64, SwapError>(SwapError::MathOverflow) <==> (reserve_in > 0 && reserve_out > 0
            && output_overflows(amount_in as int, reserve_out as int)),
        r is Ok <==> (reserve_in > 0 && reserve_out > 0 && !output_overflows(
            amount_in as int,
            reserve_out as int,
        )),
        r is Ok ==> r->Ok_0 == swap_output(amount_in as int, reserve_in as int, reserve_out as int)
            && r->Ok_0 < reserve_out,
{
    if reserve_in == 0 || reserve_out == 0 {
        return Err(SwapError::InsufficientLiquidity);
    }
    // Apply the 0.3% fee: only 997/1000 of the input participates.
    let amount_in_with_fee: u128 = (amount_in as u128) * 997;
    let numerator: u128 = match amount_in_with_fee.checked_mul(reserve_out as u128) {
        Some(n) => n,
        None => {
            return Err(SwapError::MathOverflow);
        },
    };
    let denominator: u128 = (reserve_in as u128) * 1000 + amount_in_with_fee;
    let amount_out: u128 = numerator / denominator;
    proof {
        lemma_swap_output_bounds(amount_in as int, reserve_in as int, reserve_out as int);
    }
    Ok(amount_out as u64)
}

} // verus!
