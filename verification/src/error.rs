use vstd::prelude::*;

verus! {

/// The terminal failure kinds of the swap engine. Every error aborts the
/// whole operation; none is retried internally.
#[derive(Clone, Copy, Debug, PartialEq, Eq, Structural)]
pub enum SwapError {
    /// The requested input amount is zero.
    InvalidAmount,
    /// The computed output is below the caller's floor.
    SlippageExceeded,
    /// A reserve is zero going into pricing, or a subtraction would drive
    /// a reserve negative.
    InsufficientLiquidity,
    /// A checked arithmetic step would overflow its safe width.
    MathOverflow,
}

} // verus!
