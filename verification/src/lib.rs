//! A two-asset constant-product market maker: swap pricing with a fixed
//! 0.3% fee, overflow-checked reserve arithmetic, and the pool state
//! transitions that every exchange must respect.

pub mod engine;
pub mod error;
pub mod math;
pub mod pool;

pub use engine::{
    apply_swap, swap, swap_sol_to_usdt, swap_usdt_to_sol, SwapDirection, SwapEvent, SwapRequest,
};
pub use error::SwapError;
pub use math::calculate_swap_output;
pub use pool::{initialize_pool, LiquidityPool, Pubkey};
