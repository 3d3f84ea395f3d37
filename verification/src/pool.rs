//! The persisted pool record: two reserve counters plus the identity and
//! addressing metadata fixed at creation.

use vstd::prelude::*;

verus! {

/// A 32-byte account identity, held as plain bytes. The swap logic never
/// inspects an identity; it only records and copies them.
#[derive(Clone, Copy, Debug, PartialEq, Eq)]
pub struct Pubkey {
    pub bytes: [u8; 32],
}

/// One liquidity pool for a distinct asset pair. Mutated only as a whole:
/// both reserves and the timestamp move together, never one without the
/// others.
#[derive(Clone, Copy, Debug, PartialEq, Eq)]
pub struct LiquidityPool {
    /// Identity of the base ("sol") asset.
    pub sol_mint: Pubkey,
    /// Identity of the quote ("usdt") asset.
    pub usdt_mint: Pubkey,
    /// The pool's holding of the base asset.
    pub sol_reserve: u64,
    /// The pool's holding of the quote asset.
    pub usdt_reserve: u64,
    /// Entity permitted to create and configure the pool.
    pub authority: Pubkey,
    /// Nonce used to re-derive the pool's custody address; fixed at creation.
    pub bump: u8,
    /// Wall-clock time of the most recent reserve mutation.
    pub last_update_time: i64,
}

impl LiquidityPool {
    /// Fixed-width size of the persisted record: two identities, two
    /// reserves, the authority, the derivation nonce, and the timestamp,
    /// with no padding.
    pub const LEN: usize = 32 + 32 + 8 + 8 + 32 + 1 + 8;
}

/// Creates a new pool bound to an asset pair: records the two asset
/// identities, seeds both reserves directly (no fee, no formula), and
/// stamps the creation time. Moving the seed deposits into custody is the
/// caller's concern.
pub fn initialize_pool(
    sol_mint: Pubkey,
    usdt_mint: Pubkey,
    initial_sol_amount: u64,
    initial_usdt_amount: u64,
    authority: Pubkey,
    bump: u8,
    now: i64,
) -> (pool: LiquidityPool)
    ensures
        pool.sol_mint == sol_mint,
        pool.usdt_mint == usdt_mint,
        pool.sol_reserve == initial_sol_amount,
        pool.usdt_reserve == initial_usdt_amount,
        pool.authority == authority,
        pool.bump == bump,
        pool.last_update_time == now,
{
    LiquidityPool {
        sol_mint,
        usdt_mint,
        sol_reserve: initial_sol_amount,
        usdt_reserve: initial_usdt_amount,
        authority,
        bump,
        last_update_time: now,
    }
}

} // verus!
