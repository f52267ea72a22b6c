use vstd::prelude::*;

use crate::pool::Pool;

verus! {

/// Announces the creation of a pool: the validated fee and the storage
/// address under which the host keeps the pool.
#[derive(Clone, Copy, Debug, PartialEq, Eq)]
pub struct PoolInitialized {
    pub fee: u64,
    pub pool_address: [u8; 32],
}

/// Announces a successful deposit: the two supplied amounts and the reserves
/// as they stand after the commit.
#[derive(Clone, Copy, Debug, PartialEq, Eq)]
pub struct LiquidityAdded {
    pub amount_a: u64,
    pub amount_b: u64,
    pub new_reserve_a: u64,
    pub new_reserve_b: u64,
    pub pool_address: [u8; 32],
}

/// Announces a successful swap: who traded, what went in and out, the
/// reserves after the commit, and the pool's fee.
#[derive(Clone, Copy, Debug, PartialEq, Eq)]
pub struct SwapExecuted {
    pub user: [u8; 32],
    pub amount_in: u64,
    pub amount_out: u64,
    pub new_reserve_a: u64,
    pub new_reserve_b: u64,
    pub fee: u64,
}

impl Pool {
    /// The `PoolInitialized` payload for this freshly created pool.
    pub fn initialized_event(&self, pool_address: [u8; 32]) -> (e: PoolInitialized)
        ensures
            e.fee == self.fee,
            e.pool_address == pool_address,
    {
        PoolInitialized { fee: self.fee, pool_address }
    }

    /// The `LiquidityAdded` payload, read off the committed pool state.
    pub fn liquidity_added_event(&self, amount_a: u64, amount_b: u64, pool_address: [u8; 32]) -> (e:
        LiquidityAdded)
        ensures
            e.amount_a == amount_a,
            e.amount_b == amount_b,
            e.new_reserve_a == self.token_a_reserve,
            e.new_reserve_b == self.token_b_reserve,
            e.pool_address == pool_address,
    {
        LiquidityAdded {
            amount_a,
            amount_b,
            new_reserve_a: self.token_a_reserve,
            new_reserve_b: self.token_b_reserve,
            pool_address,
        }
    }

    /// The `SwapExecuted` payload, read off the committed pool state.
    pub fn swap_executed_event(&self, user: [u8; 32], amount_in: u64, amount_out: u64) -> (e:
        SwapExecuted)
        ensures
            e.user == user,
            e.amount_in == amount_in,
            e.amount_out == amount_out,
            e.new_reserve_a == self.token_a_reserve,
            e.new_reserve_b == self.token_b_reserve,
            e.fee == self.fee,
    {
        SwapExecuted {
            user,
            amount_in,
            amount_out,
            new_reserve_a: self.token_a_reserve,
            new_reserve_b: self.token_b_reserve,
            fee: self.fee,
        }
    }
}

} // verus!
