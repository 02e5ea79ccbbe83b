use vstd::prelude::*;
use anchor_lang::prelude::Pubkey;
use crate::errors::DexError;

verus! {

/// Lowest tick of the price domain.
pub const MIN_TICK: i32 = -887272;

/// Highest tick of the price domain.
pub const MAX_TICK: i32 = 887272;

/// Aggregate state of one trading pool.
pub struct Pool {
    pub token_0: Pubkey,
    pub token_1: Pubkey,
    /// Square root of the price, fixed point scaled by 2^96.
    pub sqrt_price_x96: u128,
    pub tick: i32,
    /// Liquidity active at the current tick.
    pub liquidity: u128,
    /// Bump seed of the pool's derived address.
    pub bump: u8,
    pub tick_spacing: u16,
}

/// Aggregate liquidity of a pool after a deposit of `amount`.
pub open spec fn pool_after(liquidity: int, amount: int) -> int {
    liquidity + amount
}

/// Aggregate liquidity of a new pool after the accepted deposits `ds`.
pub open spec fn pool_after_all(ds: Seq<int>) -> int
    decreases ds.len(),
{
    if ds.len() == 0 {
        0
    } else {
        pool_after(pool_after_all(ds.drop_last()), ds.last())
    }
}

impl Pool {
    /// The current tick lies in the tick domain.
    pub open spec fn wf(&self) -> bool {
        MIN_TICK <= self.tick <= MAX_TICK
    }

    /// A new pool for the ordered pair `(token_0, token_1)` with no liquidity.
    /// Fails with `InvalidTickRange` when `tick` lies outside the tick domain.
    pub fn initialize(
        token_0: Pubkey,
        token_1: Pubkey,
        sqrt_price_x96: u128,
        tick: i32,
        tick_spacing: u16,
        bump: u8,
    ) -> (r: Result<Pool, DexError>)
        ensures
            MIN_TICK <= tick <= MAX_TICK <==> r is Ok,
            !(MIN_TICK <= tick <= MAX_TICK) ==> r == Err::<Pool, DexError>(
                DexError::InvalidTickRange,
            ),
            r matches Ok(p) ==> p.wf() && p.token_0 == token_0 && p.token_1 == token_1
                && p.sqrt_price_x96 == sqrt_price_x96 && p.tick == tick && p.tick_spacing
                == tick_spacing && p.bump == bump && p.liquidity == 0,
    {
        if tick < MIN_TICK || tick > MAX_TICK {
            return Err(DexError::InvalidTickRange);
        }
        Ok(Pool { token_0, token_1, sqrt_price_x96, tick, liquidity: 0, bump, tick_spacing })
    }
}

} // verus!
