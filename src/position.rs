use vstd::prelude::*;
use anchor_lang::prelude::Pubkey;
use crate::errors::DexError;

verus! {

/// An owner's liquidity committed to the tick range `[tick_lower, tick_upper)`.
pub struct PositionInfo {
    pub owner: Pubkey,
    pub tick_lower: i32,
    pub tick_upper: i32,
    pub liquidity: u128,
}

/// Liquidity of a position record after a deposit of `amount`: a record that
/// does not exist yet starts from the deposit.
pub open spec fn position_after(existing: Option<int>, amount: int) -> int {
    match existing {
        None => amount,
        Some(l) => l + amount,
    }
}

/// Liquidity of the record of one key after the deposits `ds`, in order, made
/// from a state where the record did not exist.
pub open spec fn position_after_all(ds: Seq<int>) -> Option<int>
    decreases ds.len(),
{
    if ds.len() == 0 {
        None
    } else {
        Some(position_after(position_after_all(ds.drop_last()), ds.last()))
    }
}

impl PositionInfo {
    /// A fresh record for `owner` on `[tick_lower, tick_upper)`.
    pub fn new(owner: Pubkey, tick_lower: i32, tick_upper: i32, liquidity: u128) -> (r:
        PositionInfo)
        ensures
            r.owner == owner,
            r.tick_lower == tick_lower,
            r.tick_upper == tick_upper,
            r.liquidity == liquidity,
    {
        PositionInfo { owner, tick_lower, tick_upper, liquidity }
    }

    /// Adds `liquidity_delta` to the committed liquidity. On overflow nothing
    /// changes.
    pub fn update(&mut self, liquidity_delta: u128) -> (r: Result<(), DexError>)
        ensures
            final(self).owner == old(self).owner,
            final(self).tick_lower == old(self).tick_lower,
            final(self).tick_upper == old(self).tick_upper,
            old(self).liquidity + liquidity_delta > u128::MAX ==> r == Err::<(), DexError>(
                DexError::LiquidityOverflow,
            ) && final(self).liquidity == old(self).liquidity,
            old(self).liquidity + liquidity_delta <= u128::MAX ==> r is Ok && final(self).liquidity
                == old(self).liquidity + liquidity_delta,
    {
        match self.liquidity.checked_add(liquidity_delta) {
            None => Err(DexError::LiquidityOverflow),
            Some(l) => {
                self.liquidity = l;
                Ok(())
            },
        }
    }
}

} // verus!
