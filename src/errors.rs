use vstd::prelude::*;

verus! {

/// The failures of the liquidity operations.
#[derive(Debug, Clone, Copy, PartialEq, Eq, Structural)]
pub enum DexError {
    /// The bounds are not ordered, or lie outside the tick domain.
    InvalidTickRange,
    /// Reserved: liquidity of zero where some is required.
    ZeroLiquidity,
    /// The requested amount is zero, or a custody balance did not grow enough.
    InsufficientInputAmount,
    /// Reserved: a token mint that does not belong to the pool.
    InvalidMint,
    /// A liquidity accumulator would exceed 128 bits.
    LiquidityOverflow,
}

} // verus!
