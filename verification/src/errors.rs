use vstd::prelude::*;

verus! {

/// Every way a pool operation can fail. A failed operation is a complete
/// no-op: the pool state it targeted is left exactly as it was.
#[derive(Clone, Copy, Debug, PartialEq, Eq, Structural)]
pub enum CustomError {
    /// The pool holds no liquidity on one side, so a trade cannot be priced.
    InsufficientLiquidity,
    /// The computed output is zero (trade too small) or exceeds the reserve.
    InsufficientOutput,
    /// A swap was requested with a zero input amount.
    InvalidSwapAmount,
    /// A deposit was requested with a zero amount on either side.
    InvalidLiquidityAmount,
    /// The requested fee exceeds 10000 basis points (100%).
    InvalidFee,
    /// A checked addition or multiplication would exceed `u64::MAX`.
    Overflow,
    /// A checked subtraction would drop below zero.
    Underflow,
}

} // verus!
