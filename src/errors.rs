use vstd::prelude::*;
use crate::curve::CurveError;

verus! {

/// Why a custodial transfer cannot be made.
#[derive(Debug, Clone, Copy, PartialEq, Eq, Structural)]
pub enum TransferError {
    /// The source account holds less than the amount.
    InsufficientFunds,
    /// The destination balance would leave the range of `u64`.
    Overflow,
}

/// Every way an instruction of the pool can fail.
#[derive(Debug, Clone, Copy, PartialEq, Eq, Structural)]
pub enum AmmError {
    /// The pool is administratively disabled.
    PoolLocked,
    /// A zero input, or an output that rounding wiped out.
    InvalidAmount,
    /// A fee above one whole (10000 basis points).
    InvalidFee,
    /// The curve refused to quote.
    Curve(CurveError),
    /// A transfer could not be made.
    Transfer(TransferError),
}

} // verus!
