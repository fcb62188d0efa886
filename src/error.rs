//! Why an operation was refused.

use vstd::prelude::*;

verus! {

/// The failures of the engine's operations. Each is detected before any
/// record changes or any settlement instruction is produced.
#[derive(Copy, Clone, Debug, PartialEq, Eq, Structural)]
pub enum CustomError {
    /// A contracted capacity is zero.
    InvalidCapacity,
    /// A rate is zero.
    InvalidRate,
    /// A reservoir level is zero or above the capacity.
    InvalidReservoirLevel,
    /// A reservoir capacity is zero.
    InvalidReservoirCapacity,
    /// An amount or a factor is zero.
    InvalidAmount,
    /// A key does not match the record or the assignment it must match.
    Unauthorized,
    /// A payment exceeds the balance it extinguishes.
    OverPayment,
    /// A fixed-point result does not fit its integer type; the operation
    /// is abandoned as a whole.
    ArithmeticOverflow,
}

} // verus!
