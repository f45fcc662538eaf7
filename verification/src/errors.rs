//! Failure taxonomy of the pool program.
//!
//! Structural and lifecycle failures, arithmetic failures surfaced as a
//! generic invalid-data error, and the caller-actionable slippage signal
//! are kept apart so a caller can tell a malformed call from a trade that
//! merely ran past its bound.

use vstd::prelude::*;
use crate::curve::CurveError;

verus! {

/// Error returned by decoders and operation processors.
#[derive(Clone, Copy, Debug, PartialEq, Eq)]
pub enum AmmError {
    /// The supplied account list does not have the exact expected arity.
    NotEnoughAccountKeys,
    /// The first account of the list has not signed the call.
    MissingRequiredSignature,
    /// The payload is short, holds a zero amount, or an arithmetic step
    /// overflowed while serving it.
    InvalidInstructionData,
    /// An account's stored bytes are not what the operation requires:
    /// wrong record length, forbidden lifecycle state, or empty balances
    /// where the curve needs liquidity.
    InvalidAccountData,
    /// A computed amount ran past a caller-supplied deposit/withdraw bound.
    InvalidArgument,
    /// A swap's computed output fell below the caller's minimum.
    SlippageExceeded,
}

/// How each curve failure surfaces to the caller: arithmetic faults are
/// deliberately collapsed into generic invalid-data errors, while the
/// slippage signal stays distinct.
pub open spec fn curve_error_to_amm(e: CurveError) -> AmmError {
    match e {
        CurveError::Overflow => AmmError::InvalidInstructionData,
        CurveError::Underflow => AmmError::InvalidInstructionData,
        CurveError::ZeroBalance => AmmError::InvalidAccountData,
        CurveError::SlippageExceeded => AmmError::SlippageExceeded,
    }
}

/// Map a curve failure to the program-level error handed to the caller.
pub fn map_curve_error(e: CurveError) -> (r: AmmError)
    ensures
        r == curve_error_to_amm(e),
{
    match e {
        CurveError::Overflow => AmmError::InvalidInstructionData,
        CurveError::Underflow => AmmError::InvalidInstructionData,
        CurveError::ZeroBalance => AmmError::InvalidAccountData,
        CurveError::SlippageExceeded => AmmError::SlippageExceeded,
    }
}

} // verus!
