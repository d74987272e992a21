//! Errors of the CTR transform. Every failure is terminal for the call that
//! raised it: nothing is retried and no garbage output is substituted.

use vstd::prelude::*;

verus! {

/// Why a transform or a generator construction was refused.
#[derive(Clone, Copy, Debug, PartialEq, Eq, Structural)]
pub enum CtrError {
    /// The key is not the length the block cipher requires
    /// (raised at generator construction, never mid-stream).
    InvalidKeyLength,
    /// Destination and source buffers differ in length
    /// (raised before any byte is written).
    LengthMismatch,
}

impl CtrError {
    /// A short description, suitable for error reporting.
    pub fn describe(&self) -> (r: &'static str)
        ensures
            *self == CtrError::InvalidKeyLength ==> r@ == "invalid key length"@,
            *self == CtrError::LengthMismatch ==> r@ == "length mismatch"@,
    {
        match self {
            CtrError::InvalidKeyLength => "invalid key length",
            CtrError::LengthMismatch => "length mismatch",
        }
    }
}

} // verus!
