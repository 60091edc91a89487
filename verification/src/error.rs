//! The errors a call can end with. Every error is terminal for the current
//! call: a failed call produces no partial effects.

use vstd::prelude::*;

verus! {

/// Why a call was rejected.
#[derive(Clone, Copy, Debug, PartialEq, Eq, Structural)]
pub enum ContractError {
    /// The caller of a privileged operation is not the stored owner. The
    /// error carries nothing that would distinguish one wrong caller from
    /// another.
    Unauthorized,
    /// A recipient account failed the host's address validation.
    InvalidAddress,
    /// A query response envelope could not be decoded.
    DecodeFailure,
}

impl ContractError {
    /// A short name for the error, for callers that display it.
    pub fn as_text(&self) -> (r: &'static str)
        ensures
            *self == ContractError::Unauthorized ==> r@ == "unauthorized"@,
            *self == ContractError::InvalidAddress ==> r@ == "invalid address"@,
            *self == ContractError::DecodeFailure ==> r@ == "decode failure"@,
    {
        match self {
            ContractError::Unauthorized => "unauthorized",
            ContractError::InvalidAddress => "invalid address",
            ContractError::DecodeFailure => "decode failure",
        }
    }
}

} // verus!
