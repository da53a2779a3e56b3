//! Error variants shared by the StellarForge contracts.
use vstd::prelude::*;

verus! {

/// Failures common to all contracts.
#[derive(Clone, Copy, Debug, PartialEq, Eq, Structural)]
pub enum CommonError {
    /// Initialization was called on a contract that is already set up.
    AlreadyInitialized,
    /// A call needs a contract that has not been set up yet.
    NotInitialized,
    /// The caller lacks the permission for the action.
    Unauthorized,
}

impl CommonError {
    /// The error code on the ledger: 1, 2 and 3 in declaration order.
    pub fn code(&self) -> (c: u32)
        ensures
            c == (match *self {
                CommonError::AlreadyInitialized => 1u32,
                CommonError::NotInitialized => 2u32,
                CommonError::Unauthorized => 3u32,
            }),
    {
        match self {
            CommonError::AlreadyInitialized => crate::constants::error_codes::ALREADY_INITIALIZED,
            CommonError::NotInitialized => crate::constants::error_codes::NOT_INITIALIZED,
            CommonError::Unauthorized => crate::constants::error_codes::UNAUTHORIZED,
        }
    }
}

} // verus!
