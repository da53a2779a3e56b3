//! Error codes, kept consistent across the contracts.
use vstd::prelude::*;

pub mod vesting;
pub mod factory;
pub mod governor;
pub mod stream;
pub mod multisig;
pub mod oracle;

verus! {

pub const ALREADY_INITIALIZED: u32 = 1;
pub const NOT_INITIALIZED: u32 = 2;
pub const UNAUTHORIZED: u32 = 3;

} // verus!
