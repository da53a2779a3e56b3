//! Codes of the multisig wallet's errors.
use vstd::prelude::*;

verus! {

pub const PROPOSAL_NOT_FOUND: u32 = 1;
pub const UNAUTHORIZED: u32 = 2;
pub const ALREADY_EXECUTED: u32 = 3;
pub const TIMED_OUT: u32 = 4;
pub const ALREADY_APPROVED: u32 = 5;
pub const INSUFFICIENT_APPROVALS: u32 = 6;
pub const INVALID_THRESHOLD: u32 = 7;

} // verus!
