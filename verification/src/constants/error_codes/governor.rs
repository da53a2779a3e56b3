//! Codes of the governor's errors.
use vstd::prelude::*;

verus! {

pub const PROPOSAL_NOT_FOUND: u32 = 4;
pub const VOTING_CLOSED: u32 = 5;
pub const VOTING_STILL_OPEN: u32 = 6;
pub const ALREADY_VOTED: u32 = 7;
pub const QUORUM_NOT_REACHED: u32 = 8;
pub const PROPOSAL_NOT_PASSED: u32 = 9;
pub const TIMELOCK_NOT_ELAPSED: u32 = 10;
pub const ALREADY_EXECUTED: u32 = 11;
pub const ALREADY_CANCELLED: u32 = 12;
pub const INVALID_WEIGHT: u32 = 13;
pub const ALREADY_FINALIZED: u32 = 15;
pub const VOTE_NOT_FOUND: u32 = 16;

} // verus!
