//! Codes of the vesting contract's own errors.
use vstd::prelude::*;

verus! {

pub const CLIFF_NOT_REACHED: u32 = 4;
pub const NOTHING_TO_CLAIM: u32 = 5;
pub const CANCELLED: u32 = 6;
/// Rejected schedule parameters (the code left free between `CANCELLED` and `SAME_ADMIN`).
pub const INVALID_CONFIG: u32 = 7;
pub const SAME_ADMIN: u32 = 8;
pub const PAUSED: u32 = 9;
pub const NOT_PAUSED: u32 = 10;
pub const SAME_BENEFICIARY: u32 = 11;
pub const BENEFICIARY_AS_ADMIN: u32 = 12;
pub const VESTING_COMPLETE: u32 = 13;

} // verus!
