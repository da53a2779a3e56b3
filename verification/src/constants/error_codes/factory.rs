//! Codes of the vesting factory's errors.
use vstd::prelude::*;

verus! {

pub const SCHEDULE_NOT_FOUND: u32 = 1;
pub const CLIFF_NOT_REACHED: u32 = 3;
pub const NOTHING_TO_CLAIM: u32 = 4;
pub const CANCELLED: u32 = 5;
pub const INVALID_CONFIG: u32 = 6;
pub const VESTING_COMPLETE: u32 = 7;

} // verus!
