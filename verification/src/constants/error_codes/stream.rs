//! Codes of the payment stream's errors.
use vstd::prelude::*;

verus! {

pub const STREAM_NOT_FOUND: u32 = 2;
pub const UNAUTHORIZED: u32 = 2;
pub const NOTHING_TO_WITHDRAW: u32 = 3;
pub const ALREADY_CANCELLED: u32 = 4;

} // verus!
