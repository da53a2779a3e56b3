//! Codes of the price oracle's errors.
use vstd::prelude::*;

verus! {

pub const PRICE_NOT_FOUND: u32 = 1;
pub const STALE_DATA: u32 = 2;
pub const INVALID_PRICE: u32 = 3;
pub const UNAUTHORIZED: u32 = 4;

} // verus!
