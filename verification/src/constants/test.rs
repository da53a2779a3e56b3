//! Amounts and durations used by examples and tests.
use vstd::prelude::*;

verus! {

pub const SMALL_AMOUNT: i128 = 1_000;
pub const MEDIUM_AMOUNT: i128 = 10_000;
pub const LARGE_AMOUNT: i128 = 1_000_000;

pub const SHORT_DURATION: u64 = 100;
pub const MEDIUM_DURATION: u64 = 1_000;
pub const LONG_DURATION: u64 = 10_000;

pub const NO_CLIFF: u64 = 0;
pub const SHORT_CLIFF: u64 = 100;
pub const MEDIUM_CLIFF: u64 = 500;
pub const LONG_CLIFF: u64 = 1_000;

} // verus!
