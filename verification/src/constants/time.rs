//! Durations in seconds.
use vstd::prelude::*;

verus! {

pub const SECONDS_PER_MINUTE: u64 = 60;
pub const SECONDS_PER_HOUR: u64 = 3_600;
pub const SECONDS_PER_DAY: u64 = 86_400;
pub const SECONDS_PER_WEEK: u64 = 604_800;
/// Thirty days.
pub const SECONDS_PER_MONTH: u64 = 2_592_000;
/// 365 days.
pub const SECONDS_PER_YEAR: u64 = 31_536_000;

pub const ONE_HOUR: u64 = 3_600;
pub const ONE_DAY: u64 = 86_400;
pub const ONE_WEEK: u64 = 604_800;
pub const THIRTY_DAYS: u64 = 2_592_000;
pub const ONE_YEAR: u64 = 31_536_000;

} // verus!
