//! Time-to-live values for ledger storage, counted in ledgers (about 5 s each).
use vstd::prelude::*;

verus! {

/// Instance TTL threshold: 17,280 ledgers, about one day.
pub const INSTANCE_TTL_THRESHOLD: u32 = 17_280;

/// Instance TTL extension: 34,560 ledgers, about two days.
pub const INSTANCE_TTL_EXTEND: u32 = 34_560;

/// Proposal TTL extension: 1,036,800 ledgers, about sixty days.
pub const PROPOSAL_TTL_EXTEND: u32 = 1_036_800;

/// Vote TTL extension: 1,036,800 ledgers, about sixty days.
pub const VOTE_TTL_EXTEND: u32 = 1_036_800;

} // verus!
