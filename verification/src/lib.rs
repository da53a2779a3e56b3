//! Verified core of the StellarForge vesting contracts, the multisig treasury
//! and the command line helpers.
//!
//! The contracts' decisions (validation, the linear vesting schedule, claims,
//! cancellation splits, pausing, role changes, multisig votes, timelocks and
//! committed amounts) are state machines over plain
//! values; the host environment (ledger time, storage, authorization, token
//! transfers, events) is driven by the caller, which hands in the ledger
//! timestamp and carries out the returned effects.
use vstd::prelude::*;

pub mod constants;
pub mod errors;
pub mod schedule;
pub mod effects;
pub mod vesting;
pub mod vesting_laws;
pub mod factory;
pub mod factory_laws;
pub mod multisig;
pub mod treasury;
pub mod multisig_laws;
pub mod text;
pub mod cli;

verus! {

} // verus!
