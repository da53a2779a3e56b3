//! Shared constants of the StellarForge contracts.
pub mod ttl;
pub mod error_codes;
pub mod time;
pub mod test;
