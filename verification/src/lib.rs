//! A per-account staking ledger with a single validator target.

pub mod accounting;
pub mod contract;
pub mod error;
pub mod msg;
pub mod response;
pub mod state;
