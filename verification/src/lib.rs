//! Milestone-based grant escrow: grants, funding, milestone review and refunds.

pub mod types;
pub mod keyed;
pub mod storage;
pub mod events;
pub mod env;
pub mod reentrancy;
pub mod contract;
pub mod funding;
pub mod refund;
pub mod voting;
pub mod laws;
pub mod guards;
