//! Governance: staking of the governance token, polls among the stakers,
//! and the execution of what a poll passed.

pub mod entrypoints;
pub mod poll;
pub mod staking;
pub mod states;
pub mod valkyrie;
