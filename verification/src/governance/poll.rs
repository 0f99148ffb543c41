//! Polls: proposals that stakers vote on.

pub mod executions;
pub mod laws;
pub mod states;
