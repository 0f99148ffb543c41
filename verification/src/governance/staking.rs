//! Stakes in the governance token.

pub mod executions;
pub mod states;
