//! A campaign: a ledger of reward funds, the actors that took part, and the
//! rules by which a participation pays the actor and its referrers.

pub mod executions;
pub mod laws;
pub mod queries;
pub mod query_msgs;
pub mod rewards;
pub mod states;
