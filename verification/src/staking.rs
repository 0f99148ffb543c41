//! Staking of liquidity tokens: bonded tokens earn the rewards that a
//! schedule distributes block by block.

pub mod executions;
pub mod states;
