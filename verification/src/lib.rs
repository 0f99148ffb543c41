//! Campaign rewards and staking-weighted governance.
//!
//! The crate holds the rules of a campaign that rewards participants and
//! their referrers, and of a governance contract that stakes tokens, polls
//! the stakers and executes what they passed. Contract state is held in plain
//! values; every handler is a transition on that state.

pub mod campaign;
pub mod common;
pub mod distributor;
pub mod governance;
pub mod math;
pub mod qualifier;
pub mod qualifier_base;
pub mod sorting;
pub mod staking;
pub mod store;
