//! What governance decides for the campaigns.

pub mod queries;
