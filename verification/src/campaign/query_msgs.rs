//! What can be asked of a campaign, and the answers.

use vstd::prelude::*;
use crate::common::{Denom, Execution, OrderBy};

verus! {

/// The one who brought an actor in: an address, or an address in its
/// compressed encoding as share links carry it.
#[derive(Clone, Debug, PartialEq, Eq)]
pub enum Referrer {
    Address(String),
    Compressed(String),
}

/// A question to a campaign.
#[derive(Clone, Debug, PartialEq, Eq)]
pub enum QueryMsg {
    CampaignConfig {  },
    RewardConfig {  },
    CampaignState {  },
    ShareUrl { address: String },
    GetAddressFromReferrer { referrer: Referrer },
    Actor { address: String },
    Actors { start_after: Option<String>, limit: Option<u32>, order_by: Option<OrderBy> },
}

/// What a campaign is and who runs it.
#[derive(Clone, Debug, PartialEq, Eq)]
pub struct CampaignConfigResponse {
    pub governance: String,
    pub campaign_manager: String,
    pub fund_manager: String,
    pub title: String,
    pub description: String,
    pub url: String,
    pub parameter_key: String,
    pub qualifier: Option<String>,
    pub executions: Vec<Execution>,
    pub admin: String,
    pub creator: String,
    pub created_at: u64,
}

/// What a participation pays.
#[derive(Clone, Debug, PartialEq, Eq)]
pub struct RewardConfigResponse {
    pub participation_reward_denom: Denom,
    pub participation_reward_amount: u128,
    pub referral_reward_token: String,
    pub referral_reward_amounts: Vec<u128>,
}

/// Counters and funds of a campaign, and whether it runs.
#[derive(Clone, Debug, PartialEq, Eq)]
pub struct CampaignStateResponse {
    pub actor_count: u64,
    pub participation_count: u64,
    pub cumulative_participation_reward_amount: u128,
    pub cumulative_referral_reward_amount: u128,
    pub locked_balances: Vec<(Denom, u128)>,
    pub balances: Vec<(Denom, u128)>,
    pub is_active: bool,
    pub is_pending: bool,
}

/// The link by which `address` brings others in.
#[derive(Clone, Debug, PartialEq, Eq)]
pub struct ShareUrlResponse {
    pub address: String,
    pub compressed: String,
    pub url: String,
}

/// The address that a referrer stands for.
#[derive(Clone, Debug, PartialEq, Eq)]
pub struct GetAddressFromReferrerResponse {
    pub address: String,
}

/// The record of one actor.
#[derive(Clone, Debug, PartialEq, Eq)]
pub struct ActorResponse {
    pub address: String,
    pub referrer_address: Option<String>,
    pub participation_reward_amount: u128,
    pub referral_reward_amount: u128,
    pub cumulative_participation_reward_amount: u128,
    pub cumulative_referral_reward_amount: u128,
    pub participation_count: u64,
    pub referral_count: u64,
    pub last_participated_at: u64,
}

/// One page of a listing of actors.
#[derive(Clone, Debug, PartialEq, Eq)]
pub struct ActorsResponse {
    pub actors: Vec<ActorResponse>,
}

} // verus!
