//! Everything the governance contract keeps.

use vstd::prelude::*;
use crate::governance::poll::states::{Poll, PollConfig, PollExecutionContext, PollState};
use crate::governance::staking::states::{StakerState, StakingConfig, StakingState};
use crate::math::Decimal;
use crate::store::AddressMap;

verus! {

/// The token that is staked and deposited.
#[derive(Clone, Debug, PartialEq, Eq)]
pub struct ContractConfig {
    pub governance_token: String,
}

impl ContractConfig {
    /// Whether `address` is the governance token.
    pub fn is_governance_token(&self, address: &String) -> (r: bool)
        ensures
            r == (self.governance_token@ == address@),
    {
        self.governance_token == *address
    }
}

/// What governance decides for the campaigns.
#[derive(Clone, Debug, PartialEq, Eq)]
pub struct ValkyrieConfig {
    pub burn_contract: String,
    pub reward_withdraw_burn_rate: Decimal,
    pub campaign_deactivate_period: u64,
}

/// Position of poll `id` among `count` polls that are numbered from 1.
pub open spec fn poll_index(id: u64, count: nat) -> Option<int> {
    if 1 <= id <= count {
        Some(id - 1)
    } else {
        None
    }
}

/// Everything the governance contract keeps.
#[derive(Clone, Debug, PartialEq, Eq)]
pub struct Governance {
    pub contract_config: ContractConfig,
    pub poll_config: PollConfig,
    pub poll_state: PollState,
    /// All polls, in the order of their ids, which start at 1.
    pub polls: Vec<Poll>,
    pub poll_execution_context: Option<PollExecutionContext>,
    pub staking_config: StakingConfig,
    pub staking_state: StakingState,
    pub stakers: AddressMap<StakerState>,
    pub valkyrie_config: ValkyrieConfig,
}

/// Every staker is kept under its own address.
pub open spec fn stakers_keyed(stakers: Map<Seq<char>, StakerState>) -> bool {
    forall|k: Seq<char>| stakers.contains_key(k) ==> (#[trigger] stakers[k]).address@ == k
}

impl Governance {
    /// The polls are numbered from 1 without gaps and counted, their tallies
    /// fit, quorum and threshold are fractions, and every staker is kept
    /// under its own address.
    pub open spec fn wf(&self) -> bool {
        &&& self.poll_config.wf()
        &&& self.polls@.len() == self.poll_state.poll_count
        &&& forall|i: int|
            0 <= i < self.polls@.len() ==> (#[trigger] self.polls@[i]).id == i + 1
                && self.polls@[i].wf()
        &&& self.stakers.wf()
        &&& stakers_keyed(self.stakers@)
    }

    /// The poll with this id, if there is one.
    pub open spec fn poll(&self, id: u64) -> Option<Poll> {
        match poll_index(id, self.polls@.len()) {
            Some(i) => Some(self.polls@[i]),
            None => None,
        }
    }

    /// Position of the poll with this id.
    pub fn find_poll(&self, id: u64) -> (r: Option<usize>)
        ensures
            match r {
                Some(i) => poll_index(id, self.polls@.len()) == Some(i as int),
                None => poll_index(id, self.polls@.len()).is_none(),
            },
    {
        if id >= 1 && id as u128 <= self.polls.len() as u128 {
            Some((id - 1) as usize)
        } else {
            None
        }
    }

    /// What the stakers hold together: the tokens of the contract less the
    /// deposits of the polls in progress.
    pub open spec fn staked(&self, contract_balance: u128) -> int {
        contract_balance - self.poll_state.total_deposit
    }
}

} // verus!
