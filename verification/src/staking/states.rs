//! The records of the liquidity staking, and how rewards accrue.

use vstd::prelude::*;
use crate::common::{ContractError, Violation};
use crate::math::{multiply_ratio, ratio, Decimal, DECIMAL_FRACTIONAL};
use crate::store::AddressMap;

verus! {

/// The native coin that is paired with the token.
pub const UST: &'static str = "uusd";

/// The contracts the staking works with, and the rewards it distributes.
#[derive(Clone, Debug, PartialEq, Eq)]
pub struct Config {
    pub valkyrie_token: String,
    pub liquidity_token: String,
    pub pair_contract: String,
    /// Slots of `(start, end, amount)`: `amount` is distributed evenly over
    /// the blocks from `start` to `end`.
    pub distribution_schedule: Vec<(u64, u64, u128)>,
}

/// What is bonded in total, and the rewards distributed per bonded token.
#[derive(Clone, Copy, Debug, PartialEq, Eq, Structural)]
pub struct State {
    pub last_distributed: u64,
    pub total_bond_amount: u128,
    pub global_reward_index: Decimal,
}

/// What one staker has bonded and earned.
#[derive(Clone, Copy, Debug, PartialEq, Eq, Structural)]
pub struct StakerInfo {
    /// The reward index up to which the staker's rewards are counted.
    pub reward_index: Decimal,
    pub bond_amount: u128,
    pub pending_reward: u128,
}

/// Everything the liquidity staking keeps.
#[derive(Clone, Debug, PartialEq, Eq)]
pub struct Staking {
    pub config: Config,
    pub state: State,
    pub stakers: AddressMap<StakerInfo>,
}

/// Every slot of the schedule ends after it starts.
pub open spec fn valid_schedule(schedule: Seq<(u64, u64, u128)>) -> bool {
    forall|i: int| 0 <= i < schedule.len() ==> (#[trigger] schedule[i]).0 < schedule[i].1
}

impl Config {
    /// Rejects a schedule with a slot that does not end after it starts.
    pub fn validate(&self) -> (r: Result<(), ContractError>)
        ensures
            r.is_ok() <==> valid_schedule(self.distribution_schedule@),
            r.is_err() ==> r == Err::<(), ContractError>(
                ContractError::Generic(Violation::InvalidSchedule),
            ),
    {
        let mut i: usize = 0;
        while i < self.distribution_schedule.len()
            invariant
                i <= self.distribution_schedule.len(),
                forall|j: int|
                    0 <= j < i ==> (#[trigger] self.distribution_schedule@[j]).0
                        < self.distribution_schedule@[j].1,
            decreases self.distribution_schedule.len() - i,
        {
            if self.distribution_schedule[i].0 >= self.distribution_schedule[i].1 {
                return Err(ContractError::Generic(Violation::InvalidSchedule));
            }
            i += 1;
        }
        Ok(())
    }
}

impl Staking {
    /// The staker records are well formed and the schedule is valid.
    pub open spec fn wf(&self) -> bool {
        self.stakers.wf() && valid_schedule(self.config.distribution_schedule@)
    }

    /// What is recorded of `owner`; a staker without a record has bonded and
    /// earned nothing.
    pub open spec fn info_of(&self, owner: Seq<char>) -> StakerInfo {
        if self.stakers@.contains_key(owner) {
            self.stakers@[owner]
        } else {
            StakerInfo { reward_index: Decimal { atomics: 0 }, bond_amount: 0, pending_reward: 0 }
        }
    }
}

/// What is recorded of `owner`; a staker without a record has bonded and
/// earned nothing.
pub fn read_staker_info(staking: &Staking, owner: &String) -> (r: StakerInfo)
    requires
        staking.stakers.wf(),
    ensures
        r == staking.info_of(owner@),
{
    match staking.stakers.get(owner) {
        Some(info) => *info,
        None => StakerInfo { reward_index: Decimal::zero(), bond_amount: 0, pending_reward: 0 },
    }
}

/// The blocks of a slot that passed between the last distribution and
/// `height`.
pub open spec fn passed_blocks(slot: (u64, u64, u128), last: u64, height: u64) -> int {
    if slot.0 > height || slot.1 < last {
        0
    } else {
        (if slot.1 < height {
            slot.1
        } else {
            height
        }) - (if slot.0 > last {
            slot.0
        } else {
            last
        })
    }
}

/// What a slot distributes per block, cut to eighteen digits.
pub open spec fn per_block(slot: (u64, u64, u128)) -> int {
    ratio(slot.2 as int, DECIMAL_FRACTIONAL as int, slot.1 - slot.0)
}

/// What a slot distributed between the last distribution and `height`.
pub open spec fn slot_reward(slot: (u64, u64, u128), last: u64, height: u64) -> int {
    ratio(passed_blocks(slot, last, height), per_block(slot), DECIMAL_FRACTIONAL as int)
}

/// What the first `n` slots distributed between the last distribution and
/// `height`; nothing is defined where a slot's rate, a slot's reward or the
/// sum exceeds 128 bits.
pub open spec fn distributed(schedule: Seq<(u64, u64, u128)>, last: u64, height: u64, n: nat) -> Option<
    int,
>
    decreases n,
{
    if n == 0 {
        Some(0)
    } else {
        match distributed(schedule, last, height, (n - 1) as nat) {
            None => None,
            Some(before) => {
                let slot = schedule[n - 1];
                if slot.0 > height || slot.1 < last {
                    Some(before)
                } else if per_block(slot) > u128::MAX || slot_reward(slot, last, height)
                    > u128::MAX || before + slot_reward(slot, last, height) > u128::MAX {
                    None
                } else {
                    Some(before + slot_reward(slot, last, height))
                }
            },
        }
    }
}

/// The state once the rewards up to `height` are distributed; nothing is
/// defined where a number exceeds its range or `height` lies before the
/// last distribution.
pub open spec fn rewarded_state(config: &Config, state: &State, height: u64) -> Option<State> {
    if state.total_bond_amount == 0 {
        Some(State { last_distributed: height, ..*state })
    } else if height < state.last_distributed {
        None
    } else {
        match distributed(
            config.distribution_schedule@,
            state.last_distributed,
            height,
            config.distribution_schedule@.len(),
        ) {
            None => None,
            Some(amount) => {
                let gain = ratio(amount, DECIMAL_FRACTIONAL as int, state.total_bond_amount as int);
                if state.global_reward_index.atomics + gain > u128::MAX {
                    None
                } else {
                    Some(
                        State {
                            last_distributed: height,
                            total_bond_amount: state.total_bond_amount,
                            global_reward_index: Decimal {
                                atomics: (state.global_reward_index.atomics + gain) as u128,
                            },
                        },
                    )
                }
            },
        }
    }
}

/// Distributes the rewards of the schedule up to `block_height`: each slot
/// gives its amount per block for the blocks that passed since the last
/// distribution, and the reward index grows by what was distributed per
/// bonded token. While nothing is bonded nothing is distributed. Fails with
/// an overflow, changing nothing, where a number exceeds its range or the
/// height lies before the last distribution.
pub fn compute_reward(config: &Config, state: &mut State, block_height: u64) -> (r: Result<
    (),
    ContractError,
>)
    requires
        valid_schedule(config.distribution_schedule@),
    ensures
        match rewarded_state(config, old(state), block_height) {
            Some(after) => r.is_ok() && *final(state) == after,
            None => r == Err::<(), ContractError>(ContractError::Overflow) && *final(state) == *old(
                state,
            ),
        },
{
    if state.total_bond_amount == 0 {
        state.last_distributed = block_height;
        return Ok(());
    }
    if block_height < state.last_distributed {
        return Err(ContractError::Overflow);
    }
    let last = state.last_distributed;
    let mut amount: u128 = 0;
    let mut i: usize = 0;
    while i < config.distribution_schedule.len()
        invariant
            i <= config.distribution_schedule.len(),
            valid_schedule(config.distribution_schedule@),
            *state == *old(state),
            state.total_bond_amount != 0,
            last == state.last_distributed,
            last <= block_height,
            distributed(config.distribution_schedule@, last, block_height, i as nat) == Some(
                amount as int,
            ),
        decreases config.distribution_schedule.len() - i,
    {
        let slot = config.distribution_schedule[i];
        if !(slot.0 > block_height || slot.1 < last) {
            let until: u64 = if slot.1 < block_height {
                slot.1
            } else {
                block_height
            };
            let from: u64 = if slot.0 > last {
                slot.0
            } else {
                last
            };
            let passed: u64 = until - from;
            let blocks: u64 = slot.1 - slot.0;
            let rate = match multiply_ratio(slot.2, DECIMAL_FRACTIONAL, blocks as u128) {
                None => {
                    proof {
                        lemma_distributed_stays_undefined(
                            config.distribution_schedule@,
                            last,
                            block_height,
                            (i + 1) as nat,
                            config.distribution_schedule@.len(),
                        );
                    }
                    return Err(ContractError::Overflow);
                },
                Some(v) => v,
            };
            let reward = match multiply_ratio(passed as u128, rate, DECIMAL_FRACTIONAL) {
                None => {
                    proof {
                        lemma_distributed_stays_undefined(
                            config.distribution_schedule@,
                            last,
                            block_height,
                            (i + 1) as nat,
                            config.distribution_schedule@.len(),
                        );
                    }
                    return Err(ContractError::Overflow);
                },
                Some(v) => v,
            };
            amount = match amount.checked_add(reward) {
                None => {
                    proof {
                        lemma_distributed_stays_undefined(
                            config.distribution_schedule@,
                            last,
                            block_height,
                            (i + 1) as nat,
                            config.distribution_schedule@.len(),
                        );
                    }
                    return Err(ContractError::Overflow);
                },
                Some(v) => v,
            };
        }
        i += 1;
    }
    let gain = match multiply_ratio(amount, DECIMAL_FRACTIONAL, state.total_bond_amount) {
        None => {
            return Err(ContractError::Overflow);
        },
        Some(v) => v,
    };
    let index = match state.global_reward_index.atomics.checked_add(gain) {
        None => {
            return Err(ContractError::Overflow);
        },
        Some(v) => v,
    };
    state.last_distributed = block_height;
    state.global_reward_index = Decimal { atomics: index };
    Ok(())
}

/// Once undefined, the distribution stays undefined for more slots.
pub proof fn lemma_distributed_stays_undefined(
    schedule: Seq<(u64, u64, u128)>,
    last: u64,
    height: u64,
    m: nat,
    n: nat,
)
    requires
        m <= n,
        distributed(schedule, last, height, m).is_none(),
    ensures
        distributed(schedule, last, height, n).is_none(),
    decreases n,
{
    if m < n {
        lemma_distributed_stays_undefined(schedule, last, height, m, (n - 1) as nat);
    }
}

/// What the bonded tokens earn at reward index `index`.
pub open spec fn earned(bond_amount: u128, index: Decimal) -> int {
    ratio(bond_amount as int, index.atomics as int, DECIMAL_FRACTIONAL as int)
}

/// The staker once its rewards up to the index of `state` are counted;
/// nothing is defined where a number exceeds its range or the staker's index
/// is ahead of the state's.
pub open spec fn rewarded_staker(state: &State, info: &StakerInfo) -> Option<StakerInfo> {
    let now = earned(info.bond_amount, state.global_reward_index);
    let then = earned(info.bond_amount, info.reward_index);
    if now > u128::MAX || then > u128::MAX || now < then || info.pending_reward + (now - then)
        > u128::MAX {
        None
    } else {
        Some(
            StakerInfo {
                reward_index: state.global_reward_index,
                bond_amount: info.bond_amount,
                pending_reward: (info.pending_reward + (now - then)) as u128,
            },
        )
    }
}

/// Counts the rewards that the staker earned since its rewards were last
/// counted: what its bonded tokens earn at the index of `state`, less what
/// they earned at the staker's index. Fails with an overflow, changing
/// nothing, where a number exceeds its range.
pub fn compute_staker_reward(state: &State, staker_info: &mut StakerInfo) -> (r: Result<
    (),
    ContractError,
>)
    ensures
        match rewarded_staker(state, old(staker_info)) {
            Some(after) => r.is_ok() && *final(staker_info) == after,
            None => r == Err::<(), ContractError>(ContractError::Overflow) && *final(staker_info)
                == *old(staker_info),
        },
{
    let now = match state.global_reward_index.checked_mul_amount(staker_info.bond_amount) {
        None => {
            return Err(ContractError::Overflow);
        },
        Some(v) => v,
    };
    let then = match staker_info.reward_index.checked_mul_amount(staker_info.bond_amount) {
        None => {
            return Err(ContractError::Overflow);
        },
        Some(v) => v,
    };
    let gained = match now.checked_sub(then) {
        None => {
            return Err(ContractError::Overflow);
        },
        Some(v) => v,
    };
    let pending = match staker_info.pending_reward.checked_add(gained) {
        None => {
            return Err(ContractError::Overflow);
        },
        Some(v) => v,
    };
    staker_info.reward_index = state.global_reward_index;
    staker_info.pending_reward = pending;
    Ok(())
}

} // verus!
