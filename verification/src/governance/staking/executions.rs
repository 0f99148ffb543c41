//! The calls that stake, unstake and withdraw the governance token.

use vstd::prelude::*;
use crate::common::{ContractError, Env, Missing, Violation};
use crate::governance::poll::executions::GovernanceMessage;
use crate::governance::staking::states::{
    amount_sum, live_votes, pending, withdrawable, StakerState, StakingConfig, StakingState,
};
use crate::governance::states::Governance;
use crate::math::{multiply_ratio, ratio};

verus! {

/// What the staking is set up with.
#[derive(Clone, Copy, Debug, PartialEq, Eq, Structural)]
pub struct StakingConfigInitMsg {
    pub withdraw_delay: u64,
}

/// The first staking configuration, and a staking without shares.
pub fn instantiate(msg: StakingConfigInitMsg) -> (r: (StakingConfig, StakingState))
    ensures
        r.0 == (StakingConfig { withdraw_delay: msg.withdraw_delay }),
        r.1 == (StakingState { total_share: 0 }),
{
    (StakingConfig { withdraw_delay: msg.withdraw_delay }, StakingState { total_share: 0 })
}

/// What a change of the withdraw delay gives: an error that leaves
/// everything as it was, or the delay set where one was given.
pub open spec fn update_config_result(
    before: &Governance,
    after: &Governance,
    r: Result<(), ContractError>,
    env: &Env,
    sender: &String,
    withdraw_delay: Option<u64>,
) -> bool {
    if env.contract_address@ != sender@ {
        &&& r == Err::<(), ContractError>(ContractError::Unauthorized)
        &&& *after == *before
    } else {
        &&& r.is_ok()
        &&& *after == (Governance {
            staking_config: StakingConfig {
                withdraw_delay: match withdraw_delay {
                    Some(d) => d,
                    None => before.staking_config.withdraw_delay,
                },
            },
            ..*before
        })
    }
}

/// Sets the delay of withdrawals where one is given. Only the governance
/// contract itself may do so.
pub fn update_config(
    governance: &mut Governance,
    env: &Env,
    sender: &String,
    withdraw_delay: Option<u64>,
) -> (r: Result<(), ContractError>)
    requires
        old(governance).wf(),
    ensures
        final(governance).wf(),
        update_config_result(old(governance), final(governance), r, env, sender, withdraw_delay),
{
    if env.contract_address != *sender {
        return Err(ContractError::Unauthorized);
    }
    if let Some(delay) = withdraw_delay {
        governance.staking_config.withdraw_delay = delay;
    }
    Ok(())
}

/// The shares that `amount` tokens buy when `total_share` shares stand for
/// `balance` tokens: one share per token while there are no shares or no
/// tokens, else the same part of the shares as of the tokens.
pub open spec fn shares_for(amount: u128, total_share: u128, balance: u128) -> int {
    if balance == 0 || total_share == 0 {
        amount as int
    } else {
        ratio(amount as int, total_share as int, balance as int)
    }
}

/// What the stakers held before `amount` tokens arrived.
pub open spec fn balance_before_stake(
    governance: &Governance,
    contract_balance: u128,
    amount: u128,
) -> int {
    governance.staked(contract_balance) - amount
}

/// The shares that a stake of `amount` buys.
pub open spec fn stake_share(governance: &Governance, contract_balance: u128, amount: u128) -> int {
    shares_for(
        amount,
        governance.staking_state.total_share,
        balance_before_stake(governance, contract_balance, amount) as u128,
    )
}

/// The share of `sender` before a call; nothing without a record.
pub open spec fn share_of(governance: &Governance, sender: Seq<char>) -> u128 {
    if governance.stakers@.contains_key(sender) {
        governance.stakers@[sender].share
    } else {
        0
    }
}

/// Why a stake is turned away: nothing was sent, the contract holds less
/// than the deposits and the stake, or a number leaves its range.
pub open spec fn stake_rejection(
    governance: &Governance,
    contract_balance: u128,
    sender: Seq<char>,
    amount: u128,
) -> Option<ContractError> {
    if amount == 0 {
        Some(ContractError::Generic(Violation::InsufficientFunds))
    } else if balance_before_stake(governance, contract_balance, amount) < 0 {
        Some(ContractError::Overflow)
    } else {
        let share = stake_share(governance, contract_balance, amount);
        if share > u128::MAX || governance.staking_state.total_share + share > u128::MAX
            || share_of(governance, sender) + share > u128::MAX {
            Some(ContractError::Overflow)
        } else {
            None
        }
    }
}

/// The shares that a stake bought.
#[derive(Clone, Copy, Debug, PartialEq, Eq, Structural)]
pub struct StakeResponse {
    pub share: u128,
    pub amount: u128,
}

/// What a stake gives: an error that leaves everything as it was, or the
/// shares bought, added to the staker's and to the total.
pub open spec fn stake_result(
    before: &Governance,
    after: &Governance,
    r: Result<StakeResponse, ContractError>,
    contract_balance: u128,
    sender: String,
    amount: u128,
) -> bool {
    match stake_rejection(before, contract_balance, sender@, amount) {
        Some(e) => {
            &&& r == Err::<StakeResponse, ContractError>(e)
            &&& *after == *before
        },
        None => {
            let share = stake_share(before, contract_balance, amount) as u128;
            let staker = after.stakers@[sender@];
            &&& r == Ok::<StakeResponse, ContractError>(StakeResponse { share, amount })
            &&& after.staking_state == (StakingState {
                total_share: (before.staking_state.total_share + share) as u128,
            })
            &&& after.stakers@.dom() == before.stakers@.dom().insert(
                sender@,
            )
            &&& forall|k: Seq<char>|
                k != sender@ && before.stakers@.contains_key(k) ==> #[trigger] after.stakers@[k] == before.stakers@[k]
            &&& staker.share == share_of(before, sender@) + share
            &&& if before.stakers@.contains_key(sender@) {
                let before = before.stakers@[sender@];
                &&& staker.address == before.address
                &&& staker.votes == before.votes
                &&& staker.withdraw_unstaked_amounts == before.withdraw_unstaked_amounts
            } else {
                &&& staker.address == sender
                &&& staker.votes@.len() == 0
                &&& staker.withdraw_unstaked_amounts@.len() == 0
            }
            &&& after.contract_config == before.contract_config
            &&& after.poll_config == before.poll_config
            &&& after.poll_state == before.poll_state
            &&& after.polls == before.polls
            &&& after.poll_execution_context == before.poll_execution_context
            &&& after.staking_config == before.staking_config
            &&& after.valkyrie_config == before.valkyrie_config
        },
    }
}

/// Credits `sender` with the shares that the `amount` tokens it sent buy.
/// `contract_balance` is what the contract holds of the governance token,
/// the tokens just sent included. On any error nothing changes.
pub fn stake_voting_token(
    governance: &mut Governance,
    contract_balance: u128,
    sender: String,
    amount: u128,
) -> (r: Result<StakeResponse, ContractError>)
    requires
        old(governance).wf(),
    ensures
        final(governance).wf(),
        stake_result(old(governance), final(governance), r, contract_balance, sender, amount),
{
    if amount == 0 {
        return Err(ContractError::Generic(Violation::InsufficientFunds));
    }
    let available = match contract_balance.checked_sub(governance.poll_state.total_deposit) {
        None => {
            return Err(ContractError::Overflow);
        },
        Some(v) => v,
    };
    let balance = match available.checked_sub(amount) {
        None => {
            return Err(ContractError::Overflow);
        },
        Some(v) => v,
    };
    let total_share = governance.staking_state.total_share;
    let share: u128 = if balance == 0 || total_share == 0 {
        amount
    } else {
        match multiply_ratio(amount, total_share, balance) {
            None => {
                return Err(ContractError::Overflow);
            },
            Some(v) => v,
        }
    };
    let new_total = match total_share.checked_add(share) {
        None => {
            return Err(ContractError::Overflow);
        },
        Some(v) => v,
    };
    let held: u128 = match governance.stakers.get(&sender) {
        Some(s) => s.share,
        None => 0,
    };
    let new_share = match held.checked_add(share) {
        None => {
            return Err(ContractError::Overflow);
        },
        Some(v) => v,
    };
    let mut staker = match governance.stakers.remove(&sender) {
        Some(s) => s,
        None => StakerState::new(sender.clone()),
    };
    staker.share = new_share;
    governance.stakers.insert(sender, staker);
    governance.staking_state.total_share = new_total;
    proof {
        assert(final(governance).stakers@.dom() =~= old(governance).stakers@.dom().insert(sender@));
    }
    Ok(StakeResponse { share, amount })
}

/// What an unstaking takes and pays.
#[derive(Clone, Copy, Debug, PartialEq, Eq, Structural)]
pub struct UnstakeResponse {
    pub unstake_amount: u128,
    pub unstake_share: u128,
}

/// The larger of the two.
pub open spec fn larger(a: int, b: int) -> int {
    if a >= b {
        a
    } else {
        b
    }
}

/// The shares that stand for what the staker has committed to polls in
/// progress.
pub open spec fn locked_share(governance: &Governance, contract_balance: u128, sender: Seq<char>) -> int {
    ratio(
        governance.stakers@[sender].locked(governance.polls@) as int,
        governance.staking_state.total_share as int,
        governance.staked(contract_balance),
    )
}

/// The shares that an unstaking gives up: those that stand for `amount`
/// tokens, at least one; or without an amount all that are not locked.
pub open spec fn withdraw_share(
    governance: &Governance,
    contract_balance: u128,
    sender: Seq<char>,
    amount: Option<u128>,
) -> int {
    match amount {
        Some(v) => larger(
            ratio(
                v as int,
                governance.staking_state.total_share as int,
                governance.staked(contract_balance),
            ),
            1,
        ),
        None => governance.stakers@[sender].share - locked_share(
            governance,
            contract_balance,
            sender,
        ),
    }
}

/// The tokens that an unstaking pays: `amount`, or without an amount what
/// the shares given up stand for.
pub open spec fn withdraw_amount(
    governance: &Governance,
    contract_balance: u128,
    sender: Seq<char>,
    amount: Option<u128>,
) -> int {
    match amount {
        Some(v) => v as int,
        None => ratio(
            withdraw_share(governance, contract_balance, sender, amount),
            governance.staked(contract_balance),
            governance.staking_state.total_share as int,
        ),
    }
}

/// Why an unstaking is turned away: the sender has no stake, a number is
/// undefined or leaves its range, the shares asked for and the locked
/// shares exceed what the staker holds, or more shares are given up than
/// exist.
pub open spec fn unstake_rejection(
    governance: &Governance,
    contract_balance: u128,
    sender: Seq<char>,
    amount: Option<u128>,
) -> Option<ContractError> {
    if !governance.stakers@.contains_key(sender) {
        Some(ContractError::Generic(Violation::NothingStaked))
    } else {
        let staker = governance.stakers@[sender];
        let total_share = governance.staking_state.total_share;
        if governance.staked(contract_balance) <= 0 || total_share == 0 || staker.locked(
            governance.polls@,
        ) > u128::MAX || locked_share(governance, contract_balance, sender) > u128::MAX {
            Some(ContractError::Overflow)
        } else {
            let give = withdraw_share(governance, contract_balance, sender, amount);
            let pay = withdraw_amount(governance, contract_balance, sender, amount);
            if give < 0 || give > u128::MAX || pay > u128::MAX {
                Some(ContractError::Overflow)
            } else if locked_share(governance, contract_balance, sender) + give > staker.share {
                Some(ContractError::Generic(Violation::UnstakeTooMany))
            } else if give > total_share {
                Some(ContractError::Overflow)
            } else {
                None
            }
        }
    }
}

/// What an unstaking gives: an error that leaves everything as it was, or
/// the shares given up, the tokens set aside for withdrawal, and the votes
/// on ended polls forgotten.
pub open spec fn unstake_result(
    before: &Governance,
    after: &Governance,
    r: Result<UnstakeResponse, ContractError>,
    env: &Env,
    contract_balance: u128,
    sender: &String,
    amount: Option<u128>,
) -> bool {
    match unstake_rejection(before, contract_balance, sender@, amount) {
        Some(e) => {
            &&& r == Err::<UnstakeResponse, ContractError>(e)
            &&& *after == *before
        },
        None => {
            let held = before.stakers@[sender@];
            let give = withdraw_share(before, contract_balance, sender@, amount) as u128;
            let pay = withdraw_amount(before, contract_balance, sender@, amount) as u128;
            let staker = after.stakers@[sender@];
            &&& r == Ok::<UnstakeResponse, ContractError>(
                UnstakeResponse { unstake_amount: pay, unstake_share: give },
            )
            &&& after.staking_state == (StakingState {
                total_share: (before.staking_state.total_share - give) as u128,
            })
            &&& after.stakers@.dom() == before.stakers@.dom()
            &&& forall|k: Seq<char>|
                k != sender@ && before.stakers@.contains_key(k) ==> #[trigger] after.stakers@[k] == before.stakers@[k]
            &&& staker.address == held.address
            &&& staker.share == held.share - give
            &&& staker.votes@ == live_votes(
                held.votes@,
                before.polls@,
                held.votes@.len(),
            )
            &&& staker.withdraw_unstaked_amounts@ == held.withdraw_unstaked_amounts@.push(
                (env.block.height, pay),
            )
            &&& after.contract_config == before.contract_config
            &&& after.poll_config == before.poll_config
            &&& after.poll_state == before.poll_state
            &&& after.polls == before.polls
            &&& after.poll_execution_context == before.poll_execution_context
            &&& after.staking_config == before.staking_config
            &&& after.valkyrie_config == before.valkyrie_config
        },
    }
}

/// Gives up shares of `sender` for tokens that can be withdrawn once the
/// withdraw delay has passed: the shares that stand for `amount` tokens, or
/// without an amount all shares that are not locked by votes on polls in
/// progress. Votes on polls that have ended are forgotten first. On any
/// error nothing changes.
pub fn unstake_voting_token(
    governance: &mut Governance,
    env: &Env,
    contract_balance: u128,
    sender: &String,
    amount: Option<u128>,
) -> (r: Result<UnstakeResponse, ContractError>)
    requires
        old(governance).wf(),
    ensures
        final(governance).wf(),
        unstake_result(
            old(governance),
            final(governance),
            r,
            env,
            contract_balance,
            sender,
            amount,
        ),
{
    let locked: Option<u128> = match governance.stakers.get(sender) {
        None => {
            return Err(ContractError::Generic(Violation::NothingStaked));
        },
        Some(s) => s.get_locked_balance(&governance.polls),
    };
    let user_share: u128 = match governance.stakers.get(sender) {
        None => 0,
        Some(s) => s.share,
    };
    let total_share = governance.staking_state.total_share;
    let balance = match contract_balance.checked_sub(governance.poll_state.total_deposit) {
        None => {
            return Err(ContractError::Overflow);
        },
        Some(v) => v,
    };
    if balance == 0 || total_share == 0 {
        return Err(ContractError::Overflow);
    }
    let locked = match locked {
        None => {
            return Err(ContractError::Overflow);
        },
        Some(v) => v,
    };
    let locked_shares = match multiply_ratio(locked, total_share, balance) {
        None => {
            return Err(ContractError::Overflow);
        },
        Some(v) => v,
    };
    let give: u128 = match amount {
        Some(v) => match multiply_ratio(v, total_share, balance) {
            None => {
                return Err(ContractError::Overflow);
            },
            Some(s) => if s >= 1 {
                s
            } else {
                1
            },
        },
        None => match user_share.checked_sub(locked_shares) {
            None => {
                return Err(ContractError::Overflow);
            },
            Some(s) => s,
        },
    };
    let pay: u128 = match amount {
        Some(v) => v,
        None => match multiply_ratio(give, balance, total_share) {
            None => {
                return Err(ContractError::Overflow);
            },
            Some(p) => p,
        },
    };
    let too_many = match locked_shares.checked_add(give) {
        None => true,
        Some(needed) => needed > user_share,
    };
    if too_many {
        return Err(ContractError::Generic(Violation::UnstakeTooMany));
    }
    let new_total = match total_share.checked_sub(give) {
        None => {
            return Err(ContractError::Overflow);
        },
        Some(v) => v,
    };
    let mut staker = match governance.stakers.remove(sender) {
        Some(s) => s,
        None => StakerState::new(sender.clone()),
    };
    staker.clean_votes(&governance.polls);
    staker.share = user_share - give;
    staker.withdraw_unstaked_amounts.push((env.block.height, pay));
    governance.stakers.insert(sender.clone(), staker);
    governance.staking_state.total_share = new_total;
    proof {
        assert(final(governance).stakers@.dom() =~= old(governance).stakers@.dom());
    }
    Ok(UnstakeResponse { unstake_amount: pay, unstake_share: give })
}

/// What a withdrawal pays.
#[derive(Clone, Debug, PartialEq, Eq)]
pub struct WithdrawResponse {
    pub messages: Vec<GovernanceMessage>,
    pub amount: u128,
}

/// The sum of the amounts, or `None` where it exceeds 128 bits.
fn checked_amount_sum(list: &Vec<(u64, u128)>) -> (r: Option<u128>)
    ensures
        match r {
            Some(v) => v == amount_sum(list@, list@.len()),
            None => amount_sum(list@, list@.len()) > u128::MAX,
        },
{
    let mut sum: u128 = 0;
    let mut i: usize = 0;
    while i < list.len()
        invariant
            i <= list.len(),
            sum == amount_sum(list@, i as nat),
        decreases list.len() - i,
    {
        match sum.checked_add(list[i].1) {
            Some(next) => {
                sum = next;
            },
            None => {
                proof {
                    lemma_amount_sum_grows(list@, (i + 1) as nat, list@.len());
                }
                return None;
            },
        }
        i += 1;
    }
    Some(sum)
}

/// A longer prefix never sums to less.
pub proof fn lemma_amount_sum_grows(list: Seq<(u64, u128)>, m: nat, n: nat)
    requires
        m <= n,
    ensures
        amount_sum(list, m) <= amount_sum(list, n),
    decreases n,
{
    if m < n {
        lemma_amount_sum_grows(list, m, (n - 1) as nat);
    }
}

/// What `sender` can withdraw at `height`: the sum of its unstaked amounts
/// whose delay has passed.
pub open spec fn withdrawal(governance: &Governance, env: &Env, sender: Seq<char>) -> nat {
    let list = withdrawable(
        governance.stakers@[sender].withdraw_unstaked_amounts@,
        governance.staking_config.withdraw_delay,
        env.block.height,
        governance.stakers@[sender].withdraw_unstaked_amounts@.len(),
    );
    amount_sum(list, list.len())
}

/// What a withdrawal gives: an error that leaves everything as it was, or
/// the matured amounts paid and the others kept waiting.
pub open spec fn withdraw_result(
    before: &Governance,
    after: &Governance,
    r: Result<WithdrawResponse, ContractError>,
    env: &Env,
    sender: &String,
) -> bool {
    if !before.stakers@.contains_key(sender@) {
        &&& r == Err::<WithdrawResponse, ContractError>(
            ContractError::NotFound(Missing::StakerState),
        )
        &&& *after == *before
    } else if withdrawal(before, env, sender@) > u128::MAX {
        &&& r == Err::<WithdrawResponse, ContractError>(ContractError::Overflow)
        &&& *after == *before
    } else {
        let held = before.stakers@[sender@];
        let staker = after.stakers@[sender@];
        &&& r matches Ok(response)
        &&& response.amount == withdrawal(before, env, sender@)
        &&& response.messages@ == seq![
            GovernanceMessage::Transfer {
                token: before.contract_config.governance_token,
                recipient: *sender,
                amount: response.amount,
            },
        ]
        &&& after.stakers@.dom() == before.stakers@.dom()
        &&& forall|k: Seq<char>|
            k != sender@ && before.stakers@.contains_key(k) ==> #[trigger] after.stakers@[k] == before.stakers@[k]
        &&& staker.address == held.address
        &&& staker.share == held.share
        &&& staker.votes@ == held.votes@
        &&& staker.withdraw_unstaked_amounts@ == pending(
            held.withdraw_unstaked_amounts@,
            before.staking_config.withdraw_delay,
            env.block.height,
            held.withdraw_unstaked_amounts@.len(),
        )
        &&& after.contract_config == before.contract_config
        &&& after.poll_config == before.poll_config
        &&& after.poll_state == before.poll_state
        &&& after.polls == before.polls
        &&& after.poll_execution_context == before.poll_execution_context
        &&& after.staking_config == before.staking_config
        &&& after.staking_state == before.staking_state
        &&& after.valkyrie_config == before.valkyrie_config
    }
}

/// Pays `sender` the unstaked tokens whose withdraw delay has passed, and
/// keeps the others waiting. Fails, changing nothing, where the sender has
/// no record or the sum exceeds 128 bits.
pub fn withdraw_voting_token(governance: &mut Governance, env: &Env, sender: &String) -> (r: Result<
    WithdrawResponse,
    ContractError,
>)
    requires
        old(governance).wf(),
    ensures
        final(governance).wf(),
        withdraw_result(old(governance), final(governance), r, env, sender),
{
    let delay = governance.staking_config.withdraw_delay;
    let mut staker = match governance.stakers.get(sender) {
        None => {
            return Err(ContractError::NotFound(Missing::StakerState));
        },
        Some(s) => s.duplicate(),
    };
    let paid = staker.withdraw_unstaked(delay, env.block.height);
    let amount = match checked_amount_sum(&paid) {
        None => {
            return Err(ContractError::Overflow);
        },
        Some(v) => v,
    };
    governance.stakers.insert(sender.clone(), staker);
    let mut messages: Vec<GovernanceMessage> = Vec::new();
    messages.push(
        GovernanceMessage::Transfer {
            token: governance.contract_config.governance_token.clone(),
            recipient: sender.clone(),
            amount,
        },
    );
    proof {
        assert(final(governance).stakers@.dom() =~= old(governance).stakers@.dom());
    }
    Ok(WithdrawResponse { messages, amount })
}

} // verus!
