//! The calls that reach the governance contract from the token contract
//! and from the host.

use vstd::prelude::*;
use crate::common::{ContractError, Env, Execution, Missing};
use crate::governance::poll::executions::{
    cast_vote, cast_vote_result, create_poll, create_poll_result, end_poll, end_poll_result,
    execute_poll, execute_poll_result, reply_execution, reply_execution_result, run_execution,
    run_execution_result, snapshot_poll, snapshot_poll_result, update_poll_config,
    update_poll_config_result, CreatePollResponse, EndPollResponse, ExecutePollResponse,
    RunExecutionResponse, UpdatePollConfigResponse, REPLY_EXECUTION,
};
use crate::governance::poll::states::{PollStatus, VoteOption};
use crate::governance::staking::executions::{
    stake_result, stake_voting_token, unstake_result, unstake_voting_token, update_config,
    update_config_result, withdraw_result, withdraw_voting_token, StakeResponse, UnstakeResponse,
    WithdrawResponse,
};
use crate::governance::states::Governance;
use crate::math::Decimal;

verus! {

/// What the sender of governance tokens wants done with them.
#[derive(Clone, Debug, PartialEq, Eq)]
pub enum Cw20HookMsg {
    /// Stake them.
    StakeVotingToken {  },
    /// Deposit them for a proposal.
    CreatePoll {
        title: String,
        description: String,
        link: Option<String>,
        execution: Vec<Execution>,
    },
}

/// What was done with the tokens received.
#[derive(Clone, Copy, Debug, PartialEq, Eq, Structural)]
pub enum ReceiveResponse {
    Staked(StakeResponse),
    PollCreated(CreatePollResponse),
}

/// The result of the stake in the result of a receipt.
pub open spec fn staked(r: Result<ReceiveResponse, ContractError>) -> Result<
    StakeResponse,
    ContractError,
> {
    match r {
        Ok(ReceiveResponse::Staked(response)) => Ok(response),
        Ok(ReceiveResponse::PollCreated(_)) => Err(ContractError::Unauthorized),
        Err(e) => Err(e),
    }
}

/// The result of the proposal in the result of a receipt.
pub open spec fn poll_created(r: Result<ReceiveResponse, ContractError>) -> Result<
    CreatePollResponse,
    ContractError,
> {
    match r {
        Ok(ReceiveResponse::PollCreated(response)) => Ok(response),
        Ok(ReceiveResponse::Staked(_)) => Err(ContractError::Unauthorized),
        Err(e) => Err(e),
    }
}

/// What a receipt of tokens gives: a refusal for anyone but the governance
/// token, else what the stake or the proposal gives.
pub open spec fn receive_result(
    before: &Governance,
    after: &Governance,
    r: Result<ReceiveResponse, ContractError>,
    env: &Env,
    sender: &String,
    contract_balance: u128,
    cw20_sender: String,
    amount: u128,
    msg: Cw20HookMsg,
) -> bool {
    if before.contract_config.governance_token@ != sender@ {
        &&& r == Err::<ReceiveResponse, ContractError>(ContractError::Unauthorized)
        &&& *after == *before
    } else {
        match msg {
            Cw20HookMsg::StakeVotingToken {  } => {
                &&& !(r matches Ok(ReceiveResponse::PollCreated(_)))
                &&& stake_result(
                    before,
                    after,
                    staked(r),
                    contract_balance,
                    cw20_sender,
                    amount,
                )
            },
            Cw20HookMsg::CreatePoll { title, description, link, execution } => {
                &&& !(r matches Ok(ReceiveResponse::Staked(_)))
                &&& create_poll_result(
                    before,
                    after,
                    poll_created(r),
                    env,
                    sender,
                    cw20_sender,
                    amount,
                    title,
                    description,
                    link,
                    execution,
                )
            },
        }
    }
}

/// Takes `amount` governance tokens that `cw20_sender` sent through the
/// token contract, which is the `sender` of the call, and stakes them or
/// opens a poll with them, as the message that came with them says. A call
/// that does not come from the governance token is turned away. On any
/// error nothing changes.
pub fn receive_cw20(
    governance: &mut Governance,
    env: &Env,
    sender: &String,
    contract_balance: u128,
    cw20_sender: String,
    amount: u128,
    msg: Cw20HookMsg,
) -> (r: Result<ReceiveResponse, ContractError>)
    requires
        old(governance).wf(),
    ensures
        final(governance).wf(),
        receive_result(
            old(governance),
            final(governance),
            r,
            env,
            sender,
            contract_balance,
            cw20_sender,
            amount,
            msg,
        ),
{
    if !governance.contract_config.is_governance_token(sender) {
        return Err(ContractError::Unauthorized);
    }
    match msg {
        Cw20HookMsg::StakeVotingToken {  } => {
            match stake_voting_token(governance, contract_balance, cw20_sender, amount) {
                Ok(response) => Ok(ReceiveResponse::Staked(response)),
                Err(e) => Err(e),
            }
        },
        Cw20HookMsg::CreatePoll { title, description, link, execution } => {
            match create_poll(
                governance,
                env,
                sender,
                cw20_sender,
                amount,
                title,
                description,
                link,
                execution,
            ) {
                Ok(response) => Ok(ReceiveResponse::PollCreated(response)),
                Err(e) => Err(e),
            }
        },
    }
}

/// Hands the result of a call to the handler that waits for it: the result
/// of an execution to the poll that was executed. A reply under an unknown
/// id fails and changes nothing.
pub fn reply(governance: &mut Governance, id: u64, succeeded: bool) -> (r: Result<
    PollStatus,
    ContractError,
>)
    requires
        old(governance).wf(),
    ensures
        final(governance).wf(),
        if id == REPLY_EXECUTION {
            reply_execution_result(old(governance), final(governance), r, succeeded)
        } else {
            &&& r == Err::<PollStatus, ContractError>(ContractError::NotFound(Missing::ReplyId))
            &&& *final(governance) == *old(governance)
        },
{
    if id == REPLY_EXECUTION {
        reply_execution(governance, succeeded)
    } else {
        Err(ContractError::NotFound(Missing::ReplyId))
    }
}

/// A call on the governance contract.
#[derive(Clone, Debug, PartialEq, Eq)]
#[allow(inconsistent_fields)]
pub enum ExecuteMsg {
    /// Tokens that `sender` sent through the token contract, with what it
    /// wants done with them.
    Receive { sender: String, amount: u128, msg: Cw20HookMsg },
    UpdateStakingConfig { withdraw_delay: Option<u64> },
    UnstakeVotingToken { amount: Option<u128> },
    WithdrawVotingToken {  },
    UpdatePollConfig {
        quorum: Option<Decimal>,
        threshold: Option<Decimal>,
        voting_period: Option<u64>,
        execution_delay_period: Option<u64>,
        proposal_deposit: Option<u128>,
        snapshot_period: Option<u64>,
    },
    CastVote { poll_id: u64, vote: VoteOption, amount: u128 },
    EndPoll { poll_id: u64 },
    ExecutePoll { poll_id: u64 },
    SnapshotPoll { poll_id: u64 },
    RunExecution { executions: Vec<Execution> },
}

/// What a call did.
#[derive(Clone, Debug, PartialEq, Eq)]
pub enum ExecuteResponse {
    Received(ReceiveResponse),
    StakingConfigUpdated,
    Unstaked(UnstakeResponse),
    Withdrawn(WithdrawResponse),
    PollConfigUpdated(UpdatePollConfigResponse),
    VoteCast,
    PollEnded(EndPollResponse),
    PollExecutionStarted(ExecutePollResponse),
    PollSnapshotted(u128),
    ExecutionsRun(RunExecutionResponse),
}

/// Whether the response is of the kind that answers the call.
pub open spec fn answers(msg: ExecuteMsg, response: ExecuteResponse) -> bool {
    match msg {
        ExecuteMsg::Receive { .. } => response is Received,
        ExecuteMsg::UpdateStakingConfig { .. } => response is StakingConfigUpdated,
        ExecuteMsg::UnstakeVotingToken { .. } => response is Unstaked,
        ExecuteMsg::WithdrawVotingToken {  } => response is Withdrawn,
        ExecuteMsg::UpdatePollConfig { .. } => response is PollConfigUpdated,
        ExecuteMsg::CastVote { .. } => response is VoteCast,
        ExecuteMsg::EndPoll { .. } => response is PollEnded,
        ExecuteMsg::ExecutePoll { .. } => response is PollExecutionStarted,
        ExecuteMsg::SnapshotPoll { .. } => response is PollSnapshotted,
        ExecuteMsg::RunExecution { .. } => response is ExecutionsRun,
    }
}

/// The result of a handler in the result of the call, where `pick` takes
/// the handler's response out of the call's.
pub open spec fn handled<T>(
    r: Result<ExecuteResponse, ContractError>,
    pick: spec_fn(ExecuteResponse) -> T,
) -> Result<T, ContractError> {
    match r {
        Ok(response) => Ok(pick(response)),
        Err(e) => Err(e),
    }
}

/// What a call gives: a response of the kind that answers it, and what the
/// handler of the call gives.
pub open spec fn execute_result(
    before: &Governance,
    after: &Governance,
    r: Result<ExecuteResponse, ContractError>,
    env: &Env,
    sender: &String,
    contract_balance: u128,
    msg: ExecuteMsg,
) -> bool {
    &&& r matches Ok(response) ==> answers(msg, response)
    &&& match msg {
        ExecuteMsg::Receive { sender: cw20_sender, amount, msg: hook } => receive_result(
            before,
            after,
            handled(r, |x: ExecuteResponse| x->Received_0),
            env,
            sender,
            contract_balance,
            cw20_sender,
            amount,
            hook,
        ),
        ExecuteMsg::UpdateStakingConfig { withdraw_delay } => update_config_result(
            before,
            after,
            handled(r, |x: ExecuteResponse| ()),
            env,
            sender,
            withdraw_delay,
        ),
        ExecuteMsg::UnstakeVotingToken { amount } => unstake_result(
            before,
            after,
            handled(r, |x: ExecuteResponse| x->Unstaked_0),
            env,
            contract_balance,
            sender,
            amount,
        ),
        ExecuteMsg::WithdrawVotingToken {  } => withdraw_result(
            before,
            after,
            handled(r, |x: ExecuteResponse| x->Withdrawn_0),
            env,
            sender,
        ),
        ExecuteMsg::UpdatePollConfig {
            quorum,
            threshold,
            voting_period,
            execution_delay_period,
            proposal_deposit,
            snapshot_period,
        } => update_poll_config_result(
            before,
            after,
            handled(r, |x: ExecuteResponse| x->PollConfigUpdated_0),
            env,
            sender,
            quorum,
            threshold,
            voting_period,
            execution_delay_period,
            proposal_deposit,
            snapshot_period,
        ),
        ExecuteMsg::CastVote { poll_id, vote, amount } => cast_vote_result(
            before,
            after,
            handled(r, |x: ExecuteResponse| ()),
            env,
            sender,
            contract_balance,
            poll_id,
            vote,
            amount,
        ),
        ExecuteMsg::EndPoll { poll_id } => end_poll_result(
            before,
            after,
            handled(r, |x: ExecuteResponse| x->PollEnded_0),
            env,
            contract_balance,
            poll_id,
        ),
        ExecuteMsg::ExecutePoll { poll_id } => execute_poll_result(
            before,
            after,
            handled(r, |x: ExecuteResponse| x->PollExecutionStarted_0),
            env,
            poll_id,
        ),
        ExecuteMsg::SnapshotPoll { poll_id } => snapshot_poll_result(
            before,
            after,
            handled(r, |x: ExecuteResponse| x->PollSnapshotted_0),
            env,
            contract_balance,
            poll_id,
        ),
        ExecuteMsg::RunExecution { executions } => {
            &&& *after == *before
            &&& run_execution_result(
                handled(r, |x: ExecuteResponse| x->ExecutionsRun_0),
                env,
                sender,
                executions,
            )
        },
    }
}

/// Hands a call of `sender` to its handler. `contract_balance` is what the
/// contract holds of the governance token. On any error nothing changes.
pub fn execute(
    governance: &mut Governance,
    env: &Env,
    sender: &String,
    contract_balance: u128,
    msg: ExecuteMsg,
) -> (r: Result<ExecuteResponse, ContractError>)
    requires
        old(governance).wf(),
    ensures
        final(governance).wf(),
        execute_result(old(governance), final(governance), r, env, sender, contract_balance, msg),
{
    match msg {
        ExecuteMsg::Receive { sender: cw20_sender, amount, msg: hook } => {
            match receive_cw20(governance, env, sender, contract_balance, cw20_sender, amount, hook) {
                Ok(response) => Ok(ExecuteResponse::Received(response)),
                Err(e) => Err(e),
            }
        },
        ExecuteMsg::UpdateStakingConfig { withdraw_delay } => {
            match update_config(governance, env, sender, withdraw_delay) {
                Ok(_) => Ok(ExecuteResponse::StakingConfigUpdated),
                Err(e) => Err(e),
            }
        },
        ExecuteMsg::UnstakeVotingToken { amount } => {
            match unstake_voting_token(governance, env, contract_balance, sender, amount) {
                Ok(response) => Ok(ExecuteResponse::Unstaked(response)),
                Err(e) => Err(e),
            }
        },
        ExecuteMsg::WithdrawVotingToken {  } => {
            match withdraw_voting_token(governance, env, sender) {
                Ok(response) => Ok(ExecuteResponse::Withdrawn(response)),
                Err(e) => Err(e),
            }
        },
        ExecuteMsg::UpdatePollConfig {
            quorum,
            threshold,
            voting_period,
            execution_delay_period,
            proposal_deposit,
            snapshot_period,
        } => {
            match update_poll_config(
                governance,
                env,
                sender,
                quorum,
                threshold,
                voting_period,
                execution_delay_period,
                proposal_deposit,
                snapshot_period,
            ) {
                Ok(response) => Ok(ExecuteResponse::PollConfigUpdated(response)),
                Err(e) => Err(e),
            }
        },
        ExecuteMsg::CastVote { poll_id, vote, amount } => {
            match cast_vote(governance, env, sender, contract_balance, poll_id, vote, amount) {
                Ok(_) => Ok(ExecuteResponse::VoteCast),
                Err(e) => Err(e),
            }
        },
        ExecuteMsg::EndPoll { poll_id } => {
            match end_poll(governance, env, contract_balance, poll_id) {
                Ok(response) => Ok(ExecuteResponse::PollEnded(response)),
                Err(e) => Err(e),
            }
        },
        ExecuteMsg::ExecutePoll { poll_id } => {
            match execute_poll(governance, env, poll_id) {
                Ok(response) => Ok(ExecuteResponse::PollExecutionStarted(response)),
                Err(e) => Err(e),
            }
        },
        ExecuteMsg::SnapshotPoll { poll_id } => {
            match snapshot_poll(governance, env, contract_balance, poll_id) {
                Ok(response) => Ok(ExecuteResponse::PollSnapshotted(response)),
                Err(e) => Err(e),
            }
        },
        ExecuteMsg::RunExecution { executions } => {
            match run_execution(env, sender, executions) {
                Ok(response) => Ok(ExecuteResponse::ExecutionsRun(response)),
                Err(e) => Err(e),
            }
        },
    }
}

} // verus!
