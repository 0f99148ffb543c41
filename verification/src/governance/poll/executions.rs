//! The calls that create, vote on, end and execute polls.

use vstd::prelude::*;
use vstd::string::*;
use crate::common::{execution_views, ContractError, Env, Execution, Missing, Violation};
use crate::governance::poll::states::{
    outcome, Poll, PollConfig, PollExecutionContext, PollResult, PollState, PollStatus, VoteInfo,
    VoteOption,
};
use crate::governance::staking::states::{share_value, StakerState};
use crate::governance::states::Governance;
use crate::math::Decimal;
use crate::sorting::{duplicate_bytes, sort_by_order, sorted_executions};

verus! {

pub const MIN_TITLE_LENGTH: usize = 4;

pub const MAX_TITLE_LENGTH: usize = 64;

pub const MIN_DESC_LENGTH: usize = 4;

pub const MAX_DESC_LENGTH: usize = 1024;

pub const MIN_LINK_LENGTH: usize = 12;

pub const MAX_LINK_LENGTH: usize = 128;

/// The id under which the result of an execution comes back.
pub const REPLY_EXECUTION: u64 = 1;

/// A message that the governance contract sends.
#[derive(Clone, Debug, PartialEq, Eq)]
pub enum GovernanceMessage {
    /// Hands `amount` of `token` to `recipient`.
    Transfer { token: String, recipient: String, amount: u128 },
    /// Calls the governance contract itself to run the executions; the
    /// result of the call comes back as the reply `reply_id`, on success and
    /// on failure.
    RunExecution { contract: String, executions: Vec<Execution>, reply_id: u64 },
    /// Sends the encoded message to `contract`.
    Execute { contract: String, msg: Vec<u8> },
}

/// The rules that the first poll configuration sets.
#[derive(Clone, Copy, Debug, PartialEq, Eq, Structural)]
pub struct PollConfigInitMsg {
    pub quorum: Decimal,
    pub threshold: Decimal,
    pub voting_period: u64,
    pub execution_delay_period: u64,
    pub proposal_deposit: u128,
    pub snapshot_period: u64,
}

/// A quorum is a part of the whole: at most 1.
pub fn validate_quorum(quorum: Decimal) -> (r: Result<(), ContractError>)
    ensures
        r == if quorum.is_fraction() {
            Ok::<(), ContractError>(())
        } else {
            Err::<(), ContractError>(ContractError::Generic(Violation::InvalidQuorum))
        },
{
    if quorum.atomics > Decimal::one().atomics {
        Err(ContractError::Generic(Violation::InvalidQuorum))
    } else {
        Ok(())
    }
}

/// A threshold is a part of the whole: at most 1.
pub fn validate_threshold(threshold: Decimal) -> (r: Result<(), ContractError>)
    ensures
        r == if threshold.is_fraction() {
            Ok::<(), ContractError>(())
        } else {
            Err::<(), ContractError>(ContractError::Generic(Violation::InvalidThreshold))
        },
{
    if threshold.atomics > Decimal::one().atomics {
        Err(ContractError::Generic(Violation::InvalidThreshold))
    } else {
        Ok(())
    }
}

/// What is wrong with a text of `length` characters that must have between
/// `min` and `max`.
pub open spec fn length_rejection(
    length: nat,
    min: nat,
    max: nat,
    short: Violation,
    long: Violation,
) -> Option<ContractError> {
    if length < min {
        Some(ContractError::Generic(short))
    } else if length > max {
        Some(ContractError::Generic(long))
    } else {
        None
    }
}

/// What is wrong with a title: it has fewer than 4 or more than 64
/// characters.
pub open spec fn title_rejection(title: Seq<char>) -> Option<ContractError> {
    length_rejection(
        title.len(),
        MIN_TITLE_LENGTH as nat,
        MAX_TITLE_LENGTH as nat,
        Violation::TitleTooShort,
        Violation::TitleTooLong,
    )
}

/// What is wrong with a description: it has fewer than 4 or more than 1024
/// characters.
pub open spec fn description_rejection(description: Seq<char>) -> Option<ContractError> {
    length_rejection(
        description.len(),
        MIN_DESC_LENGTH as nat,
        MAX_DESC_LENGTH as nat,
        Violation::DescriptionTooShort,
        Violation::DescriptionTooLong,
    )
}

/// What is wrong with a link, where one is given: it has fewer than 12 or
/// more than 128 characters.
pub open spec fn link_rejection(link: Option<String>) -> Option<ContractError> {
    match link {
        Some(text) => length_rejection(
            text@.len(),
            MIN_LINK_LENGTH as nat,
            MAX_LINK_LENGTH as nat,
            Violation::LinkTooShort,
            Violation::LinkTooLong,
        ),
        None => None,
    }
}

/// `Ok` where nothing is wrong.
pub open spec fn as_result(rejection: Option<ContractError>) -> Result<(), ContractError> {
    match rejection {
        Some(e) => Err(e),
        None => Ok(()),
    }
}

/// Accepts a title of 4 to 64 characters.
pub fn validate_title(title: &str) -> (r: Result<(), ContractError>)
    ensures
        r == as_result(title_rejection(title@)),
{
    let length = title.unicode_len();
    if length < MIN_TITLE_LENGTH {
        Err(ContractError::Generic(Violation::TitleTooShort))
    } else if length > MAX_TITLE_LENGTH {
        Err(ContractError::Generic(Violation::TitleTooLong))
    } else {
        Ok(())
    }
}

/// Accepts a description of 4 to 1024 characters.
pub fn validate_description(description: &str) -> (r: Result<(), ContractError>)
    ensures
        r == as_result(description_rejection(description@)),
{
    let length = description.unicode_len();
    if length < MIN_DESC_LENGTH {
        Err(ContractError::Generic(Violation::DescriptionTooShort))
    } else if length > MAX_DESC_LENGTH {
        Err(ContractError::Generic(Violation::DescriptionTooLong))
    } else {
        Ok(())
    }
}

/// Accepts no link, or a link of 12 to 128 characters.
pub fn validate_link(link: &Option<String>) -> (r: Result<(), ContractError>)
    ensures
        r == as_result(link_rejection(*link)),
{
    match link {
        Some(text) => {
            let length = text.as_str().unicode_len();
            if length < MIN_LINK_LENGTH {
                Err(ContractError::Generic(Violation::LinkTooShort))
            } else if length > MAX_LINK_LENGTH {
                Err(ContractError::Generic(Violation::LinkTooLong))
            } else {
                Ok(())
            }
        },
        None => Ok(()),
    }
}

/// The first poll configuration and the counters of a contract without
/// polls. Fails where quorum or threshold exceeds 1.
pub fn instantiate(msg: PollConfigInitMsg) -> (r: Result<(PollConfig, PollState), ContractError>)
    ensures
        r == if !msg.quorum.is_fraction() {
            Err::<(PollConfig, PollState), ContractError>(
                ContractError::Generic(Violation::InvalidQuorum),
            )
        } else if !msg.threshold.is_fraction() {
            Err::<(PollConfig, PollState), ContractError>(
                ContractError::Generic(Violation::InvalidThreshold),
            )
        } else {
            Ok::<(PollConfig, PollState), ContractError>(
                (
                    PollConfig {
                        quorum: msg.quorum,
                        threshold: msg.threshold,
                        voting_period: msg.voting_period,
                        execution_delay_period: msg.execution_delay_period,
                        proposal_deposit: msg.proposal_deposit,
                        snapshot_period: msg.snapshot_period,
                    },
                    PollState { poll_count: 0, total_deposit: 0 },
                ),
            )
        },
{
    match validate_quorum(msg.quorum) {
        Err(e) => {
            return Err(e);
        },
        Ok(_) => {},
    }
    match validate_threshold(msg.threshold) {
        Err(e) => {
            return Err(e);
        },
        Ok(_) => {},
    }
    Ok(
        (
            PollConfig {
                quorum: msg.quorum,
                threshold: msg.threshold,
                voting_period: msg.voting_period,
                execution_delay_period: msg.execution_delay_period,
                proposal_deposit: msg.proposal_deposit,
                snapshot_period: msg.snapshot_period,
            },
            PollState { poll_count: 0, total_deposit: 0 },
        ),
    )
}

/// `value` where it is given, else `current`.
pub open spec fn or_current<T>(value: Option<T>, current: T) -> T {
    match value {
        Some(v) => v,
        None => current,
    }
}

/// Which rules an update has set.
#[derive(Clone, Copy, Debug, PartialEq, Eq, Structural)]
pub struct UpdatePollConfigResponse {
    pub is_updated_quorum: bool,
    pub is_updated_threshold: bool,
    pub is_updated_voting_period: bool,
    pub is_updated_execution_delay_period: bool,
    pub is_updated_proposal_deposit: bool,
    pub is_updated_snapshot_period: bool,
}

/// What a change of the poll rules gives: an error that leaves everything
/// as it was, or the rules that were given set.
pub open spec fn update_poll_config_result(
    before: &Governance,
    after: &Governance,
    r: Result<UpdatePollConfigResponse, ContractError>,
    env: &Env,
    sender: &String,
    quorum: Option<Decimal>,
    threshold: Option<Decimal>,
    voting_period: Option<u64>,
    execution_delay_period: Option<u64>,
    proposal_deposit: Option<u128>,
    snapshot_period: Option<u64>,
) -> bool {
    if env.contract_address@ != sender@ {
        &&& r == Err::<UpdatePollConfigResponse, ContractError>(ContractError::Unauthorized)
        &&& *after == *before
    } else if quorum.is_some() && !quorum.unwrap().is_fraction() {
        &&& r == Err::<UpdatePollConfigResponse, ContractError>(
            ContractError::Generic(Violation::InvalidQuorum),
        )
        &&& *after == *before
    } else if threshold.is_some() && !threshold.unwrap().is_fraction() {
        &&& r == Err::<UpdatePollConfigResponse, ContractError>(
            ContractError::Generic(Violation::InvalidThreshold),
        )
        &&& *after == *before
    } else {
        &&& r == Ok::<UpdatePollConfigResponse, ContractError>(
            UpdatePollConfigResponse {
                is_updated_quorum: quorum.is_some(),
                is_updated_threshold: threshold.is_some(),
                is_updated_voting_period: voting_period.is_some(),
                is_updated_execution_delay_period: execution_delay_period.is_some(),
                is_updated_proposal_deposit: proposal_deposit.is_some(),
                is_updated_snapshot_period: snapshot_period.is_some(),
            },
        )
        &&& *after == (Governance {
            poll_config: PollConfig {
                quorum: or_current(quorum, before.poll_config.quorum),
                threshold: or_current(threshold, before.poll_config.threshold),
                voting_period: or_current(voting_period, before.poll_config.voting_period),
                execution_delay_period: or_current(
                    execution_delay_period,
                    before.poll_config.execution_delay_period,
                ),
                proposal_deposit: or_current(
                    proposal_deposit,
                    before.poll_config.proposal_deposit,
                ),
                snapshot_period: or_current(
                    snapshot_period,
                    before.poll_config.snapshot_period,
                ),
            },
            ..*before
        })
    }
}

/// Sets the rules that are given and keeps the others. Only the governance
/// contract itself may do so, which it does by executing a poll. Fails,
/// changing nothing, where a given quorum or threshold exceeds 1.
pub fn update_poll_config(
    governance: &mut Governance,
    env: &Env,
    sender: &String,
    quorum: Option<Decimal>,
    threshold: Option<Decimal>,
    voting_period: Option<u64>,
    execution_delay_period: Option<u64>,
    proposal_deposit: Option<u128>,
    snapshot_period: Option<u64>,
) -> (r: Result<UpdatePollConfigResponse, ContractError>)
    requires
        old(governance).wf(),
    ensures
        final(governance).wf(),
        update_poll_config_result(
            old(governance),
            final(governance),
            r,
            env,
            sender,
            quorum,
            threshold,
            voting_period,
            execution_delay_period,
            proposal_deposit,
            snapshot_period,
        ),
{
    if env.contract_address != *sender {
        return Err(ContractError::Unauthorized);
    }
    let mut poll_config = governance.poll_config;
    if let Some(quorum) = quorum {
        match validate_quorum(quorum) {
            Err(e) => {
                return Err(e);
            },
            Ok(_) => {},
        }
        poll_config.quorum = quorum;
    }
    if let Some(threshold) = threshold {
        match validate_threshold(threshold) {
            Err(e) => {
                return Err(e);
            },
            Ok(_) => {},
        }
        poll_config.threshold = threshold;
    }
    if let Some(voting_period) = voting_period {
        poll_config.voting_period = voting_period;
    }
    if let Some(execution_delay_period) = execution_delay_period {
        poll_config.execution_delay_period = execution_delay_period;
    }
    if let Some(proposal_deposit) = proposal_deposit {
        poll_config.proposal_deposit = proposal_deposit;
    }
    if let Some(period) = snapshot_period {
        poll_config.snapshot_period = period;
    }
    governance.poll_config = poll_config;
    Ok(
        UpdatePollConfigResponse {
            is_updated_quorum: quorum.is_some(),
            is_updated_threshold: threshold.is_some(),
            is_updated_voting_period: voting_period.is_some(),
            is_updated_execution_delay_period: execution_delay_period.is_some(),
            is_updated_proposal_deposit: proposal_deposit.is_some(),
            is_updated_snapshot_period: snapshot_period.is_some(),
        },
    )
}

/// Why a proposal is turned away: its texts have the wrong length, it does
/// not come through the governance token, its deposit is too small, or a
/// counter would leave its range.
pub open spec fn create_poll_rejection(
    governance: &Governance,
    env: &Env,
    sender: Seq<char>,
    deposit_amount: u128,
    title: Seq<char>,
    description: Seq<char>,
    link: Option<String>,
) -> Option<ContractError> {
    if title_rejection(title).is_some() {
        title_rejection(title)
    } else if description_rejection(description).is_some() {
        description_rejection(description)
    } else if link_rejection(link).is_some() {
        link_rejection(link)
    } else if governance.contract_config.governance_token@ != sender {
        Some(ContractError::Unauthorized)
    } else if deposit_amount < governance.poll_config.proposal_deposit {
        Some(
            ContractError::Generic(
                Violation::DepositTooSmall(governance.poll_config.proposal_deposit),
            ),
        )
    } else if governance.poll_state.poll_count + 1 > u64::MAX || env.block.height
        + governance.poll_config.voting_period > u64::MAX || governance.poll_state.total_deposit
        + deposit_amount > u128::MAX {
        Some(ContractError::Overflow)
    } else {
        None
    }
}

/// The poll that a proposal opens.
pub open spec fn opened(
    poll: &Poll,
    id: u64,
    proposer: String,
    end_height: u64,
    title: String,
    description: String,
    link: Option<String>,
    executions: Vec<Execution>,
    deposit_amount: u128,
) -> bool {
    &&& poll.id == id
    &&& poll.creator == proposer
    &&& poll.status == PollStatus::InProgress
    &&& poll.yes_votes == 0
    &&& poll.no_votes == 0
    &&& poll.abstain_votes == 0
    &&& poll.end_height == end_height
    &&& poll.title == title
    &&& poll.description == description
    &&& poll.link == link
    &&& poll.executions == executions
    &&& poll.deposit_amount == deposit_amount
    &&& poll.total_balance_at_end_poll.is_none()
    &&& poll.snapped_staked_amount.is_none()
    &&& poll.voters@.len() == 0
}

/// The id of a new poll and the height at which it ends.
#[derive(Clone, Copy, Debug, PartialEq, Eq, Structural)]
pub struct CreatePollResponse {
    pub poll_id: u64,
    pub end_height: u64,
}

/// What a proposal gives: an error that leaves everything as it was, or
/// the poll opened as the last one, counted, and its deposit added to the
/// deposits.
pub open spec fn create_poll_result(
    before: &Governance,
    after: &Governance,
    r: Result<CreatePollResponse, ContractError>,
    env: &Env,
    sender: &String,
    proposer: String,
    deposit_amount: u128,
    title: String,
    description: String,
    link: Option<String>,
    executions: Vec<Execution>,
) -> bool {
    match create_poll_rejection(
        before,
        env,
        sender@,
        deposit_amount,
        title@,
        description@,
        link,
    ) {
        Some(e) => {
            &&& r == Err::<CreatePollResponse, ContractError>(e)
            &&& *after == *before
        },
        None => {
            let id = (before.poll_state.poll_count + 1) as u64;
            let end_height = (env.block.height + before.poll_config.voting_period) as u64;
            &&& r == Ok::<CreatePollResponse, ContractError>(
                CreatePollResponse { poll_id: id, end_height },
            )
            &&& after.polls@.len() == before.polls@.len() + 1
            &&& after.polls@.drop_last() == before.polls@
            &&& opened(
                &after.polls@.last(),
                id,
                proposer,
                end_height,
                title,
                description,
                link,
                executions,
                deposit_amount,
            )
            &&& after.poll_state == (PollState {
                poll_count: id,
                total_deposit: (before.poll_state.total_deposit + deposit_amount) as u128,
            })
            &&& after.contract_config == before.contract_config
            &&& after.poll_config == before.poll_config
            &&& after.poll_execution_context == before.poll_execution_context
            &&& after.staking_config == before.staking_config
            &&& after.staking_state == before.staking_state
            &&& after.stakers == before.stakers
            &&& after.valkyrie_config == before.valkyrie_config
        },
    }
}

/// Opens a poll on a proposal that `proposer` made by sending
/// `deposit_amount` of the governance token, which is the `sender`. The poll
/// gets the next id and takes votes for the voting period. On any error
/// nothing changes.
pub fn create_poll(
    governance: &mut Governance,
    env: &Env,
    sender: &String,
    proposer: String,
    deposit_amount: u128,
    title: String,
    description: String,
    link: Option<String>,
    executions: Vec<Execution>,
) -> (r: Result<CreatePollResponse, ContractError>)
    requires
        old(governance).wf(),
    ensures
        final(governance).wf(),
        create_poll_result(
            old(governance),
            final(governance),
            r,
            env,
            sender,
            proposer,
            deposit_amount,
            title,
            description,
            link,
            executions,
        ),
{
    match validate_title(title.as_str()) {
        Err(e) => {
            return Err(e);
        },
        Ok(_) => {},
    }
    match validate_description(description.as_str()) {
        Err(e) => {
            return Err(e);
        },
        Ok(_) => {},
    }
    match validate_link(&link) {
        Err(e) => {
            return Err(e);
        },
        Ok(_) => {},
    }
    if !governance.contract_config.is_governance_token(sender) {
        return Err(ContractError::Unauthorized);
    }
    if deposit_amount < governance.poll_config.proposal_deposit {
        return Err(
            ContractError::Generic(
                Violation::DepositTooSmall(governance.poll_config.proposal_deposit),
            ),
        );
    }
    let id = governance.poll_state.poll_count.checked_add(1);
    let end_height = env.block.height.checked_add(governance.poll_config.voting_period);
    let total_deposit = governance.poll_state.total_deposit.checked_add(deposit_amount);
    if id.is_none() || end_height.is_none() || total_deposit.is_none() {
        return Err(ContractError::Overflow);
    }
    let id = id.unwrap();
    let end_height = end_height.unwrap();
    let poll = Poll {
        id,
        creator: proposer,
        status: PollStatus::InProgress,
        yes_votes: 0,
        no_votes: 0,
        abstain_votes: 0,
        end_height,
        title,
        description,
        link,
        executions,
        deposit_amount,
        total_balance_at_end_poll: None,
        snapped_staked_amount: None,
        voters: Vec::new(),
    };
    governance.polls.push(poll);
    governance.poll_state.poll_count = id;
    governance.poll_state.total_deposit = total_deposit.unwrap();
    assert(final(governance).polls@.drop_last() =~= old(governance).polls@);
    Ok(CreatePollResponse { poll_id: id, end_height })
}

/// The tokens that the stakers hold together: what the contract holds less
/// the deposits of the polls in progress. Fails with an underflow where the
/// contract holds less than the deposits.
pub fn load_available_balance(governance: &Governance, contract_balance: u128) -> (r: Result<
    u128,
    ContractError,
>)
    ensures
        match r {
            Ok(v) => v == governance.staked(contract_balance),
            Err(e) => governance.staked(contract_balance) < 0 && e == ContractError::Overflow,
        },
{
    match contract_balance.checked_sub(governance.poll_state.total_deposit) {
        Some(v) => Ok(v),
        None => Err(ContractError::Overflow),
    }
}

/// Why a vote is turned away: the poll does not exist or takes no votes,
/// the voter has voted, its stake does not cover the amount, or a number
/// leaves its range.
pub open spec fn cast_vote_rejection(
    governance: &Governance,
    env: &Env,
    sender: Seq<char>,
    contract_balance: u128,
    poll_id: u64,
    amount: u128,
) -> Option<ContractError> {
    if poll_id == 0 || governance.poll_state.poll_count < poll_id {
        Some(ContractError::Generic(Violation::PollDoesNotExist))
    } else {
        let poll = governance.polls@[poll_id - 1];
        if !poll.open_at(env.block.height) {
            Some(ContractError::Generic(Violation::PollNotInProgress))
        } else if poll.voted(sender) {
            Some(ContractError::Generic(Violation::AlreadyVoted))
        } else if governance.staked(contract_balance) < 0 {
            Some(ContractError::Overflow)
        } else {
            let available = governance.staked(contract_balance) as u128;
            let total_share = governance.staking_state.total_share;
            if governance.stakers@.contains_key(sender) {
                let staker = governance.stakers@[sender];
                if staker.locked(governance.polls@) > u128::MAX || share_value(
                    staker.share,
                    available,
                    total_share,
                ) > u128::MAX {
                    Some(ContractError::Overflow)
                } else if !staker.may_vote(governance.polls@, available, total_share, amount) {
                    Some(ContractError::Generic(Violation::InsufficientStake))
                } else if poll.tallied() + amount > u128::MAX {
                    Some(ContractError::Overflow)
                } else {
                    None
                }
            } else if amount != 0 {
                Some(ContractError::Generic(Violation::InsufficientStake))
            } else {
                None
            }
        }
    }
}

/// `after` is `before` with `vote` counted at `height`: its amount added to
/// the tally of its option, the voter listed, and the stake snapshotted as
/// `available` where the poll is near enough to its end and has no snapshot.
pub open spec fn vote_counted(
    before: &Poll,
    after: &Poll,
    config: &PollConfig,
    height: u64,
    available: u128,
    vote: VoteInfo,
) -> bool {
    &&& after.id == before.id
    &&& after.creator == before.creator
    &&& after.status == before.status
    &&& after.end_height == before.end_height
    &&& after.title == before.title
    &&& after.description == before.description
    &&& after.link == before.link
    &&& after.executions == before.executions
    &&& after.deposit_amount == before.deposit_amount
    &&& after.total_balance_at_end_poll == before.total_balance_at_end_poll
    &&& after.yes_votes == before.yes_votes + if vote.option == VoteOption::Yes {
        vote.amount
    } else {
        0
    }
    &&& after.no_votes == before.no_votes + if vote.option == VoteOption::No {
        vote.amount
    } else {
        0
    }
    &&& after.abstain_votes == before.abstain_votes + if vote.option == VoteOption::Abstain {
        vote.amount
    } else {
        0
    }
    &&& after.voters@ == before.voters@.push(vote)
    &&& after.snapped_staked_amount == if before.snapshot_rejection(config, height).is_none() {
        Some(available)
    } else {
        before.snapped_staked_amount
    }
}

/// `after` is the record of `sender` with one more vote; a voter without a
/// record gets one that holds no stake.
pub open spec fn vote_recorded(
    before: Option<StakerState>,
    after: &StakerState,
    sender: String,
    entry: (u64, VoteInfo),
) -> bool {
    match before {
        Some(b) => {
            &&& after.address == b.address
            &&& after.share == b.share
            &&& after.votes@ == b.votes@.push(entry)
            &&& after.withdraw_unstaked_amounts == b.withdraw_unstaked_amounts
        },
        None => {
            &&& after.address == sender
            &&& after.share == 0
            &&& after.votes@ == seq![entry]
            &&& after.withdraw_unstaked_amounts@.len() == 0
        },
    }
}

/// What a vote gives: an error that leaves everything as it was, or the
/// vote counted on the poll and recorded with the voter.
pub open spec fn cast_vote_result(
    before: &Governance,
    after: &Governance,
    r: Result<(), ContractError>,
    env: &Env,
    sender: &String,
    contract_balance: u128,
    poll_id: u64,
    option: VoteOption,
    amount: u128,
) -> bool {
    match cast_vote_rejection(before, env, sender@, contract_balance, poll_id, amount) {
        Some(e) => r == Err::<(), ContractError>(e) && *after == *before,
        None => {
            let i = poll_id - 1;
            let vote = VoteInfo { voter: *sender, option, amount };
            &&& r.is_ok()
            &&& after.polls@.len() == before.polls@.len()
            &&& forall|j: int|
                0 <= j < before.polls@.len() && j != i ==> #[trigger] after.polls@[j]
                    == before.polls@[j]
            &&& vote_counted(
                &before.polls@[i],
                &after.polls@[i],
                &before.poll_config,
                env.block.height,
                before.staked(contract_balance) as u128,
                vote,
            )
            &&& after.stakers@.dom() == before.stakers@.dom().insert(
                sender@,
            )
            &&& forall|k: Seq<char>|
                k != sender@ && before.stakers@.contains_key(k) ==> #[trigger] after.stakers@[k]
                    == before.stakers@[k]
            &&& vote_recorded(
                if before.stakers@.contains_key(sender@) {
                    Some(before.stakers@[sender@])
                } else {
                    None
                },
                &after.stakers@[sender@],
                *sender,
                (poll_id, vote),
            )
            &&& after.contract_config == before.contract_config
            &&& after.poll_config == before.poll_config
            &&& after.poll_state == before.poll_state
            &&& after.poll_execution_context == before.poll_execution_context
            &&& after.staking_config == before.staking_config
            &&& after.staking_state == before.staking_state
            &&& after.valkyrie_config == before.valkyrie_config
        },
    }
}

/// Counts a vote of `sender` on a poll. `contract_balance` is what the
/// contract holds of the governance token. The stake is snapshotted along
/// the way where the poll is near enough to its end; that no snapshot can be
/// taken does not stop the vote. On any error nothing changes.
pub fn cast_vote(
    governance: &mut Governance,
    env: &Env,
    sender: &String,
    contract_balance: u128,
    poll_id: u64,
    option: VoteOption,
    amount: u128,
) -> (r: Result<(), ContractError>)
    requires
        old(governance).wf(),
    ensures
        final(governance).wf(),
        cast_vote_result(
            old(governance),
            final(governance),
            r,
            env,
            sender,
            contract_balance,
            poll_id,
            option,
            amount,
        ),
{
    if poll_id == 0 || governance.poll_state.poll_count < poll_id {
        return Err(ContractError::Generic(Violation::PollDoesNotExist));
    }
    let i: usize = match governance.find_poll(poll_id) {
        None => {
            return Err(ContractError::Generic(Violation::PollDoesNotExist));
        },
        Some(i) => i,
    };
    if !governance.polls[i].in_progress(env.block.height) {
        return Err(ContractError::Generic(Violation::PollNotInProgress));
    }
    if governance.polls[i].is_voted(sender) {
        return Err(ContractError::Generic(Violation::AlreadyVoted));
    }
    let available = match load_available_balance(governance, contract_balance) {
        Err(e) => {
            return Err(e);
        },
        Ok(v) => v,
    };
    let total_share = governance.staking_state.total_share;
    match governance.stakers.get(sender) {
        Some(staker) => {
            match staker.can_vote(&governance.polls, available, total_share, amount) {
                Err(e) => {
                    return Err(e);
                },
                Ok(allowed) => {
                    if !allowed {
                        return Err(ContractError::Generic(Violation::InsufficientStake));
                    }
                },
            }
        },
        None => {
            if amount != 0 {
                return Err(ContractError::Generic(Violation::InsufficientStake));
            }
        },
    }
    let yes = governance.polls[i].yes_votes;
    let no = governance.polls[i].no_votes;
    let abstain = governance.polls[i].abstain_votes;
    let tallied: u128 = yes + no + abstain;
    if tallied.checked_add(amount).is_none() {
        return Err(ContractError::Overflow);
    }
    let config = governance.poll_config;
    match option {
        VoteOption::Yes => {
            governance.polls[i].yes_votes = yes + amount;
        },
        VoteOption::No => {
            governance.polls[i].no_votes = no + amount;
        },
        VoteOption::Abstain => {
            governance.polls[i].abstain_votes = abstain + amount;
        },
    }
    governance.polls[i].voters.push(VoteInfo { voter: sender.clone(), option, amount });
    let _ = governance.polls[i].snapshot_staked_amount(&config, env.block.height, available);
    let mut staker = match governance.stakers.remove(sender) {
        Some(s) => s,
        None => StakerState::new(sender.clone()),
    };
    let ghost votes_before = staker.votes@;
    staker.votes.push((poll_id, VoteInfo { voter: sender.clone(), option, amount }));
    assert(votes_before.len() == 0 ==> staker.votes@ =~= seq![
        (poll_id, VoteInfo { voter: *sender, option, amount }),
    ]);
    governance.stakers.insert(sender.clone(), staker);
    proof {
        assert(final(governance).stakers@.dom() =~= old(governance).stakers@.dom().insert(sender@));
    }
    Ok(())
}

/// The status in which a poll with this result ends.
pub open spec fn status_of(result: PollResult) -> PollStatus {
    match result {
        PollResult::Passed => PollStatus::Passed,
        PollResult::ThresholdNotReached => PollStatus::Rejected,
        PollResult::QuorumNotReached => PollStatus::QuorumNotReached,
    }
}

/// The stake that a poll is measured against when it ends: the snapshot, or
/// without one what the stakers hold now.
pub open spec fn measured_stake(governance: &Governance, poll: &Poll, contract_balance: u128) -> int {
    match poll.snapped_staked_amount {
        Some(v) => v as int,
        None => governance.staked(contract_balance),
    }
}

/// Why a poll cannot be ended: it does not exist, has ended, still takes
/// votes, or a number leaves its range.
pub open spec fn end_poll_rejection(
    governance: &Governance,
    env: &Env,
    contract_balance: u128,
    poll_id: u64,
) -> Option<ContractError> {
    match governance.poll(poll_id) {
        None => Some(ContractError::NotFound(Missing::Poll)),
        Some(poll) => if poll.status != PollStatus::InProgress {
            Some(ContractError::Generic(Violation::PollNotInProgress))
        } else if poll.end_height > env.block.height {
            Some(ContractError::Generic(Violation::VotingPeriodNotExpired))
        } else if measured_stake(governance, &poll, contract_balance) < 0
            || governance.poll_state.total_deposit < poll.deposit_amount {
            Some(ContractError::Overflow)
        } else {
            None
        },
    }
}

/// How a poll ended, and the refund of its deposit.
#[derive(Clone, Debug, PartialEq, Eq)]
pub struct EndPollResponse {
    pub messages: Vec<GovernanceMessage>,
    pub result: PollResult,
    pub passed: bool,
}

/// What ending a poll gives: an error that leaves everything as it was, or
/// the poll in the status of its result, the stake it was measured against
/// noted, its deposit taken off the deposits and, unless the quorum was
/// missed, refunded.
pub open spec fn end_poll_result(
    before: &Governance,
    after: &Governance,
    r: Result<EndPollResponse, ContractError>,
    env: &Env,
    contract_balance: u128,
    poll_id: u64,
) -> bool {
    match end_poll_rejection(before, env, contract_balance, poll_id) {
        Some(e) => {
            &&& r == Err::<EndPollResponse, ContractError>(e)
            &&& *after == *before
        },
        None => {
            let i = poll_id - 1;
            let poll = before.polls@[i];
            let staked = measured_stake(before, &poll, contract_balance) as u128;
            let result = outcome(
                poll.yes_votes as nat,
                poll.no_votes as nat,
                poll.abstain_votes as nat,
                staked as nat,
                &before.poll_config,
            );
            &&& r matches Ok(response)
            &&& response.result == result
            &&& response.passed == (result == PollResult::Passed)
            &&& response.messages@ == if result != PollResult::QuorumNotReached
                && poll.deposit_amount != 0 {
                seq![
                    GovernanceMessage::Transfer {
                        token: before.contract_config.governance_token,
                        recipient: poll.creator,
                        amount: poll.deposit_amount,
                    },
                ]
            } else {
                Seq::<GovernanceMessage>::empty()
            }
            &&& after.polls@ == before.polls@.update(
                i,
                Poll {
                    status: status_of(result),
                    total_balance_at_end_poll: Some(staked),
                    ..poll
                },
            )
            &&& after.poll_state == (PollState {
                poll_count: before.poll_state.poll_count,
                total_deposit: (before.poll_state.total_deposit
                    - poll.deposit_amount) as u128,
            })
            &&& after.contract_config == before.contract_config
            &&& after.poll_config == before.poll_config
            &&& after.poll_execution_context == before.poll_execution_context
            &&& after.staking_config == before.staking_config
            &&& after.staking_state == before.staking_state
            &&& after.stakers == before.stakers
            &&& after.valkyrie_config == before.valkyrie_config
        },
    }
}

/// Ends a poll whose voting period is over. The poll passes where the votes
/// reach the quorum of the stake and yes exceeds the threshold. The deposit
/// goes back to the creator unless the quorum was missed. On any error
/// nothing changes.
pub fn end_poll(governance: &mut Governance, env: &Env, contract_balance: u128, poll_id: u64) -> (r:
    Result<EndPollResponse, ContractError>)
    requires
        old(governance).wf(),
    ensures
        final(governance).wf(),
        end_poll_result(old(governance), final(governance), r, env, contract_balance, poll_id),
{
    let i = match governance.find_poll(poll_id) {
        None => {
            return Err(ContractError::NotFound(Missing::Poll));
        },
        Some(i) => i,
    };
    match governance.polls[i].status {
        PollStatus::InProgress => {},
        _ => {
            return Err(ContractError::Generic(Violation::PollNotInProgress));
        },
    }
    if governance.polls[i].end_height > env.block.height {
        return Err(ContractError::Generic(Violation::VotingPeriodNotExpired));
    }
    let staked: u128 = match governance.polls[i].snapped_staked_amount {
        Some(v) => v,
        None => match load_available_balance(governance, contract_balance) {
            Err(e) => {
                return Err(e);
            },
            Ok(v) => v,
        },
    };
    let deposit = governance.polls[i].deposit_amount;
    let total_deposit = match governance.poll_state.total_deposit.checked_sub(deposit) {
        None => {
            return Err(ContractError::Overflow);
        },
        Some(v) => v,
    };
    let result = governance.polls[i].get_result(&governance.poll_config, staked);
    let mut messages: Vec<GovernanceMessage> = Vec::new();
    let refund = match result {
        PollResult::QuorumNotReached => false,
        _ => deposit != 0,
    };
    if refund {
        messages.push(
            GovernanceMessage::Transfer {
                token: governance.contract_config.governance_token.clone(),
                recipient: governance.polls[i].creator.clone(),
                amount: deposit,
            },
        );
    }
    governance.polls[i].status = match result {
        PollResult::Passed => PollStatus::Passed,
        PollResult::ThresholdNotReached => PollStatus::Rejected,
        PollResult::QuorumNotReached => PollStatus::QuorumNotReached,
    };
    governance.polls[i].total_balance_at_end_poll = Some(staked);
    governance.poll_state.total_deposit = total_deposit;
    let passed = match result {
        PollResult::Passed => true,
        _ => false,
    };
    assert(final(governance).polls@ =~= old(governance).polls@.update(
        i as int,
        Poll {
            status: status_of(result),
            total_balance_at_end_poll: Some(staked),
            ..old(governance).polls@[i as int]
        },
    ));
    Ok(EndPollResponse { messages, result, passed })
}

/// Why a poll cannot be executed: it does not exist, did not pass or was
/// executed, the execution delay is not over, or it has nothing to execute.
pub open spec fn execute_poll_rejection(governance: &Governance, env: &Env, poll_id: u64) -> Option<
    ContractError,
> {
    match governance.poll(poll_id) {
        None => Some(ContractError::NotFound(Missing::Poll)),
        Some(poll) => if poll.status != PollStatus::Passed {
            Some(ContractError::Generic(Violation::PollNotPassed))
        } else if poll.end_height + governance.poll_config.execution_delay_period
            > env.block.height {
            Some(ContractError::Generic(Violation::ExecutionDelayNotExpired))
        } else if poll.executions@.len() == 0 {
            Some(ContractError::Generic(Violation::NoExecutions))
        } else {
            None
        },
    }
}

/// The call that runs the executions of a poll.
#[derive(Clone, Debug, PartialEq, Eq)]
pub struct ExecutePollResponse {
    pub submessages: Vec<GovernanceMessage>,
}

/// What starting an execution gives: an error that leaves everything as it
/// was, or the execution noted as pending and the call that runs the
/// executions in the order of their keys.
pub open spec fn execute_poll_result(
    before: &Governance,
    after: &Governance,
    r: Result<ExecutePollResponse, ContractError>,
    env: &Env,
    poll_id: u64,
) -> bool {
    match execute_poll_rejection(before, env, poll_id) {
        Some(e) => {
            &&& r == Err::<ExecutePollResponse, ContractError>(e)
            &&& *after == *before
        },
        None => {
            let poll = before.polls@[poll_id - 1];
            &&& r matches Ok(response)
            &&& response.submessages@.len() == 1
            &&& response.submessages@[0] matches GovernanceMessage::RunExecution {
                contract,
                executions,
                reply_id,
            }
            &&& contract == env.contract_address
            &&& reply_id == REPLY_EXECUTION
            &&& execution_views(executions@) == sort_by_order(execution_views(poll.executions@))
            &&& *after == (Governance {
                poll_execution_context: Some(
                    PollExecutionContext {
                        poll_id,
                        execution_count: poll.executions@.len() as u64,
                    },
                ),
                ..*before
            })
        },
    }
}

/// Starts the execution of a passed poll once the execution delay is over:
/// notes the execution as pending and calls the contract itself with the
/// executions in the order of their keys. The poll keeps its status until
/// the result of that call comes back. On any error nothing changes.
pub fn execute_poll(governance: &mut Governance, env: &Env, poll_id: u64) -> (r: Result<
    ExecutePollResponse,
    ContractError,
>)
    requires
        old(governance).wf(),
    ensures
        final(governance).wf(),
        execute_poll_result(old(governance), final(governance), r, env, poll_id),
{
    let i = match governance.find_poll(poll_id) {
        None => {
            return Err(ContractError::NotFound(Missing::Poll));
        },
        Some(i) => i,
    };
    match governance.polls[i].status {
        PollStatus::Passed => {},
        _ => {
            return Err(ContractError::Generic(Violation::PollNotPassed));
        },
    }
    if governance.polls[i].end_height as u128 + governance.poll_config.execution_delay_period as u128
        > env.block.height as u128 {
        return Err(ContractError::Generic(Violation::ExecutionDelayNotExpired));
    }
    if governance.polls[i].executions.len() == 0 {
        return Err(ContractError::Generic(Violation::NoExecutions));
    }
    let executions = sorted_executions(&governance.polls[i].executions);
    let count = governance.polls[i].executions.len() as u64;
    governance.poll_execution_context = Some(
        PollExecutionContext { poll_id: governance.polls[i].id, execution_count: count },
    );
    let mut submessages: Vec<GovernanceMessage> = Vec::new();
    submessages.push(
        GovernanceMessage::RunExecution {
            contract: env.contract_address.clone(),
            executions,
            reply_id: REPLY_EXECUTION,
        },
    );
    Ok(ExecutePollResponse { submessages })
}

/// Whether a message hands the message of an execution to its contract.
pub open spec fn delivers(message: GovernanceMessage, execution: crate::common::ExecutionView) -> bool {
    message matches GovernanceMessage::Execute { contract, msg } && contract@ == execution.contract
        && msg@ == execution.msg
}

/// The messages of the executions, in the order of their keys.
#[derive(Clone, Debug, PartialEq, Eq)]
pub struct RunExecutionResponse {
    pub messages: Vec<GovernanceMessage>,
}

/// What running executions gives: a refusal for anyone but the contract
/// itself, else one message for each execution, in the order of the keys.
pub open spec fn run_execution_result(
    r: Result<RunExecutionResponse, ContractError>,
    env: &Env,
    sender: &String,
    executions: Vec<Execution>,
) -> bool {
    if env.contract_address@ != sender@ {
        r == Err::<RunExecutionResponse, ContractError>(ContractError::Unauthorized)
    } else {
        let sorted = sort_by_order(execution_views(executions@));
        &&& r matches Ok(response)
        &&& response.messages@.len() == executions@.len()
        &&& forall|i: int|
            0 <= i < executions@.len() ==> delivers(#[trigger] response.messages@[i], sorted[i])
    }
}

/// Sends each execution to its contract, in ascending order of the keys;
/// executions with equal keys go in the order given. Only the governance
/// contract itself may call this.
pub fn run_execution(env: &Env, sender: &String, executions: Vec<Execution>) -> (r: Result<
    RunExecutionResponse,
    ContractError,
>)
    ensures
        run_execution_result(r, env, sender, executions),
{
    if env.contract_address != *sender {
        return Err(ContractError::Unauthorized);
    }
    let sorted = sorted_executions(&executions);
    let mut messages: Vec<GovernanceMessage> = Vec::new();
    let mut i: usize = 0;
    while i < sorted.len()
        invariant
            i <= sorted.len(),
            sorted@.len() == executions@.len(),
            execution_views(sorted@) == sort_by_order(execution_views(executions@)),
            messages@.len() == i,
            forall|k: int|
                0 <= k < i ==> delivers(#[trigger] messages@[k], execution_views(sorted@)[k]),
        decreases sorted.len() - i,
    {
        messages.push(
            GovernanceMessage::Execute {
                contract: sorted[i].contract.clone(),
                msg: duplicate_bytes(&sorted[i].msg),
            },
        );
        i += 1;
    }
    Ok(RunExecutionResponse { messages })
}

/// Why the result of an execution cannot be taken: no execution is pending,
/// its poll is gone, or the poll is not a passed one that waits for it.
pub open spec fn reply_execution_rejection(governance: &Governance) -> Option<ContractError> {
    match governance.poll_execution_context {
        None => Some(ContractError::NotFound(Missing::PollExecutionContext)),
        Some(context) => match governance.poll(context.poll_id) {
            None => Some(ContractError::NotFound(Missing::Poll)),
            Some(poll) => if poll.status == PollStatus::Failed || poll.status
                == PollStatus::Executed {
                Some(ContractError::Generic(Violation::AlreadyExecuted))
            } else if poll.status != PollStatus::Passed {
                Some(ContractError::Generic(Violation::PollNotPassed))
            } else {
                None
            },
        },
    }
}

/// What the result of an execution gives: an error that leaves everything
/// as it was, or the poll executed or failed and nothing pending.
pub open spec fn reply_execution_result(
    before: &Governance,
    after: &Governance,
    r: Result<PollStatus, ContractError>,
    succeeded: bool,
) -> bool {
    match reply_execution_rejection(before) {
        Some(e) => r == Err::<PollStatus, ContractError>(e) && *after == *before,
        None => {
            let i = before.poll_execution_context.unwrap().poll_id - 1;
            let status = if succeeded {
                PollStatus::Executed
            } else {
                PollStatus::Failed
            };
            &&& r == Ok::<PollStatus, ContractError>(status)
            &&& after.poll_execution_context.is_none()
            &&& after.polls@ == before.polls@.update(
                i,
                Poll { status, ..before.polls@[i] },
            )
            &&& after.contract_config == before.contract_config
            &&& after.poll_config == before.poll_config
            &&& after.poll_state == before.poll_state
            &&& after.staking_config == before.staking_config
            &&& after.staking_state == before.staking_state
            &&& after.stakers == before.stakers
            &&& after.valkyrie_config == before.valkyrie_config
        },
    }
}

/// Takes the result of the pending execution: the poll becomes executed
/// where the call succeeded and failed where it did not, and nothing is
/// pending any more. Returns the new status. On any error nothing changes.
pub fn reply_execution(governance: &mut Governance, succeeded: bool) -> (r: Result<
    PollStatus,
    ContractError,
>)
    requires
        old(governance).wf(),
    ensures
        final(governance).wf(),
        reply_execution_result(old(governance), final(governance), r, succeeded),
{
    let context = match governance.poll_execution_context {
        None => {
            return Err(ContractError::NotFound(Missing::PollExecutionContext));
        },
        Some(c) => c,
    };
    let i = match governance.find_poll(context.poll_id) {
        None => {
            return Err(ContractError::NotFound(Missing::Poll));
        },
        Some(i) => i,
    };
    match governance.polls[i].status {
        PollStatus::Failed => {
            return Err(ContractError::Generic(Violation::AlreadyExecuted));
        },
        PollStatus::Executed => {
            return Err(ContractError::Generic(Violation::AlreadyExecuted));
        },
        PollStatus::Passed => {},
        _ => {
            return Err(ContractError::Generic(Violation::PollNotPassed));
        },
    }
    let status = if succeeded {
        PollStatus::Executed
    } else {
        PollStatus::Failed
    };
    governance.polls[i].status = status;
    governance.poll_execution_context = None;
    assert(final(governance).polls@ =~= old(governance).polls@.update(
        i as int,
        Poll { status, ..old(governance).polls@[i as int] },
    ));
    Ok(status)
}

/// Why the stake of a poll cannot be snapshotted: the poll does not exist
/// or has ended, the contract holds less than the deposits, a snapshot was
/// taken, or the end of the poll is too far away.
pub open spec fn snapshot_poll_rejection(
    governance: &Governance,
    env: &Env,
    contract_balance: u128,
    poll_id: u64,
) -> Option<ContractError> {
    match governance.poll(poll_id) {
        None => Some(ContractError::NotFound(Missing::Poll)),
        Some(poll) => if poll.status != PollStatus::InProgress {
            Some(ContractError::Generic(Violation::PollNotInProgress))
        } else if governance.staked(contract_balance) < 0 {
            Some(ContractError::Overflow)
        } else {
            poll.snapshot_rejection(&governance.poll_config, env.block.height)
        },
    }
}

/// What a snapshot gives: an error that leaves everything as it was, or
/// the stake noted with the poll.
pub open spec fn snapshot_poll_result(
    before: &Governance,
    after: &Governance,
    r: Result<u128, ContractError>,
    env: &Env,
    contract_balance: u128,
    poll_id: u64,
) -> bool {
    match snapshot_poll_rejection(before, env, contract_balance, poll_id) {
        Some(e) => r == Err::<u128, ContractError>(e) && *after == *before,
        None => {
            let i = poll_id - 1;
            let staked = before.staked(contract_balance) as u128;
            &&& r == Ok::<u128, ContractError>(staked)
            &&& after.polls@ == before.polls@.update(
                i,
                Poll { snapped_staked_amount: Some(staked), ..before.polls@[i] },
            )
            &&& after.contract_config == before.contract_config
            &&& after.poll_config == before.poll_config
            &&& after.poll_state == before.poll_state
            &&& after.poll_execution_context == before.poll_execution_context
            &&& after.staking_config == before.staking_config
            &&& after.staking_state == before.staking_state
            &&& after.stakers == before.stakers
            &&& after.valkyrie_config == before.valkyrie_config
        },
    }
}

/// Snapshots what the stakers hold as the stake that the poll will be
/// measured against, and returns it. On any error nothing changes.
pub fn snapshot_poll(governance: &mut Governance, env: &Env, contract_balance: u128, poll_id: u64) -> (r:
    Result<u128, ContractError>)
    requires
        old(governance).wf(),
    ensures
        final(governance).wf(),
        snapshot_poll_result(old(governance), final(governance), r, env, contract_balance, poll_id),
{
    let i = match governance.find_poll(poll_id) {
        None => {
            return Err(ContractError::NotFound(Missing::Poll));
        },
        Some(i) => i,
    };
    match governance.polls[i].status {
        PollStatus::InProgress => {},
        _ => {
            return Err(ContractError::Generic(Violation::PollNotInProgress));
        },
    }
    let available = match load_available_balance(governance, contract_balance) {
        Err(e) => {
            return Err(e);
        },
        Ok(v) => v,
    };
    let config = governance.poll_config;
    match governance.polls[i].check_snapshot(&config, env.block.height) {
        Err(e) => {
            return Err(e);
        },
        Ok(_) => {},
    }
    let r = governance.polls[i].snapshot_staked_amount(&config, env.block.height, available);
    assert(final(governance).polls@ =~= old(governance).polls@.update(
        i as int,
        Poll { snapped_staked_amount: Some(available), ..old(governance).polls@[i as int] },
    ));
    r
}

} // verus!
