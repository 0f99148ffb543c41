use valkyrie::common::{BlockInfo, ContractError, Env, Execution, Missing, Violation};
use valkyrie::governance::entrypoints::{
    execute, receive_cw20, Cw20HookMsg, ExecuteMsg, ExecuteResponse, ReceiveResponse,
};
use valkyrie::governance::poll::executions::{
    cast_vote, create_poll, end_poll, execute_poll, instantiate, load_available_balance,
    snapshot_poll, update_poll_config, validate_description, validate_link, validate_quorum,
    validate_threshold, validate_title, CreatePollResponse, GovernanceMessage, PollConfigInitMsg,
    RunExecutionResponse, UpdatePollConfigResponse,
};
use valkyrie::governance::poll::states::{
    exceeds_threshold, reaches_quorum, Poll, PollConfig, PollResult, PollState, PollStatus,
    VoteInfo, VoteOption,
};
use valkyrie::governance::staking::executions::{
    stake_voting_token, StakeResponse, WithdrawResponse,
};
use valkyrie::governance::staking::states::{StakingConfig, StakingState};
use valkyrie::governance::states::{ContractConfig, Governance, ValkyrieConfig};
use valkyrie::governance::valkyrie::queries::get_valkyrie_config;
use valkyrie::math::Decimal;
use valkyrie::store::AddressMap;

const GOVERNANCE: &str = "Governance";
const TOKEN: &str = "GovernanceToken";
const DEPOSIT: u128 = 100;
const VOTING_PERIOD: u64 = 1000;
const DELAY: u64 = 50;
const SNAPSHOT_PERIOD: u64 = 10;
const START: u64 = 10_000;

fn env_at(height: u64) -> Env {
    Env {
        block: BlockInfo { height, time: 0, chain_id: "columbus-5".to_string() },
        contract_address: GOVERNANCE.to_string(),
    }
}

fn governance(quorum: Decimal, threshold: Decimal) -> Governance {
    let (poll_config, poll_state) = instantiate(PollConfigInitMsg {
        quorum,
        threshold,
        voting_period: VOTING_PERIOD,
        execution_delay_period: DELAY,
        proposal_deposit: DEPOSIT,
        snapshot_period: SNAPSHOT_PERIOD,
    })
    .unwrap();
    Governance {
        contract_config: ContractConfig { governance_token: TOKEN.to_string() },
        poll_config,
        poll_state,
        polls: vec![],
        poll_execution_context: None,
        staking_config: StakingConfig { withdraw_delay: 100 },
        staking_state: StakingState { total_share: 0 },
        stakers: AddressMap::new(),
        valkyrie_config: ValkyrieConfig {
            burn_contract: "Burn".to_string(),
            reward_withdraw_burn_rate: Decimal::percent(10),
            campaign_deactivate_period: 1000,
        },
    }
}

fn default_governance() -> Governance {
    governance(Decimal::percent(10), Decimal::percent(50))
}

fn propose(governance: &mut Governance, executions: Vec<Execution>) -> u64 {
    create_poll(
        governance,
        &env_at(START),
        &TOKEN.to_string(),
        "Proposer".to_string(),
        DEPOSIT,
        "A title".to_string(),
        "A description".to_string(),
        None,
        executions,
    )
    .unwrap()
    .poll_id
}

fn proposal(
    governance: &mut Governance,
    sender: &str,
    deposit: u128,
    title: &str,
    description: &str,
    link: Option<&str>,
) -> Result<CreatePollResponse, ContractError> {
    create_poll(
        governance,
        &env_at(START),
        &sender.to_string(),
        "Proposer".to_string(),
        deposit,
        title.to_string(),
        description.to_string(),
        link.map(str::to_string),
        vec![],
    )
}

/// Stakes `amount` for `voter` on top of what the contract holds.
fn stake(governance: &mut Governance, held: &mut u128, voter: &str, amount: u128) {
    *held += amount;
    stake_voting_token(governance, *held, voter.to_string(), amount).unwrap();
}

fn vote(
    governance: &mut Governance,
    held: u128,
    height: u64,
    voter: &str,
    poll_id: u64,
    option: VoteOption,
    amount: u128,
) -> Result<(), ContractError> {
    cast_vote(governance, &env_at(height), &voter.to_string(), held, poll_id, option, amount)
}

fn generic(violation: Violation) -> ContractError {
    ContractError::Generic(violation)
}

#[test]
fn first_configuration_is_validated() {
    let msg = |quorum: Decimal, threshold: Decimal| PollConfigInitMsg {
        quorum,
        threshold,
        voting_period: 1,
        execution_delay_period: 2,
        proposal_deposit: 3,
        snapshot_period: 4,
    };
    assert_eq!(
        instantiate(msg(Decimal::percent(101), Decimal::one())),
        Err(generic(Violation::InvalidQuorum))
    );
    assert_eq!(
        instantiate(msg(Decimal::one(), Decimal { atomics: Decimal::one().atomics + 1 })),
        Err(generic(Violation::InvalidThreshold))
    );
    let (config, state) = instantiate(msg(Decimal::one(), Decimal::zero())).unwrap();
    assert_eq!(state, PollState { poll_count: 0, total_deposit: 0 });
    assert_eq!(config.quorum, Decimal::one());
    assert_eq!(config.snapshot_period, 4);
    assert_eq!(Violation::InvalidQuorum.message(), "quorum must be 0 to 1");
    assert_eq!(Violation::InvalidThreshold.message(), "threshold must be 0 to 1");
    assert_eq!(validate_quorum(Decimal::percent(100)), Ok(()));
    assert_eq!(validate_threshold(Decimal::percent(100)), Ok(()));
}

#[test]
fn texts_have_bounds() {
    let of = |n: usize| "x".repeat(n);
    assert_eq!(validate_title(&of(3)), Err(generic(Violation::TitleTooShort)));
    assert_eq!(validate_title(&of(4)), Ok(()));
    assert_eq!(validate_title(&of(64)), Ok(()));
    assert_eq!(validate_title(&of(65)), Err(generic(Violation::TitleTooLong)));
    assert_eq!(validate_description(&of(3)), Err(generic(Violation::DescriptionTooShort)));
    assert_eq!(validate_description(&of(4)), Ok(()));
    assert_eq!(validate_description(&of(1024)), Ok(()));
    assert_eq!(validate_description(&of(1025)), Err(generic(Violation::DescriptionTooLong)));
    assert_eq!(validate_link(&None), Ok(()));
    assert_eq!(validate_link(&Some(of(11))), Err(generic(Violation::LinkTooShort)));
    assert_eq!(validate_link(&Some(of(12))), Ok(()));
    assert_eq!(validate_link(&Some(of(128))), Ok(()));
    assert_eq!(validate_link(&Some(of(129))), Err(generic(Violation::LinkTooLong)));
    // lengths are counted in characters
    assert_eq!(validate_title("äöü"), Err(generic(Violation::TitleTooShort)));
    assert_eq!(validate_title("äöüß"), Ok(()));
    assert_eq!(validate_title(&"ä".repeat(64)), Ok(()));
    assert_eq!(validate_title(&"ä".repeat(65)), Err(generic(Violation::TitleTooLong)));
    assert_eq!(Violation::TitleTooShort.message(), "Title too short");
    assert_eq!(Violation::TitleTooLong.message(), "Title too long");
    assert_eq!(Violation::DescriptionTooShort.message(), "Description too short");
    assert_eq!(Violation::DescriptionTooLong.message(), "Description too long");
    assert_eq!(Violation::LinkTooShort.message(), "Link too short");
    assert_eq!(Violation::LinkTooLong.message(), "Link too long");
}

#[test]
fn proposals_are_checked_in_order() {
    let mut governance = default_governance();
    let before = governance.clone();
    let link = Some("https://poll.link");
    assert_eq!(
        proposal(&mut governance, "Stranger", 0, "abc", "abc", Some("x")),
        Err(generic(Violation::TitleTooShort))
    );
    assert_eq!(
        proposal(&mut governance, "Stranger", 0, "abcd", "abc", Some("x")),
        Err(generic(Violation::DescriptionTooShort))
    );
    assert_eq!(
        proposal(&mut governance, "Stranger", 0, "abcd", "abcd", Some("x")),
        Err(generic(Violation::LinkTooShort))
    );
    assert_eq!(
        proposal(&mut governance, "Stranger", 0, "abcd", "abcd", link),
        Err(ContractError::Unauthorized)
    );
    assert_eq!(
        proposal(&mut governance, TOKEN, DEPOSIT - 1, "abcd", "abcd", link),
        Err(generic(Violation::DepositTooSmall(DEPOSIT)))
    );
    assert_eq!(
        Violation::DepositTooSmall(DEPOSIT).message(),
        "Must deposit more than 100 token"
    );
    assert_eq!(governance, before);
    assert!(governance.polls.is_empty());

    let created = proposal(&mut governance, TOKEN, DEPOSIT + 5, "abcd", "abcd", link).unwrap();
    assert_eq!(created, CreatePollResponse { poll_id: 1, end_height: START + VOTING_PERIOD });
    assert_eq!(governance.poll_state, PollState { poll_count: 1, total_deposit: DEPOSIT + 5 });
    assert_eq!(
        governance.polls,
        vec![Poll {
            id: 1,
            creator: "Proposer".to_string(),
            status: PollStatus::InProgress,
            yes_votes: 0,
            no_votes: 0,
            abstain_votes: 0,
            end_height: START + VOTING_PERIOD,
            title: "abcd".to_string(),
            description: "abcd".to_string(),
            link: link.map(str::to_string),
            executions: vec![],
            deposit_amount: DEPOSIT + 5,
            total_balance_at_end_poll: None,
            snapped_staked_amount: None,
            voters: vec![],
        }]
    );
    assert_eq!(proposal(&mut governance, TOKEN, DEPOSIT, "abcd", "abcd", None).unwrap().poll_id, 2);
}

#[test]
fn tokens_reach_governance_through_the_token_contract_only() {
    let mut governance = default_governance();
    let result = receive_cw20(
        &mut governance,
        &env_at(START),
        &"Stranger".to_string(),
        100,
        "Staker".to_string(),
        100,
        Cw20HookMsg::StakeVotingToken {},
    );
    assert_eq!(result, Err(ContractError::Unauthorized));
    assert_eq!(governance.staking_state.total_share, 0);
}

#[test]
fn votes_are_checked_and_counted() {
    let mut governance = default_governance();
    let id = propose(&mut governance, vec![]);
    let mut held = DEPOSIT;
    stake(&mut governance, &mut held, "Voter", 100);

    assert_eq!(
        vote(&mut governance, held, START, "Voter", 0, VoteOption::Yes, 1),
        Err(generic(Violation::PollDoesNotExist))
    );
    assert_eq!(
        vote(&mut governance, held, START, "Voter", 2, VoteOption::Yes, 1),
        Err(generic(Violation::PollDoesNotExist))
    );
    assert_eq!(
        vote(&mut governance, held, START + VOTING_PERIOD + 1, "Voter", id, VoteOption::Yes, 1),
        Err(generic(Violation::PollNotInProgress))
    );
    assert_eq!(
        vote(&mut governance, held, START, "Voter", id, VoteOption::Yes, 101),
        Err(generic(Violation::InsufficientStake))
    );
    assert_eq!(
        vote(&mut governance, held, START, "Stranger", id, VoteOption::Yes, 1),
        Err(generic(Violation::InsufficientStake))
    );
    assert_eq!(
        vote(&mut governance, DEPOSIT - 1, START, "Voter", id, VoteOption::Yes, 1),
        Err(ContractError::Overflow)
    );
    assert_eq!(governance.polls[0].voters, vec![]);

    vote(&mut governance, held, START + VOTING_PERIOD, "Voter", id, VoteOption::No, 60).unwrap();
    let poll = &governance.polls[0];
    assert_eq!((poll.yes_votes, poll.no_votes, poll.abstain_votes), (0, 60, 0));
    assert_eq!(
        poll.voters,
        vec![VoteInfo { voter: "Voter".to_string(), option: VoteOption::No, amount: 60 }]
    );
    assert!(poll.is_voted(&"Voter".to_string()));
    let staker = governance.stakers.get(&"Voter".to_string()).unwrap();
    assert_eq!(staker.votes, vec![(id, poll.voters[0].clone())]);

    assert_eq!(
        vote(&mut governance, held, START, "Voter", id, VoteOption::Yes, 1),
        Err(generic(Violation::AlreadyVoted))
    );
    assert_eq!(Violation::AlreadyVoted.message(), "User has already voted.");
    assert_eq!(Violation::PollDoesNotExist.message(), "Poll does not exist");
    assert_eq!(Violation::PollNotInProgress.message(), "Poll is not in progress");
    assert_eq!(
        Violation::InsufficientStake.message(),
        "User does not have enough staked tokens."
    );
}

#[test]
fn stake_committed_to_one_poll_is_not_free_for_another() {
    let mut governance = default_governance();
    let first = propose(&mut governance, vec![]);
    let second = propose(&mut governance, vec![]);
    let mut held = 2 * DEPOSIT;
    stake(&mut governance, &mut held, "Voter", 100);

    vote(&mut governance, held, START, "Voter", first, VoteOption::Yes, 70).unwrap();
    assert_eq!(
        vote(&mut governance, held, START, "Voter", second, VoteOption::Yes, 31),
        Err(generic(Violation::InsufficientStake))
    );
    vote(&mut governance, held, START, "Voter", second, VoteOption::Abstain, 30).unwrap();
    assert_eq!(governance.polls[1].abstain_votes, 30);
}

#[test]
fn vote_snapshots_the_stake_near_the_end() {
    let mut governance = default_governance();
    let id = propose(&mut governance, vec![]);
    let mut held = DEPOSIT;
    stake(&mut governance, &mut held, "Early", 100);
    stake(&mut governance, &mut held, "Late", 50);
    let end = START + VOTING_PERIOD;

    vote(&mut governance, held, end - SNAPSHOT_PERIOD - 1, "Early", id, VoteOption::Yes, 1).unwrap();
    assert_eq!(governance.polls[0].snapped_staked_amount, None);
    assert_eq!(
        snapshot_poll(&mut governance, &env_at(end - SNAPSHOT_PERIOD - 1), held, id),
        Err(generic(Violation::SnapshotTooEarly))
    );

    vote(&mut governance, held, end - SNAPSHOT_PERIOD, "Late", id, VoteOption::Yes, 1).unwrap();
    assert_eq!(governance.polls[0].snapped_staked_amount, Some(150));
    assert_eq!(
        snapshot_poll(&mut governance, &env_at(end), held + 1000, id),
        Err(generic(Violation::SnapshotAlreadyOccurred))
    );
    assert_eq!(governance.polls[0].snapped_staked_amount, Some(150));
    assert_eq!(Violation::SnapshotTooEarly.message(), "Cannot snapshot at this height");
    assert_eq!(Violation::SnapshotAlreadyOccurred.message(), "Snapshot has already occurred");
}

#[test]
fn snapshot_on_request() {
    let mut governance = default_governance();
    let id = propose(&mut governance, vec![]);
    let held = DEPOSIT + 40;
    assert_eq!(
        snapshot_poll(&mut governance, &env_at(START), held, 2),
        Err(ContractError::NotFound(Missing::Poll))
    );
    assert_eq!(
        snapshot_poll(&mut governance, &env_at(START + VOTING_PERIOD), DEPOSIT - 1, id),
        Err(ContractError::Overflow)
    );
    assert_eq!(snapshot_poll(&mut governance, &env_at(START + VOTING_PERIOD), held, id), Ok(40));
    assert_eq!(governance.polls[0].snapped_staked_amount, Some(40));
    assert_eq!(load_available_balance(&governance, held), Ok(40));

    end_poll(&mut governance, &env_at(START + VOTING_PERIOD), held, id).unwrap();
    assert_eq!(
        snapshot_poll(&mut governance, &env_at(START + VOTING_PERIOD), held, id),
        Err(generic(Violation::PollNotInProgress))
    );
}

/// Ends a poll with the given tallies against a stake of `staked`.
fn outcome(quorum: Decimal, threshold: Decimal, yes: u128, no: u128, abstain: u128, staked: u128) -> (PollResult, PollStatus, Vec<GovernanceMessage>, Governance) {
    let mut governance = governance(quorum, threshold);
    let id = propose(&mut governance, vec![]);
    governance.polls[0].yes_votes = yes;
    governance.polls[0].no_votes = no;
    governance.polls[0].abstain_votes = abstain;
    let response =
        end_poll(&mut governance, &env_at(START + VOTING_PERIOD), DEPOSIT + staked, id).unwrap();
    assert_eq!(response.passed, response.result == PollResult::Passed);
    assert_eq!(governance.polls[0].total_balance_at_end_poll, Some(staked));
    assert_eq!(governance.poll_state.total_deposit, 0);
    (response.result, governance.polls[0].status, response.messages, governance)
}

fn refund() -> Vec<GovernanceMessage> {
    vec![GovernanceMessage::Transfer {
        token: TOKEN.to_string(),
        recipient: "Proposer".to_string(),
        amount: DEPOSIT,
    }]
}

#[test]
fn quorum_is_met_at_its_boundary() {
    let quorum = Decimal::percent(10);
    let threshold = Decimal::percent(50);
    // 99 of 1000 miss the quorum of 10%: the deposit is forfeited
    let (result, status, messages, _) = outcome(quorum, threshold, 99, 0, 0, 1000);
    assert_eq!(result, PollResult::QuorumNotReached);
    assert_eq!(status, PollStatus::QuorumNotReached);
    assert_eq!(messages, vec![]);
    // exactly 100 of 1000 meet it
    let (result, status, messages, _) = outcome(quorum, threshold, 100, 0, 0, 1000);
    assert_eq!(result, PollResult::Passed);
    assert_eq!(status, PollStatus::Passed);
    assert_eq!(messages, refund());
    // abstentions count towards the quorum
    let (result, _, _, _) = outcome(quorum, threshold, 51, 0, 49, 1000);
    assert_eq!(result, PollResult::Passed);
    assert!(reaches_quorum(100, 1000, quorum));
    assert!(!reaches_quorum(99, 1000, quorum));
    assert!(reaches_quorum(0, 0, quorum));
    assert!(reaches_quorum(u128::MAX, 1, Decimal::one()));
}

#[test]
fn threshold_must_be_exceeded() {
    let quorum = Decimal::percent(10);
    let threshold = Decimal::percent(50);
    // exactly the quorum of votes and exactly the threshold of yes
    let (result, status, messages, _) = outcome(quorum, threshold, 50, 50, 0, 1000);
    assert_eq!(result, PollResult::ThresholdNotReached);
    assert_eq!(status, PollStatus::Rejected);
    assert_eq!(messages, refund());
    let (result, _, _, _) = outcome(quorum, threshold, 51, 49, 0, 1000);
    assert_eq!(result, PollResult::Passed);
    // abstentions do not count towards the threshold
    let (result, _, _, _) = outcome(quorum, threshold, 10, 10, 80, 1000);
    assert_eq!(result, PollResult::ThresholdNotReached);
    let (result, _, _, _) = outcome(quorum, threshold, 11, 10, 79, 1000);
    assert_eq!(result, PollResult::Passed);
    // abstentions alone pass nothing
    let (result, status, _, _) = outcome(quorum, threshold, 0, 0, 100, 1000);
    assert_eq!(result, PollResult::ThresholdNotReached);
    assert_eq!(status, PollStatus::Rejected);
    assert!(!exceeds_threshold(1, 1, threshold));
    assert!(exceeds_threshold(2, 1, threshold));
    assert!(!exceeds_threshold(0, 0, Decimal::zero()));
    assert!(exceeds_threshold(1, 0, Decimal::zero()));
    assert!(!exceeds_threshold(u128::MAX, 0, Decimal::one()));
}

#[test]
fn polls_end_once_and_not_early() {
    let mut governance = default_governance();
    let id = propose(&mut governance, vec![]);
    let held = DEPOSIT;
    let before = governance.poll_state;
    assert_eq!(
        end_poll(&mut governance, &env_at(START), held, 7),
        Err(ContractError::NotFound(Missing::Poll))
    );
    assert_eq!(
        end_poll(&mut governance, &env_at(START + VOTING_PERIOD - 1), held, id),
        Err(generic(Violation::VotingPeriodNotExpired))
    );
    assert_eq!(
        end_poll(&mut governance, &env_at(START + VOTING_PERIOD), held - 1, id),
        Err(ContractError::Overflow)
    );
    assert_eq!(governance.poll_state, before);
    assert_eq!(governance.polls[0].status, PollStatus::InProgress);

    // without votes and without stake the quorum is met and the threshold is not
    let response = end_poll(&mut governance, &env_at(START + VOTING_PERIOD), held, id).unwrap();
    assert_eq!(response.result, PollResult::ThresholdNotReached);
    assert_eq!(governance.polls[0].total_balance_at_end_poll, Some(0));
    assert_eq!(
        end_poll(&mut governance, &env_at(START + VOTING_PERIOD), held, id),
        Err(generic(Violation::PollNotInProgress))
    );
    assert_eq!(Violation::VotingPeriodNotExpired.message(), "Voting period has not expired");
}

#[test]
fn end_measures_against_the_snapshot() {
    let mut governance = default_governance();
    let id = propose(&mut governance, vec![]);
    let mut held = DEPOSIT;
    stake(&mut governance, &mut held, "Voter", 100);
    let end = START + VOTING_PERIOD;
    vote(&mut governance, held, end, "Voter", id, VoteOption::Yes, 100).unwrap();
    assert_eq!(governance.polls[0].snapped_staked_amount, Some(100));
    // the stake grows tenfold after the snapshot
    let response = end_poll(&mut governance, &env_at(end), held + 100_000, id).unwrap();
    assert_eq!(response.result, PollResult::Passed);
    assert_eq!(governance.polls[0].total_balance_at_end_poll, Some(100));
}

#[test]
fn execution_waits_for_pass_and_delay() {
    let mut governance = default_governance();
    let id = propose(&mut governance, vec![]);
    let end = START + VOTING_PERIOD;
    assert_eq!(
        execute_poll(&mut governance, &env_at(end + DELAY), 3),
        Err(ContractError::NotFound(Missing::Poll))
    );
    assert_eq!(
        execute_poll(&mut governance, &env_at(end + DELAY), id),
        Err(generic(Violation::PollNotPassed))
    );
    governance.polls[0].status = PollStatus::Passed;
    assert_eq!(
        execute_poll(&mut governance, &env_at(end + DELAY - 1), id),
        Err(generic(Violation::ExecutionDelayNotExpired))
    );
    assert_eq!(
        execute_poll(&mut governance, &env_at(end + DELAY), id),
        Err(generic(Violation::NoExecutions))
    );
    assert_eq!(governance.poll_execution_context, None);
    assert_eq!(Violation::PollNotPassed.message(), "Poll is not in passed status");
    assert_eq!(
        Violation::ExecutionDelayNotExpired.message(),
        "Execution delay period has not expired"
    );
    assert_eq!(Violation::NoExecutions.message(), "The poll does not have executions");
    assert_eq!(Violation::AlreadyExecuted.message(), "Already executed");
}

#[test]
fn poll_configuration_changes_come_from_governance_itself() {
    let mut governance = default_governance();
    let before = governance.poll_config;
    let update = |governance: &mut Governance, sender: &str, quorum, threshold, period| {
        update_poll_config(
            governance,
            &env_at(START),
            &sender.to_string(),
            quorum,
            threshold,
            period,
            None,
            None,
            None,
        )
    };
    assert_eq!(
        update(&mut governance, "Stranger", None, None, Some(1)),
        Err(ContractError::Unauthorized)
    );
    assert_eq!(
        update(&mut governance, GOVERNANCE, Some(Decimal::percent(20)), Some(Decimal::percent(101)), Some(1)),
        Err(generic(Violation::InvalidThreshold))
    );
    assert_eq!(
        update(&mut governance, GOVERNANCE, Some(Decimal::percent(101)), None, None),
        Err(generic(Violation::InvalidQuorum))
    );
    assert_eq!(governance.poll_config, before);

    let response = update(&mut governance, GOVERNANCE, Some(Decimal::percent(20)), None, Some(5));
    assert_eq!(
        response,
        Ok(UpdatePollConfigResponse {
            is_updated_quorum: true,
            is_updated_threshold: false,
            is_updated_voting_period: true,
            is_updated_execution_delay_period: false,
            is_updated_proposal_deposit: false,
            is_updated_snapshot_period: false,
        })
    );
    assert_eq!(
        governance.poll_config,
        PollConfig { quorum: Decimal::percent(20), voting_period: 5, ..before }
    );
}

#[test]
fn valkyrie_configuration_is_shown() {
    let governance = default_governance();
    let shown = get_valkyrie_config(&governance);
    assert_eq!(shown.burn_contract, "Burn");
    assert_eq!(shown.reward_withdraw_burn_rate, Decimal::percent(10));
    assert_eq!(shown.campaign_deactivate_period, 1000);
}

#[test]
fn calls_reach_their_handlers() {
    let mut governance = default_governance();
    let token = TOKEN.to_string();
    let voter = "Voter".to_string();
    let created = execute(
        &mut governance,
        &env_at(START),
        &token,
        DEPOSIT,
        ExecuteMsg::Receive {
            sender: "Proposer".to_string(),
            amount: DEPOSIT,
            msg: Cw20HookMsg::CreatePoll {
                title: "A title".to_string(),
                description: "A description".to_string(),
                link: None,
                execution: vec![],
            },
        },
    );
    assert_eq!(
        created,
        Ok(ExecuteResponse::Received(ReceiveResponse::PollCreated(CreatePollResponse {
            poll_id: 1,
            end_height: START + VOTING_PERIOD,
        })))
    );
    let staked = execute(
        &mut governance,
        &env_at(START),
        &token,
        DEPOSIT + 10,
        ExecuteMsg::Receive {
            sender: voter.clone(),
            amount: 10,
            msg: Cw20HookMsg::StakeVotingToken {},
        },
    );
    assert_eq!(
        staked,
        Ok(ExecuteResponse::Received(ReceiveResponse::Staked(StakeResponse {
            share: 10,
            amount: 10,
        })))
    );
    let held = DEPOSIT + 10;
    let call = |governance: &mut Governance, height: u64, sender: &String, msg: ExecuteMsg| {
        execute(governance, &env_at(height), sender, held, msg)
    };
    assert_eq!(
        call(
            &mut governance,
            START,
            &voter,
            ExecuteMsg::CastVote { poll_id: 1, vote: VoteOption::Yes, amount: 10 }
        ),
        Ok(ExecuteResponse::VoteCast)
    );
    assert_eq!(
        call(&mut governance, START, &voter, ExecuteMsg::SnapshotPoll { poll_id: 1 }),
        Err(generic(Violation::SnapshotTooEarly))
    );
    assert_eq!(
        call(&mut governance, START, &voter, ExecuteMsg::EndPoll { poll_id: 1 }),
        Err(generic(Violation::VotingPeriodNotExpired))
    );
    assert_eq!(
        call(&mut governance, START, &voter, ExecuteMsg::ExecutePoll { poll_id: 1 }),
        Err(generic(Violation::PollNotPassed))
    );
    assert_eq!(
        call(&mut governance, START, &voter, ExecuteMsg::UnstakeVotingToken { amount: Some(1) }),
        Err(generic(Violation::UnstakeTooMany))
    );
    assert_eq!(
        call(&mut governance, START, &voter, ExecuteMsg::WithdrawVotingToken {}),
        Ok(ExecuteResponse::Withdrawn(WithdrawResponse {
            messages: vec![GovernanceMessage::Transfer {
                token: token.clone(),
                recipient: voter.clone(),
                amount: 0,
            }],
            amount: 0,
        }))
    );
    assert_eq!(
        call(
            &mut governance,
            START,
            &voter,
            ExecuteMsg::UpdateStakingConfig { withdraw_delay: Some(1) }
        ),
        Err(ContractError::Unauthorized)
    );
    assert_eq!(
        call(
            &mut governance,
            START,
            &GOVERNANCE.to_string(),
            ExecuteMsg::UpdateStakingConfig { withdraw_delay: Some(1) }
        ),
        Ok(ExecuteResponse::StakingConfigUpdated)
    );
    assert_eq!(governance.staking_config.withdraw_delay, 1);
    assert_eq!(
        call(
            &mut governance,
            START,
            &voter,
            ExecuteMsg::UpdatePollConfig {
                quorum: None,
                threshold: None,
                voting_period: None,
                execution_delay_period: None,
                proposal_deposit: None,
                snapshot_period: None,
            }
        ),
        Err(ContractError::Unauthorized)
    );
    assert_eq!(
        call(&mut governance, START, &voter, ExecuteMsg::RunExecution { executions: vec![] }),
        Err(ContractError::Unauthorized)
    );
    assert_eq!(
        call(
            &mut governance,
            START,
            &GOVERNANCE.to_string(),
            ExecuteMsg::RunExecution { executions: vec![] }
        ),
        Ok(ExecuteResponse::ExecutionsRun(RunExecutionResponse { messages: vec![] }))
    );
    match call(&mut governance, START + VOTING_PERIOD, &voter, ExecuteMsg::EndPoll { poll_id: 1 }) {
        Ok(ExecuteResponse::PollEnded(ended)) => assert_eq!(ended.result, PollResult::Passed),
        other => panic!("expected the end of the poll, got {:?}", other),
    }
}
