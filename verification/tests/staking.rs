use valkyrie::common::{BlockInfo, ContractError, Env, Missing, Violation};
use valkyrie::governance::poll::executions::{
    cast_vote, create_poll, end_poll, GovernanceMessage,
};
use valkyrie::governance::poll::states::{PollConfig, PollState, PollStatus, VoteOption};
use valkyrie::governance::staking::executions::{
    instantiate, stake_voting_token, unstake_voting_token, update_config,
    withdraw_voting_token, StakeResponse, StakingConfigInitMsg, UnstakeResponse,
};
use valkyrie::governance::staking::states::{StakerState, StakingConfig};
use valkyrie::governance::states::{ContractConfig, Governance, ValkyrieConfig};
use valkyrie::math::Decimal;
use valkyrie::store::AddressMap;

const GOVERNANCE: &str = "Governance";
const GOVERNANCE_TOKEN: &str = "GovernanceToken";
const STAKER1: &str = "Staker1";
const STAKER1_STAKE_AMOUNT: u128 = 100;
const STAKER2: &str = "Staker2";
const STAKER2_STAKE_AMOUNT: u128 = 50;
const WITHDRAW_DELAY: u64 = 100;
const HEIGHT: u64 = 12345;

fn governance_env(height: u64) -> Env {
    Env {
        block: BlockInfo { height, time: 1_571_797_419_879_305_533, chain_id: "columbus-5".to_string() },
        contract_address: GOVERNANCE.to_string(),
    }
}

fn init_default() -> Governance {
    let (staking_config, staking_state) =
        instantiate(StakingConfigInitMsg { withdraw_delay: WITHDRAW_DELAY });
    Governance {
        contract_config: ContractConfig { governance_token: GOVERNANCE_TOKEN.to_string() },
        poll_config: PollConfig {
            quorum: Decimal::percent(10),
            threshold: Decimal::percent(50),
            voting_period: 1000,
            execution_delay_period: 100,
            proposal_deposit: 10,
            snapshot_period: 10,
        },
        poll_state: PollState { poll_count: 0, total_deposit: 0 },
        polls: vec![],
        poll_execution_context: None,
        staking_config,
        staking_state,
        stakers: AddressMap::new(),
        valkyrie_config: ValkyrieConfig {
            burn_contract: "Burn".to_string(),
            reward_withdraw_burn_rate: Decimal::percent(10),
            campaign_deactivate_period: 1000,
        },
    }
}

fn staker(governance: &Governance, address: &str) -> StakerState {
    governance.stakers.get(&address.to_string()).unwrap().clone()
}

fn open_poll(governance: &mut Governance, height: u64) -> u64 {
    create_poll(
        governance,
        &governance_env(height),
        &GOVERNANCE_TOKEN.to_string(),
        "Proposer".to_string(),
        10,
        "PollTitle".to_string(),
        "PollDescription".to_string(),
        None,
        vec![],
    )
    .unwrap()
    .poll_id
}

#[test]
fn instantiate_succeed() {
    let governance = init_default();

    // Validate
    assert_eq!(governance.staking_state.total_share, 0);
    assert_eq!(governance.staking_config, StakingConfig { withdraw_delay: WITHDRAW_DELAY });
}

#[test]
fn unstake_governance_token_succeed() {
    let mut governance = init_default();

    stake_voting_token(&mut governance, STAKER1_STAKE_AMOUNT, STAKER1.to_string(), STAKER1_STAKE_AMOUNT)
        .unwrap();
    stake_voting_token(
        &mut governance,
        STAKER1_STAKE_AMOUNT + STAKER2_STAKE_AMOUNT,
        STAKER2.to_string(),
        STAKER2_STAKE_AMOUNT,
    )
    .unwrap();

    let increased_balance = (STAKER1_STAKE_AMOUNT + STAKER2_STAKE_AMOUNT).checked_mul(2).unwrap();

    let response = unstake_voting_token(
        &mut governance,
        &governance_env(HEIGHT),
        increased_balance,
        &STAKER1.to_string(),
        None,
    )
    .unwrap();

    assert_eq!(response.unstake_amount, STAKER1_STAKE_AMOUNT.checked_mul(2).unwrap());
    assert_eq!(response.unstake_share, STAKER1_STAKE_AMOUNT);
    assert_eq!(governance.staking_state.total_share, STAKER2_STAKE_AMOUNT);
    assert_eq!(staker(&governance, STAKER1).share, 0);
    assert_eq!(
        staker(&governance, STAKER1).withdraw_unstaked_amounts,
        vec![(HEIGHT, STAKER1_STAKE_AMOUNT * 2)]
    );

    // too early to withdraw: nothing is paid and the amount keeps waiting
    let early = withdraw_voting_token(
        &mut governance,
        &governance_env(HEIGHT + WITHDRAW_DELAY - 1),
        &STAKER1.to_string(),
    )
    .unwrap();
    assert_eq!(early.amount, 0);
    assert_eq!(staker(&governance, STAKER1).withdraw_unstaked_amounts.len(), 1);

    let paid = withdraw_voting_token(
        &mut governance,
        &governance_env(HEIGHT + WITHDRAW_DELAY),
        &STAKER1.to_string(),
    )
    .unwrap();
    assert_eq!(
        paid.messages,
        vec![GovernanceMessage::Transfer {
            token: GOVERNANCE_TOKEN.to_string(),
            recipient: STAKER1.to_string(),
            amount: STAKER1_STAKE_AMOUNT.checked_mul(2).unwrap(),
        }]
    );
    assert!(staker(&governance, STAKER1).withdraw_unstaked_amounts.is_empty());
}

#[test]
fn remove_completed_vote() {
    let mut governance = init_default();
    let first = open_poll(&mut governance, HEIGHT);
    let second = open_poll(&mut governance, HEIGHT);
    let deposits = 20;

    stake_voting_token(&mut governance, deposits + 100, STAKER1.to_string(), 100).unwrap();
    cast_vote(
        &mut governance,
        &governance_env(HEIGHT + 1),
        &STAKER1.to_string(),
        deposits + 100,
        first,
        VoteOption::Yes,
        60,
    )
    .unwrap();
    cast_vote(
        &mut governance,
        &governance_env(HEIGHT + 1),
        &STAKER1.to_string(),
        deposits + 100,
        second,
        VoteOption::No,
        40,
    )
    .unwrap();
    assert_eq!(staker(&governance, STAKER1).votes.len(), 2);
    assert_eq!(
        staker(&governance, STAKER1).get_locked_balance(&governance.polls),
        Some(100)
    );

    // everything is committed: nothing can be unstaked
    let result = unstake_voting_token(
        &mut governance,
        &governance_env(HEIGHT + 2),
        deposits + 100,
        &STAKER1.to_string(),
        Some(1),
    );
    assert_eq!(result, Err(ContractError::Generic(Violation::UnstakeTooMany)));

    end_poll(&mut governance, &governance_env(HEIGHT + 1000), deposits + 100, first).unwrap();
    assert_eq!(governance.polls[0].status, PollStatus::Passed);
    let balance = deposits - 10 + 100;
    assert_eq!(
        staker(&governance, STAKER1).get_locked_balance(&governance.polls),
        Some(40)
    );

    let response = unstake_voting_token(
        &mut governance,
        &governance_env(HEIGHT + 1001),
        balance,
        &STAKER1.to_string(),
        Some(60),
    )
    .unwrap();
    assert_eq!(response, UnstakeResponse { unstake_amount: 60, unstake_share: 60 });

    let after = staker(&governance, STAKER1);
    assert_eq!(after.votes.len(), 1);
    assert_eq!(after.votes[0].0, second);
    assert_eq!(after.votes[0].1.amount, 40);
    assert_eq!(after.share, 40);
}

#[test]
fn failed_overflow() {
    let mut governance = init_default();

    stake_voting_token(&mut governance, STAKER1_STAKE_AMOUNT, STAKER1.to_string(), STAKER1_STAKE_AMOUNT)
        .unwrap();

    let result = unstake_voting_token(
        &mut governance,
        &governance_env(HEIGHT),
        STAKER1_STAKE_AMOUNT,
        &STAKER1.to_string(),
        Some(STAKER1_STAKE_AMOUNT + 1),
    );

    match result {
        Err(ContractError::Generic(violation)) => {
            assert_eq!(violation.message(), "User is trying to unstake too many tokens.")
        }
        other => panic!("expected a rule violation, got {:?}", other),
    }
}

#[test]
fn failed_no_staked() {
    let mut governance = init_default();

    let result = unstake_voting_token(
        &mut governance,
        &governance_env(HEIGHT),
        0,
        &"Sender".to_string(),
        None,
    );

    match result {
        Err(ContractError::Generic(violation)) => assert_eq!(violation.message(), "Nothing staked"),
        other => panic!("expected a rule violation, got {:?}", other),
    }
}

#[test]
fn share_calculation() {
    let mut governance = init_default();

    stake_voting_token(&mut governance, 100, STAKER1.to_string(), 100).unwrap();

    // another 100 arrives as a reward, then the staker stakes 100 more
    let response = stake_voting_token(&mut governance, 300, STAKER1.to_string(), 100).unwrap();
    assert_eq!(response, StakeResponse { share: 50, amount: 100 });

    let response = unstake_voting_token(
        &mut governance,
        &governance_env(HEIGHT),
        300,
        &STAKER1.to_string(),
        Some(100),
    )
    .unwrap();
    assert_eq!(response, UnstakeResponse { unstake_amount: 100, unstake_share: 50 });

    let staker_state = staker(&governance, STAKER1);
    assert_eq!(staker_state.share, 100);
    assert_eq!(staker_state.balance(200, governance.staking_state.total_share), Some(200));
}

#[test]
fn stake_of_nothing_fails() {
    let mut governance = init_default();
    let result = stake_voting_token(&mut governance, 0, STAKER1.to_string(), 0);
    assert_eq!(result, Err(ContractError::Generic(Violation::InsufficientFunds)));
}

#[test]
fn stake_beyond_the_balance_underflows() {
    let mut governance = init_default();
    let before = governance.staking_state;
    let result = stake_voting_token(&mut governance, 99, STAKER1.to_string(), 100);
    assert_eq!(result, Err(ContractError::Overflow));
    assert_eq!(governance.staking_state, before);
    assert!(governance.stakers.get(&STAKER1.to_string()).is_none());
}

#[test]
fn withdraw_without_record_is_not_found() {
    let mut governance = init_default();
    let result =
        withdraw_voting_token(&mut governance, &governance_env(HEIGHT), &STAKER1.to_string());
    assert_eq!(result, Err(ContractError::NotFound(Missing::StakerState)));
}

#[test]
fn update_config_is_for_the_contract_itself() {
    let mut governance = init_default();
    let env = governance_env(HEIGHT);
    let result = update_config(&mut governance, &env, &"Stranger".to_string(), Some(7));
    assert_eq!(result, Err(ContractError::Unauthorized));
    assert_eq!(governance.staking_config.withdraw_delay, WITHDRAW_DELAY);

    update_config(&mut governance, &env, &GOVERNANCE.to_string(), Some(7)).unwrap();
    assert_eq!(governance.staking_config.withdraw_delay, 7);
    update_config(&mut governance, &env, &GOVERNANCE.to_string(), None).unwrap();
    assert_eq!(governance.staking_config.withdraw_delay, 7);
}
