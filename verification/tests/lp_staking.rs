use valkyrie::common::{BlockInfo, ContractError, Env, Violation};
use valkyrie::math::Decimal;
use valkyrie::staking::executions::{
    auto_stake, auto_stake_hook, bond, compute_uusd_tax, settle, unbond, withdraw, Coin,
    StakingMessage,
};
use valkyrie::staking::states::{
    compute_reward, compute_staker_reward, read_staker_info, Config, StakerInfo, Staking, State,
};
use valkyrie::store::AddressMap;

const STAKING: &str = "Staking";

fn env_at(height: u64) -> Env {
    Env {
        block: BlockInfo { height, time: 0, chain_id: "columbus-5".to_string() },
        contract_address: STAKING.to_string(),
    }
}

/// A staking that distributes 1000 over blocks 0 to 100 and 3000 over blocks
/// 100 to 200.
fn staking() -> Staking {
    Staking {
        config: Config {
            valkyrie_token: "Token".to_string(),
            liquidity_token: "LpToken".to_string(),
            pair_contract: "Pair".to_string(),
            distribution_schedule: vec![(0, 100, 1000), (100, 200, 3000)],
        },
        state: State { last_distributed: 0, total_bond_amount: 0, global_reward_index: Decimal::zero() },
        stakers: AddressMap::new(),
    }
}

fn info(staking: &Staking, owner: &str) -> StakerInfo {
    read_staker_info(staking, &owner.to_string())
}

#[test]
fn rewards_accrue_per_block_and_per_bonded_token() {
    let mut staking = staking();
    bond(&mut staking, &env_at(0), "A".to_string(), 100).unwrap();
    assert_eq!(staking.state.total_bond_amount, 100);
    assert_eq!(info(&staking, "A").bond_amount, 100);

    // 10 per block for 50 blocks over 100 bonded tokens
    bond(&mut staking, &env_at(50), "B".to_string(), 300).unwrap();
    assert_eq!(staking.state.last_distributed, 50);
    assert_eq!(staking.state.global_reward_index, Decimal::percent(500));
    assert_eq!(info(&staking, "B").reward_index, Decimal::percent(500));
    assert_eq!(info(&staking, "B").pending_reward, 0);

    // 500 more over 400 bonded tokens, then 30 per block for 50 blocks
    let paid = withdraw(&mut staking, &env_at(150), &"A".to_string()).unwrap();
    assert_eq!(staking.state.global_reward_index, Decimal::percent(1000));
    assert_eq!(paid.amount, 1000);
    assert_eq!(
        paid.messages,
        vec![StakingMessage::Transfer {
            token: "Token".to_string(),
            recipient: "A".to_string(),
            amount: 1000,
        }]
    );
    assert_eq!(info(&staking, "A").pending_reward, 0);
    assert_eq!(info(&staking, "A").bond_amount, 100);

    let paid = withdraw(&mut staking, &env_at(150), &"B".to_string()).unwrap();
    assert_eq!(paid.amount, 1500);

    // past the schedule nothing more is distributed
    withdraw(&mut staking, &env_at(200), &"A".to_string()).unwrap();
    let index = staking.state.global_reward_index;
    let paid = withdraw(&mut staking, &env_at(500), &"A".to_string()).unwrap();
    assert_eq!(paid.amount, 0);
    assert_eq!(staking.state.global_reward_index, index);
    assert_eq!(staking.state.last_distributed, 500);
}

#[test]
fn nothing_is_distributed_while_nothing_is_bonded() {
    let config = staking().config;
    let mut state = staking().state;
    assert_eq!(compute_reward(&config, &mut state, 70), Ok(()));
    assert_eq!(
        state,
        State { last_distributed: 70, total_bond_amount: 0, global_reward_index: Decimal::zero() }
    );

    state.total_bond_amount = 3;
    assert_eq!(compute_reward(&config, &mut state, 60), Err(ContractError::Overflow));
    assert_eq!(state.last_distributed, 70);
    assert_eq!(compute_reward(&config, &mut state, 80), Ok(()));
    // 10 per block for 10 blocks over 3 bonded tokens, cut to eighteen digits
    assert_eq!(state.global_reward_index.atomics, 33_333_333_333_333_333_333);
}

#[test]
fn staker_rewards_follow_the_index() {
    let state = State {
        last_distributed: 0,
        total_bond_amount: 10,
        global_reward_index: Decimal::percent(250),
    };
    let mut staker =
        StakerInfo { reward_index: Decimal::percent(100), bond_amount: 10, pending_reward: 4 };
    assert_eq!(compute_staker_reward(&state, &mut staker), Ok(()));
    assert_eq!(
        staker,
        StakerInfo { reward_index: Decimal::percent(250), bond_amount: 10, pending_reward: 19 }
    );

    let mut ahead =
        StakerInfo { reward_index: Decimal::percent(300), bond_amount: 10, pending_reward: 4 };
    let before = ahead;
    assert_eq!(compute_staker_reward(&state, &mut ahead), Err(ContractError::Overflow));
    assert_eq!(ahead, before);
}

#[test]
fn unbonding_hands_the_tokens_back() {
    let mut staking = staking();
    bond(&mut staking, &env_at(0), "A".to_string(), 100).unwrap();
    assert_eq!(
        unbond(&mut staking, &env_at(10), &"A".to_string(), 101),
        Err(ContractError::Generic(Violation::UnbondTooMuch))
    );
    assert_eq!(
        unbond(&mut staking, &env_at(10), &"B".to_string(), 1),
        Err(ContractError::Generic(Violation::UnbondTooMuch))
    );
    assert_eq!(staking.state.last_distributed, 0);
    assert_eq!(
        Violation::UnbondTooMuch.message(),
        "Cannot unbond more than bond amount"
    );

    let paid = unbond(&mut staking, &env_at(10), &"A".to_string(), 100).unwrap();
    assert_eq!(paid.amount, 100);
    assert_eq!(
        paid.messages,
        vec![StakingMessage::Transfer {
            token: "LpToken".to_string(),
            recipient: "A".to_string(),
            amount: 100,
        }]
    );
    assert_eq!(staking.state.total_bond_amount, 0);
    // the rewards earned keep the record
    assert_eq!(info(&staking, "A"), StakerInfo {
        reward_index: Decimal::percent(100),
        bond_amount: 0,
        pending_reward: 100,
    });
    assert!(staking.stakers.contains_key(&"A".to_string()));

    withdraw(&mut staking, &env_at(10), &"A".to_string()).unwrap();
    assert!(!staking.stakers.contains_key(&"A".to_string()));

    // a staker without rewards is forgotten with its last token
    bond(&mut staking, &env_at(300), "C".to_string(), 5).unwrap();
    unbond(&mut staking, &env_at(300), &"C".to_string(), 5).unwrap();
    assert!(!staking.stakers.contains_key(&"C".to_string()));
    assert_eq!(staking.stakers.len(), 0);
}

#[test]
fn settling_records_nothing() {
    let mut staking = staking();
    bond(&mut staking, &env_at(0), "A".to_string(), 100).unwrap();
    let before = staking.state;
    let (state, staker) = settle(&staking, 10, &"A".to_string()).unwrap();
    assert_eq!(state.global_reward_index, Decimal::percent(100));
    assert_eq!(staker.pending_reward, 100);
    assert_eq!(staking.state, before);
    assert_eq!(info(&staking, "A").pending_reward, 0);
}

#[test]
fn tax_is_what_the_amount_holds_beyond_its_untaxed_part() {
    // 1000 = 990 and 1% of it, rounded down
    assert_eq!(compute_uusd_tax(1000, Decimal::percent(1), 1_000_000), Ok(10));
    assert_eq!(compute_uusd_tax(1000, Decimal::percent(1), 3), Ok(3));
    assert_eq!(compute_uusd_tax(1000, Decimal::zero(), 3), Ok(0));
    assert_eq!(compute_uusd_tax(0, Decimal::percent(50), 3), Ok(0));
    assert_eq!(compute_uusd_tax(100, Decimal::one(), 1000), Ok(50));
    assert_eq!(compute_uusd_tax(101, Decimal::permille(7), 1000), Ok(1));
    assert_eq!(
        compute_uusd_tax(1, Decimal { atomics: u128::MAX }, 1),
        Err(ContractError::Overflow)
    );
}

fn uusd(amount: u128) -> Coin {
    Coin { denom: "uusd".to_string(), amount }
}

#[test]
fn automatic_stake_takes_one_amount_of_the_native_coin() {
    let staking = staking();
    let run = |funds: Vec<Coin>| {
        auto_stake(
            &staking,
            &env_at(1),
            &"A".to_string(),
            &funds,
            500,
            Some(Decimal::percent(1)),
            40,
            Decimal::percent(1),
            1_000_000,
        )
    };
    let only = Err(ContractError::Generic(Violation::UstOnly));
    assert_eq!(run(vec![]), only);
    assert_eq!(run(vec![uusd(1), uusd(1)]), only);
    assert_eq!(run(vec![Coin { denom: "ukrw".to_string(), amount: 1 }]), only);
    assert_eq!(run(vec![uusd(0)]), Err(ContractError::Generic(Violation::ZeroUst)));
    assert_eq!(Violation::UstOnly.message(), "UST only.");
    assert_eq!(Violation::ZeroUst.message(), "Send UST more than zero.");

    let response = run(vec![uusd(1000)]).unwrap();
    assert_eq!(response.tax_amount, 10);
    assert_eq!(
        response.messages,
        vec![
            StakingMessage::TransferFrom {
                token: "Token".to_string(),
                owner: "A".to_string(),
                recipient: STAKING.to_string(),
                amount: 500,
            },
            StakingMessage::IncreaseAllowance {
                token: "Token".to_string(),
                spender: "Pair".to_string(),
                amount: 500,
            },
            StakingMessage::ProvideLiquidity {
                pair: "Pair".to_string(),
                token: "Token".to_string(),
                uusd_amount: 990,
                token_amount: 500,
                slippage_tolerance: Some(Decimal::percent(1)),
            },
            StakingMessage::AutoStakeHook {
                contract: STAKING.to_string(),
                staker_addr: "A".to_string(),
                already_staked_amount: 40,
            },
        ]
    );
}

#[test]
fn hook_bonds_what_arrived() {
    let mut staking = staking();
    let hook = |staking: &mut Staking, sender: &str, before: u128, now: u128| {
        auto_stake_hook(staking, &env_at(5), &sender.to_string(), "A".to_string(), before, now)
    };
    assert_eq!(
        hook(&mut staking, "A", 40, 100),
        Err(ContractError::Generic(Violation::NotTheContract))
    );
    assert_eq!(Violation::NotTheContract.message(), "unauthorized");
    assert_eq!(hook(&mut staking, STAKING, 40, 39), Err(ContractError::Overflow));
    assert_eq!(staking.state.total_bond_amount, 0);
    assert_eq!(hook(&mut staking, STAKING, 40, 100), Ok(()));
    assert_eq!(staking.state.total_bond_amount, 60);
    assert_eq!(info(&staking, "A").bond_amount, 60);
}

#[test]
fn bonds_beyond_the_range_overflow() {
    let mut staking = staking();
    bond(&mut staking, &env_at(0), "A".to_string(), u128::MAX).unwrap();
    let before = staking.state;
    assert_eq!(bond(&mut staking, &env_at(0), "B".to_string(), 1), Err(ContractError::Overflow));
    assert_eq!(staking.state, before);
    assert!(!staking.stakers.contains_key(&"B".to_string()));
}

#[test]
fn failed_invalid_schedule() {
    let mut config = staking().config;
    config.distribution_schedule = vec![(0, 50, 50u128), (50, 50, 50u128)];

    let result = config.validate();

    match result {
        Err(ContractError::Generic(violation)) => assert_eq!(violation.message(), "invalid schedule"),
        other => panic!("expected a rule violation, got {:?}", other),
    }
}

#[test]
fn schedules_of_proper_slots_are_valid() {
    let mut config = staking().config;
    config.distribution_schedule = vec![(0, 50, 50u128), (50, 100, 50u128)];
    assert_eq!(config.validate(), Ok(()));
    config.distribution_schedule = vec![];
    assert_eq!(config.validate(), Ok(()));
    config.distribution_schedule = vec![(0, 50, 50u128), (51, 50, 50u128)];
    assert!(config.validate().is_err());
}
