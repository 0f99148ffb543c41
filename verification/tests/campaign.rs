use valkyrie::campaign::executions::{
    check_join, join, participate, participate_qualify_result, reply, resolve_referrer,
    CampaignMessage, REPLY_QUALIFY_PARTICIPATION,
};
use valkyrie::campaign::queries::{
    get_actor, get_campaign_config, get_campaign_state, get_reward_config, get_share_url,
    put_query_parameter, query_participations,
};
use valkyrie::campaign::rewards::{checked_referral_sum, has_sufficient_balance, plan_boost};
use valkyrie::campaign::states::{
    is_admin, is_pending, referrers, Actor, Balance, BoosterState, Campaign, CampaignConfig,
    CampaignState, QualifyParticipationContext, RewardConfig,
};
use valkyrie::common::{BlockInfo, ContractError, Denom, Env, Missing, OrderBy, Violation};
use valkyrie::math::Decimal;
use valkyrie::qualifier::{QualificationMsg, QualificationResult, QualifiedContinueOption};
use valkyrie::store::AddressMap;

const HEIGHT: u64 = 500;
const TIME: u64 = 1_600_000_000_000_000_000;
const CHAIN: &str = "columbus-5";
const PERIOD: u64 = 100;

fn native() -> Denom {
    Denom::Native("uusd".to_string())
}

fn token() -> Denom {
    Denom::Token("Token".to_string())
}

fn env() -> Env {
    Env {
        block: BlockInfo { height: HEIGHT, time: TIME, chain_id: CHAIN.to_string() },
        contract_address: "Campaign".to_string(),
    }
}

/// An active campaign that pays `base` per participation in the native coin
/// and `scheme` to the referrers in the token.
fn campaign(base: u128, scheme: &[u128], native_funds: u128, token_funds: u128) -> Campaign {
    let mut state = CampaignState::new(CHAIN.to_string());
    state.deposit(&native(), native_funds);
    state.deposit(&token(), token_funds);
    state.active_flag = true;
    state.last_active_height = Some(HEIGHT);
    Campaign {
        config: CampaignConfig {
            governance: "Governance".to_string(),
            campaign_manager: "Manager".to_string(),
            fund_manager: "Funds".to_string(),
            title: "Title".to_string(),
            description: "Description".to_string(),
            url: "https://example.org/page".to_string(),
            parameter_key: "ref".to_string(),
            qualifier: None,
            executions: vec![],
            admin: "Admin".to_string(),
            creator: "Creator".to_string(),
            created_at: 7,
            proxy_whitelist: vec![],
        },
        state,
        reward_config: RewardConfig {
            participation_reward_denom: native(),
            participation_reward_amount: base,
            referral_reward_token: "Token".to_string(),
            referral_reward_amounts: scheme.to_vec(),
        },
        booster: None,
        actors: AddressMap::new(),
        qualify_participation_context: None,
    }
}

fn take_part(campaign: &mut Campaign, actor: &str, referrer: Option<&str>) {
    participate(
        campaign,
        &env(),
        &actor.to_string(),
        PERIOD,
        Decimal::zero(),
        actor.to_string(),
        referrer.map(str::to_string),
    )
    .unwrap();
}

fn actor(campaign: &Campaign, address: &str) -> Actor {
    Actor::load(&campaign.actors, &address.to_string()).unwrap()
}

fn total_locked(campaign: &Campaign) -> u128 {
    campaign.state.locked_balance(&native()) + campaign.state.locked_balance(&token())
}

#[test]
fn two_participations_with_a_referral() {
    let base = 30;
    let mut campaign = campaign(base, &[100, 50], 100000, 100000);

    take_part(&mut campaign, "A", None);
    assert_eq!(campaign.state.participation_count, 1);
    assert_eq!(actor(&campaign, "A").participation_reward_amount, base);
    assert_eq!(campaign.state.locked_balance(&native()), base);
    assert_eq!(actor(&campaign, "A").referral_reward_amount, 0);
    assert_eq!(campaign.state.locked_balance(&token()), 0);
    assert_eq!(campaign.state.cumulative_referral_reward_amount, 0);

    let response = participate(
        &mut campaign,
        &env(),
        &"B".to_string(),
        PERIOD,
        Decimal::zero(),
        "B".to_string(),
        Some("A".to_string()),
    )
    .unwrap();
    assert_eq!(response.participation_reward, base);
    assert_eq!(response.referral_rewards, vec![("A".to_string(), 100)]);
    assert_eq!(response.messages, vec![]);
    assert_eq!(actor(&campaign, "A").referral_reward_amount, 100);
    assert_eq!(actor(&campaign, "A").referral_count, 1);
    assert_eq!(actor(&campaign, "B").participation_reward_amount, base);
    assert_eq!(actor(&campaign, "B").referrer, Some("A".to_string()));
    assert_eq!(total_locked(&campaign), base + base + 100);
    assert_eq!(campaign.state.participation_count, 2);
    assert_eq!(campaign.state.actor_count, 2);
    assert_eq!(campaign.state.cumulative_participation_reward_amount, 2 * base);
    assert_eq!(campaign.state.cumulative_referral_reward_amount, 100);
    assert!(campaign.state.validate_balance().is_ok());
}

#[test]
fn participation_reward_above_the_balance_changes_nothing() {
    let mut campaign = campaign(6, &[1], 5, 100);
    let before = campaign.clone();

    let result = participate(
        &mut campaign,
        &env(),
        &"A".to_string(),
        PERIOD,
        Decimal::zero(),
        "A".to_string(),
        None,
    );

    assert_eq!(result, Err(ContractError::Generic(Violation::InsufficientBalance)));
    assert_eq!(campaign, before);
    assert_eq!(campaign.actors.len(), 0);
}

#[test]
fn referral_rewards_need_funds_too() {
    let mut campaign = campaign(10, &[100, 50], 1000, 149);
    take_part(&mut campaign, "A", None);
    take_part(&mut campaign, "B", Some("A"));
    assert_eq!(campaign.state.locked_balance(&token()), 100);

    // C would lock 100 for B and 50 for A; 49 are left
    let before = campaign.state.clone();
    let result = participate(
        &mut campaign,
        &env(),
        &"C".to_string(),
        PERIOD,
        Decimal::zero(),
        "C".to_string(),
        Some("B".to_string()),
    );
    assert_eq!(result, Err(ContractError::Generic(Violation::InsufficientBalance)));
    assert_eq!(campaign.state, before);
    assert_eq!(actor(&campaign, "B").referral_reward_amount, 0);

    // without a referrer only the participation reward is locked
    take_part(&mut campaign, "C", None);
    assert_eq!(campaign.state.locked_balance(&token()), 100);
}

#[test]
fn rewards_in_one_denomination_are_covered_together() {
    let mut campaign = campaign(10, &[100], 0, 119);
    campaign.reward_config.participation_reward_denom = token();
    take_part(&mut campaign, "A", None);
    let result = participate(
        &mut campaign,
        &env(),
        &"B".to_string(),
        PERIOD,
        Decimal::zero(),
        "B".to_string(),
        Some("A".to_string()),
    );
    // 10 are locked, 10 + 100 more would need 120
    assert_eq!(result, Err(ContractError::Generic(Violation::InsufficientBalance)));
    campaign.state.deposit(&token(), 1);
    take_part(&mut campaign, "B", Some("A"));
    assert_eq!(campaign.state.locked_balance(&token()), 120);
    assert!(campaign.state.validate_balance().is_ok());
}

#[test]
fn second_participation_fails_and_changes_nothing() {
    let mut campaign = campaign(10, &[5], 1000, 1000);
    take_part(&mut campaign, "A", None);
    take_part(&mut campaign, "B", Some("A"));

    let before = campaign.clone();
    let result = participate(
        &mut campaign,
        &env(),
        &"B".to_string(),
        PERIOD,
        Decimal::zero(),
        "B".to_string(),
        None,
    );
    assert_eq!(result, Err(ContractError::Generic(Violation::AlreadyParticipated)));
    assert_eq!(
        Violation::AlreadyParticipated.message(),
        "Already participated"
    );
    assert_eq!(campaign, before);
    assert_eq!(campaign.actors.len(), 2);
}

#[test]
fn rewards_reach_no_further_than_the_scheme() {
    let mut campaign = campaign(10, &[7, 3], 1000, 1000);
    take_part(&mut campaign, "Root", None);
    take_part(&mut campaign, "A", Some("Root"));
    take_part(&mut campaign, "B", Some("A"));
    let root = actor(&campaign, "Root");
    let a = actor(&campaign, "A");
    assert_eq!(root.referral_reward_amount, 7 + 3);

    // Root is three levels above C: the scheme pays two
    take_part(&mut campaign, "C", Some("B"));
    assert_eq!(actor(&campaign, "B").referral_reward_amount, 7);
    assert_eq!(actor(&campaign, "A").referral_reward_amount, a.referral_reward_amount + 3);
    assert_eq!(actor(&campaign, "Root"), root);

    take_part(&mut campaign, "D", Some("C"));
    assert_eq!(actor(&campaign, "Root"), root);
    assert_eq!(actor(&campaign, "A").referral_reward_amount, 7 + 3);
    assert_eq!(actor(&campaign, "A").referral_count, 2);
}

#[test]
fn referrer_chain_is_cut_at_the_limit() {
    let mut campaign = campaign(1, &[1, 1, 1], 1000, 1000);
    take_part(&mut campaign, "A", None);
    take_part(&mut campaign, "B", Some("A"));
    take_part(&mut campaign, "C", Some("B"));
    let c = actor(&campaign, "C");
    let names = |limit: usize| -> Vec<String> {
        c.load_referrers(&campaign.actors, limit).into_iter().map(|a| a.address).collect()
    };
    assert_eq!(names(0), Vec::<String>::new());
    assert_eq!(names(1), vec!["B".to_string()]);
    assert_eq!(names(2), vec!["B".to_string(), "A".to_string()]);
    assert_eq!(names(5), vec!["B".to_string(), "A".to_string()]);
    assert_eq!(referrers(&campaign.actors, &Some("Nobody".to_string()), 3), vec![]);
}

#[test]
fn a_referrer_must_be_another_actor_with_a_record() {
    let mut campaign = campaign(1, &[1], 1000, 1000);
    take_part(&mut campaign, "A", None);
    let a = "A".to_string();
    assert_eq!(resolve_referrer(&campaign.actors, &a, Some("A".to_string())), None);
    assert_eq!(resolve_referrer(&campaign.actors, &"B".to_string(), Some("Nobody".to_string())), None);
    assert_eq!(resolve_referrer(&campaign.actors, &"B".to_string(), None), None);
    assert_eq!(
        resolve_referrer(&campaign.actors, &"B".to_string(), Some("A".to_string())),
        Some("A".to_string())
    );

    take_part(&mut campaign, "Self", Some("Self"));
    assert_eq!(actor(&campaign, "Self").referrer, None);
    assert_eq!(campaign.state.locked_balance(&token()), 0);
}

#[test]
fn inactive_campaigns_take_no_participation() {
    let run = |change: &dyn Fn(&mut Campaign)| {
        let mut campaign = campaign(1, &[1], 1000, 1000);
        change(&mut campaign);
        participate(
            &mut campaign,
            &env(),
            &"A".to_string(),
            PERIOD,
            Decimal::zero(),
            "A".to_string(),
            None,
        )
    };
    let inactive = Err(ContractError::Generic(Violation::InactiveCampaign));
    assert_eq!(run(&|c| c.state.active_flag = false), inactive);
    assert_eq!(run(&|c| c.state.chain_id = "bombay-12".to_string()), inactive);
    assert_eq!(run(&|c| c.state.last_active_height = Some(HEIGHT - PERIOD - 1)), inactive);
    assert_eq!(run(&|c| c.state.last_active_height = None), inactive);
    assert!(run(&|c| c.state.last_active_height = Some(HEIGHT - PERIOD)).is_ok());
}

#[test]
fn activity_is_judged_before_permission() {
    let mut campaign = campaign(1, &[1], 1000, 1000);
    campaign.state.active_flag = false;
    let result = participate(
        &mut campaign,
        &env(),
        &"Stranger".to_string(),
        PERIOD,
        Decimal::zero(),
        "A".to_string(),
        None,
    );
    assert_eq!(result, Err(ContractError::Generic(Violation::InactiveCampaign)));
}

fn with_qualifier() -> Campaign {
    let mut campaign = campaign(10, &[5], 1000, 1000);
    campaign.config.qualifier = Some("Qualifier".to_string());
    campaign.booster = Some(BoosterState {
        drop_booster_share: 100,
        activity_booster_multiplier: Decimal::one(),
        activity_booster_pool: 1000,
        plus_booster_amount: 1000,
        plus_booster_pool: 1000,
        min_participation_count: 0,
    });
    campaign
}

fn ask(campaign: &mut Campaign, actor: &str) {
    let response = participate(
        campaign,
        &env(),
        &actor.to_string(),
        PERIOD,
        Decimal::percent(10),
        actor.to_string(),
        None,
    )
    .unwrap();
    assert_eq!(
        response.messages,
        vec![CampaignMessage::Qualify {
            qualifier: "Qualifier".to_string(),
            msg: QualificationMsg {
                campaign: "Campaign".to_string(),
                sender: actor.to_string(),
                actor: actor.to_string(),
                referrer: None,
            },
            reply_id: REPLY_QUALIFY_PARTICIPATION,
        }]
    );
    assert_eq!(
        campaign.qualify_participation_context,
        Some(QualifyParticipationContext { actor: actor.to_string(), referrer: None })
    );
    assert_eq!(campaign.actors.len(), 0);
    assert_eq!(campaign.state.participation_count, 0);
}

fn answer(option: QualifiedContinueOption, reason: Option<&str>) -> QualificationResult {
    QualificationResult { continue_option: option, reason: reason.map(str::to_string) }
}

#[test]
fn eligible_actor_is_recorded_with_boost() {
    let mut campaign = with_qualifier();
    ask(&mut campaign, "A");
    participate_qualify_result(
        &mut campaign,
        &env(),
        Decimal::percent(10),
        answer(QualifiedContinueOption::Eligible, None),
    )
    .unwrap();
    assert_eq!(campaign.qualify_participation_context, None);
    let a = actor(&campaign, "A");
    assert_eq!(a.participation_reward_amount, 10);
    // 100 * 1 * (10 / 15) at eighteen digits, and 10% of 1000
    assert_eq!(a.activity_booster_reward_amount, 66);
    assert_eq!(a.plus_booster_reward_amount, 100);
}

#[test]
fn rejected_actor_that_may_continue_earns_no_boost() {
    let mut campaign = with_qualifier();
    ask(&mut campaign, "A");
    let pools = campaign.booster;
    reply(
        &mut campaign,
        &env(),
        Decimal::percent(10),
        REPLY_QUALIFY_PARTICIPATION,
        answer(QualifiedContinueOption::RejectedContinue, Some("too new")),
    )
    .unwrap();
    assert_eq!(campaign.qualify_participation_context, None);
    let a = actor(&campaign, "A");
    assert_eq!(a.participation_reward_amount, 10);
    assert_eq!(a.activity_booster_reward_amount, 0);
    assert_eq!(a.plus_booster_reward_amount, 0);
    assert_eq!(campaign.booster, pools);
    assert_eq!(campaign.state.locked_balance(&native()), 10);
}

#[test]
fn stopped_actor_is_not_recorded() {
    let mut campaign = with_qualifier();
    ask(&mut campaign, "A");
    let state = campaign.state.clone();
    let result = participate_qualify_result(
        &mut campaign,
        &env(),
        Decimal::zero(),
        answer(QualifiedContinueOption::RejectedStop, Some("not on the list")),
    );
    let reason = Violation::QualificationRejected(Some("not on the list".to_string()));
    assert_eq!(reason.message(), "not on the list");
    assert_eq!(result, Err(ContractError::Generic(reason)));
    assert_eq!(campaign.qualify_participation_context, None);
    assert_eq!(campaign.state, state);
    assert_eq!(campaign.actors.len(), 0);
}

#[test]
fn answer_without_question_fails() {
    let mut campaign = with_qualifier();
    let state = campaign.state.clone();
    let result = participate_qualify_result(
        &mut campaign,
        &env(),
        Decimal::zero(),
        answer(QualifiedContinueOption::Eligible, None),
    );
    assert_eq!(result, Err(ContractError::NotFound(Missing::QualifyParticipationContext)));
    assert_eq!(campaign.state, state);

    ask(&mut campaign, "A");
    let result = reply(
        &mut campaign,
        &env(),
        Decimal::zero(),
        REPLY_QUALIFY_PARTICIPATION + 1,
        answer(QualifiedContinueOption::Eligible, None),
    );
    assert_eq!(result, Err(ContractError::NotFound(Missing::ReplyId)));
    assert!(campaign.qualify_participation_context.is_some());
}

#[test]
fn boost_waits_for_the_minimum_of_participations() {
    let mut campaign = campaign(10, &[10], 1000, 1000);
    campaign.booster = Some(BoosterState {
        drop_booster_share: 100,
        activity_booster_multiplier: Decimal::percent(50),
        activity_booster_pool: 1000,
        plus_booster_amount: 0,
        plus_booster_pool: 5,
        min_participation_count: 1,
    });
    take_part(&mut campaign, "A", None);
    assert_eq!(actor(&campaign, "A").activity_booster_reward_amount, 0);
    take_part(&mut campaign, "B", Some("A"));
    // the unit is 50; A and B each earn half of everything distributed
    assert_eq!(actor(&campaign, "B").activity_booster_reward_amount, 25);
    assert_eq!(actor(&campaign, "A").activity_booster_reward_amount, 25);
    assert_eq!(campaign.booster.unwrap().activity_booster_pool, 950);
}

#[test]
fn boost_plan_caps_at_the_pools() {
    let booster = BoosterState {
        drop_booster_share: 10,
        activity_booster_multiplier: Decimal::percent(80),
        activity_booster_pool: 5,
        plus_booster_amount: 10,
        plus_booster_pool: 3,
        min_participation_count: 0,
    };
    let config = RewardConfig {
        participation_reward_denom: native(),
        participation_reward_amount: 100,
        referral_reward_token: "Token".to_string(),
        referral_reward_amounts: vec![80, 20],
    };
    let plan = plan_boost(&booster, &config, 2, Decimal::percent(50)).unwrap();
    // owed 4, 3 and 0 of a unit of 8; the pool holds 5
    assert_eq!(plan.participant_grant, 4);
    assert_eq!(plan.referrer_grants, vec![1, 0]);
    assert_eq!(plan.plus_grant, 3);
    assert_eq!(plan.after.activity_booster_pool, 0);
    assert_eq!(plan.after.plus_booster_pool, 0);

    let overflowing = BoosterState {
        drop_booster_share: u128::MAX,
        activity_booster_multiplier: Decimal::percent(200),
        ..booster
    };
    assert_eq!(
        plan_boost(&overflowing, &config, 0, Decimal::zero()).err(),
        Some(ContractError::Overflow)
    );
}

#[test]
fn counters_at_their_limit_overflow_and_change_nothing() {
    let mut campaign = campaign(1, &[1], 1000, 1000);
    campaign.state.participation_count = u64::MAX;
    let state = campaign.state.clone();
    let result = join(&mut campaign, &env(), "A".to_string(), None, true, Decimal::zero());
    assert_eq!(result, Err(ContractError::Overflow));
    assert_eq!(campaign.state, state);
    assert_eq!(campaign.actors.len(), 0);
}

#[test]
fn checks_before_joining() {
    let mut campaign = campaign(10, &[5], 9, 1000);
    assert_eq!(
        check_join(&campaign, &"A".to_string(), &None),
        Err(ContractError::Generic(Violation::InsufficientBalance))
    );
    campaign.state.deposit(&native(), 1);
    assert_eq!(check_join(&campaign, &"A".to_string(), &None), Ok(()));
    take_part(&mut campaign, "A", None);
    assert_eq!(
        check_join(&campaign, &"A".to_string(), &None),
        Err(ContractError::Generic(Violation::AlreadyParticipated))
    );
    assert!(!has_sufficient_balance(&campaign.state, &campaign.reward_config, 0));
    assert_eq!(checked_referral_sum(&vec![1, 2, 3], 2), Some(3));
    assert_eq!(checked_referral_sum(&vec![u128::MAX, 1], 2), None);
}

#[test]
fn ledger_keeps_locked_within_balance() {
    let mut state = CampaignState::new(CHAIN.to_string());
    assert!(state.is_pending());
    assert_eq!(state.balance(&native()), Balance::default());
    assert!(state.validate_balance().is_ok());

    state.deposit(&native(), 10);
    state.deposit(&native(), 5);
    state.lock_balance(&native(), 15);
    assert_eq!(state.balance(&native()), Balance { total: 15, locked: 15 });
    assert!(state.validate_balance().is_ok());

    state.lock_balance(&native(), 1);
    let violation = Violation::LockedExceedsBalance;
    assert_eq!(violation.message(), "locked balance can't greater than balance");
    assert_eq!(state.validate_balance(), Err(ContractError::Generic(violation)));
    assert_eq!(state.unlock_balance(&native(), 1), Ok(15));
    assert!(state.validate_balance().is_ok());

    // a denomination that is owed without being held
    state.lock_balance(&token(), 1);
    assert_eq!(state.balance(&token()), Balance::default());
    assert_eq!(state.locked_balance(&token()), 1);
    assert!(state.validate_balance().is_err());
    assert_eq!(state.unlock_balance(&token(), 2), Err(ContractError::Overflow));
    assert_eq!(state.unlock_balance(&token(), 1), Ok(0));

    assert_eq!(state.withdraw(&native(), 16), Err(ContractError::Overflow));
    assert_eq!(state.balance(&native()).total, 15);
    assert_eq!(state.withdraw(&native(), 15), Ok(0));
    assert_eq!(state.withdraw(&Denom::Native("ukrw".to_string()), 0), Ok(0));
    assert_eq!(state.withdraw(&Denom::Native("ukrw".to_string()), 1), Err(ContractError::Overflow));
    assert_eq!(state.balances.len(), 1);
    assert!(state.validate_balance().is_err());
}

#[test]
fn reward_scheme_must_pay_something() {
    let scheme = |amounts: Vec<u128>| RewardConfig {
        participation_reward_denom: native(),
        participation_reward_amount: 1,
        referral_reward_token: "Token".to_string(),
        referral_reward_amounts: amounts,
    };
    let invalid = Err(ContractError::Generic(Violation::InvalidRewardScheme));
    assert_eq!(scheme(vec![]).validate(), invalid);
    assert_eq!(scheme(vec![0, 0]).validate(), invalid);
    assert_eq!(scheme(vec![0, 1]).validate(), Ok(()));

    let mut campaign = campaign(1, &[1], 0, 0);
    let before = campaign.reward_config.clone();
    assert_eq!(scheme(vec![0]).save(&mut campaign), invalid);
    assert_eq!(campaign.reward_config, before);
    assert_eq!(scheme(vec![0, 9]).save(&mut campaign), Ok(()));
    assert_eq!(campaign.reward_config.referral_reward_amounts, vec![0, 9]);
}

#[test]
fn pages_of_actors() {
    let mut campaign = campaign(1, &[1], 1000, 1000);
    for name in ["delta", "alpha", "charlie", "bravo", "echo"] {
        take_part(&mut campaign, name, None);
    }
    let page = |start: Option<&str>, limit: Option<u32>, order: Option<OrderBy>| -> Vec<String> {
        query_participations(&campaign, start.map(str::to_string), limit, order)
            .actors
            .into_iter()
            .map(|a| a.address)
            .collect()
    };
    assert_eq!(page(None, None, Some(OrderBy::Asc)), ["alpha", "bravo", "charlie", "delta", "echo"]);
    assert_eq!(page(None, None, None), ["echo", "delta", "charlie", "bravo", "alpha"]);
    assert_eq!(page(None, Some(2), Some(OrderBy::Desc)), ["echo", "delta"]);
    assert_eq!(page(Some("bravo"), Some(2), Some(OrderBy::Asc)), ["charlie", "delta"]);
    assert_eq!(page(Some("bravo"), None, Some(OrderBy::Desc)), ["alpha"]);
    assert_eq!(page(Some("b"), Some(1), Some(OrderBy::Asc)), ["bravo"]);
    assert_eq!(page(Some("echo"), None, Some(OrderBy::Asc)), Vec::<String>::new());
    assert_eq!(page(None, Some(0), Some(OrderBy::Asc)), Vec::<String>::new());

    let listed = Actor::query(&campaign.actors, None, Some(1), Some(OrderBy::Asc));
    assert_eq!(listed, vec![actor(&campaign, "alpha")]);
}

#[test]
fn page_limits() {
    let mut campaign = campaign(1, &[1], 1000, 1000);
    for i in 0..35 {
        take_part(&mut campaign, &format!("actor{:02}", i), None);
    }
    let count = |limit: Option<u32>| {
        query_participations(&campaign, None, limit, Some(OrderBy::Asc)).actors.len()
    };
    assert_eq!(count(None), 10);
    assert_eq!(count(Some(29)), 29);
    assert_eq!(count(Some(30)), 30);
    assert_eq!(count(Some(1000)), 30);
}

#[test]
fn queries_show_the_records() {
    let mut campaign = campaign(10, &[5], 1000, 1000);
    take_part(&mut campaign, "A", None);
    take_part(&mut campaign, "B", Some("A"));

    let shown = get_actor(&campaign, &"A".to_string()).unwrap();
    assert_eq!(shown.address, "A");
    assert_eq!(shown.referrer_address, None);
    assert_eq!(shown.participation_reward_amount, 10);
    assert_eq!(shown.referral_reward_amount, 5);
    assert_eq!(shown.cumulative_referral_reward_amount, 5);
    assert_eq!(shown.referral_count, 1);
    assert_eq!(shown.last_participated_at, TIME);
    assert_eq!(
        get_actor(&campaign, &"Nobody".to_string()),
        Err(ContractError::NotFound(Missing::Actor))
    );

    let state = get_campaign_state(&campaign, PERIOD, &env().block);
    assert_eq!(state.actor_count, 2);
    assert_eq!(state.participation_count, 2);
    assert_eq!(state.balances, campaign.state.balances);
    assert_eq!(state.locked_balances, vec![(native(), 20), (token(), 5)]);
    assert!(state.is_active);
    assert!(!state.is_pending);
    let later = BlockInfo { height: HEIGHT + PERIOD + 1, ..env().block };
    assert!(!get_campaign_state(&campaign, PERIOD, &later).is_active);

    let config = get_campaign_config(&campaign);
    assert_eq!(config.admin, "Admin");
    assert_eq!(config.qualifier, None);
    let rewards = get_reward_config(&campaign);
    assert_eq!(rewards.referral_reward_amounts, vec![5]);
    assert_eq!(rewards.participation_reward_denom, native());

    assert!(is_admin(&campaign, &"Admin".to_string()));
    assert!(!is_admin(&campaign, &"A".to_string()));
    assert!(!is_pending(&campaign));
}

#[test]
fn share_url_carries_the_compressed_address() {
    let campaign = campaign(1, &[1], 0, 0);
    let shared = get_share_url(&campaign, "terra1abc".to_string(), "Xy".to_string());
    assert_eq!(shared.address, "terra1abc");
    assert_eq!(shared.compressed, "Xy");
    assert_eq!(shared.url, "https://example.org/page?ref=Xy");
    assert_eq!(
        put_query_parameter(&"https://a.b/?x=1".to_string(), &"ref".to_string(), &"Z".to_string()),
        "https://a.b/?x=1&ref=Z"
    );
}
