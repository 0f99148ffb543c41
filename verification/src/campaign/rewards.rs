//! What one participation pays: the rewards that are locked for the
//! participant and its referrers, and the shares of a running boost.

use vstd::prelude::*;
use crate::campaign::states::{BoosterState, CampaignState, RewardConfig};
use crate::common::{ContractError, Denom, DenomView};
use crate::math::{lemma_ratio_bounded, multiply_ratio, ratio, Decimal, DECIMAL_FRACTIONAL};

verus! {

/// The sum of the first `n` amounts.
pub open spec fn referral_sum(amounts: Seq<u128>, n: nat) -> nat
    decreases n,
{
    if n == 0 {
        0
    } else {
        referral_sum(amounts, (n - 1) as nat) + amounts[n - 1] as nat
    }
}

/// What a participation with `referrers` rewarded referrers locks in `denom`.
pub open spec fn required_of(config: &RewardConfig, referrers: nat, denom: DenomView) -> nat {
    (if denom == config.participation_reward_denom@ {
        config.participation_reward_amount as nat
    } else {
        0
    }) + (if denom == config.referral_denom() {
        referral_sum(config.referral_reward_amounts@, referrers)
    } else {
        0
    })
}

/// The unlocked funds cover the participation reward and the rewards of
/// `referrers` referrers.
pub open spec fn sufficient(state: &CampaignState, config: &RewardConfig, referrers: nat) -> bool {
    &&& required_of(config, referrers, config.participation_reward_denom@) <= state.available_of(
        config.participation_reward_denom@,
    )
    &&& required_of(config, referrers, config.referral_denom()) <= state.available_of(
        config.referral_denom(),
    )
}

/// The sum of the first `n` amounts, or `None` when it exceeds 128 bits.
pub fn checked_referral_sum(amounts: &Vec<u128>, n: usize) -> (r: Option<u128>)
    requires
        n <= amounts.len(),
    ensures
        match r {
            Some(v) => v == referral_sum(amounts@, n as nat),
            None => referral_sum(amounts@, n as nat) > u128::MAX,
        },
{
    let mut sum: u128 = 0;
    let mut i: usize = 0;
    while i < n
        invariant
            i <= n <= amounts.len(),
            sum == referral_sum(amounts@, i as nat),
        decreases n - i,
    {
        match sum.checked_add(amounts[i]) {
            Some(next) => {
                sum = next;
            },
            None => {
                proof {
                    lemma_referral_sum_grows(amounts@, (i + 1) as nat, n as nat);
                }
                return None;
            },
        }
        i += 1;
    }
    Some(sum)
}

/// A longer prefix never sums to less.
pub proof fn lemma_referral_sum_grows(amounts: Seq<u128>, m: nat, n: nat)
    requires
        m <= n,
    ensures
        referral_sum(amounts, m) <= referral_sum(amounts, n),
    decreases n,
{
    if m < n {
        lemma_referral_sum_grows(amounts, m, (n - 1) as nat);
    }
}

/// Whether `locked + required` stays within `total`.
fn covers(total: u128, locked: u128, required: Option<u128>) -> (r: bool)
    ensures
        r == match required {
            Some(v) => locked + v <= total,
            None => false,
        },
{
    match required {
        None => false,
        Some(v) => match locked.checked_add(v) {
            None => false,
            Some(needed) => needed <= total,
        },
    }
}

/// Whether the unlocked funds cover the participation reward and the
/// rewards of `referrers` referrers.
pub fn has_sufficient_balance(state: &CampaignState, config: &RewardConfig, referrers: usize) -> (r:
    bool)
    requires
        state.wf(),
        referrers <= config.referral_reward_amounts.len(),
    ensures
        r == sufficient(state, config, referrers as nat),
{
    let referral_denom = Denom::Token(config.referral_reward_token.clone());
    let referral_total = checked_referral_sum(&config.referral_reward_amounts, referrers);
    let held = state.balance(&config.participation_reward_denom);
    let locked = state.locked_balance(&config.participation_reward_denom);
    if config.participation_reward_denom.same(&referral_denom) {
        let required = match referral_total {
            None => None,
            Some(v) => v.checked_add(config.participation_reward_amount),
        };
        covers(held.total, locked, required)
    } else {
        let referral_held = state.balance(&referral_denom);
        let referral_locked = state.locked_balance(&referral_denom);
        covers(held.total, locked, Some(config.participation_reward_amount)) && covers(
            referral_held.total,
            referral_locked,
            referral_total,
        )
    }
}

/// Everything one participation can pay in rewards: the participation
/// reward and the referral reward of every distance.
pub open spec fn total_distribution(config: &RewardConfig) -> nat {
    config.participation_reward_amount as nat + referral_sum(
        config.referral_reward_amounts@,
        config.referral_reward_amounts@.len(),
    )
}

/// The reward of recipient `j` of a participation: the participant is
/// recipient 0, its referrer at distance `j` is recipient `j`.
pub open spec fn reward_at(config: &RewardConfig, j: int) -> nat {
    if j == 0 {
        config.participation_reward_amount as nat
    } else {
        config.referral_reward_amounts@[j - 1] as nat
    }
}

/// The activity booster amount of one participation: the multiplier applied
/// to the drop booster share.
pub open spec fn activity_unit(booster: &BoosterState) -> int {
    ratio(
        booster.drop_booster_share as int,
        booster.activity_booster_multiplier.atomics as int,
        DECIMAL_FRACTIONAL as int,
    )
}

/// The part of everything distributed that falls to recipient `j`, cut to
/// eighteen digits.
pub open spec fn reward_rate(config: &RewardConfig, j: int) -> int {
    if total_distribution(config) == 0 {
        0
    } else {
        ratio(reward_at(config, j) as int, DECIMAL_FRACTIONAL as int, total_distribution(config) as int)
    }
}

/// What the activity booster owes recipient `j` while its pool lasts.
pub open spec fn activity_want(booster: &BoosterState, config: &RewardConfig, j: int) -> int {
    ratio(activity_unit(booster), reward_rate(config, j), DECIMAL_FRACTIONAL as int)
}

/// What is left of the activity pool once the first `n` recipients are paid.
pub open spec fn activity_left(booster: &BoosterState, config: &RewardConfig, n: nat) -> int
    decreases n,
{
    if n == 0 {
        booster.activity_booster_pool as int
    } else {
        let before = activity_left(booster, config, (n - 1) as nat);
        let want = activity_want(booster, config, n - 1);
        if want <= before {
            before - want
        } else {
            0
        }
    }
}

/// What the activity booster pays recipient `j`: what it owes, or what is
/// left of the pool if that is less.
pub open spec fn activity_grant(booster: &BoosterState, config: &RewardConfig, j: nat) -> int {
    let before = activity_left(booster, config, j);
    let want = activity_want(booster, config, j as int);
    if want <= before {
        want
    } else {
        before
    }
}

/// What the plus booster owes a participant with this voting power.
pub open spec fn plus_want(booster: &BoosterState, voting_power: Decimal) -> int {
    ratio(
        booster.plus_booster_amount as int,
        voting_power.atomics as int,
        DECIMAL_FRACTIONAL as int,
    )
}

/// What the plus booster pays the participant: what it owes, or what is left
/// of the pool if that is less.
pub open spec fn plus_grant(booster: &BoosterState, voting_power: Decimal) -> int {
    if plus_want(booster, voting_power) <= booster.plus_booster_pool {
        plus_want(booster, voting_power)
    } else {
        booster.plus_booster_pool as int
    }
}

/// The boost cannot be computed in 128 bits.
pub open spec fn boost_overflows(booster: &BoosterState, config: &RewardConfig) -> bool {
    ||| activity_unit(booster) > u128::MAX
    ||| total_distribution(config) > u128::MAX
}

/// The pools once `recipients` recipients and the participant's plus share
/// are paid.
pub open spec fn boosted(
    booster: &BoosterState,
    config: &RewardConfig,
    recipients: nat,
    voting_power: Decimal,
) -> BoosterState {
    BoosterState {
        activity_booster_pool: activity_left(booster, config, recipients) as u128,
        plus_booster_pool: (booster.plus_booster_pool - plus_grant(booster, voting_power)) as u128,
        ..*booster
    }
}

/// No reward exceeds everything distributed.
pub proof fn lemma_reward_within_total(config: &RewardConfig, j: int)
    requires
        0 <= j <= config.referral_reward_amounts@.len(),
    ensures
        reward_at(config, j) <= total_distribution(config),
{
    if j > 0 {
        let amounts = config.referral_reward_amounts@;
        lemma_referral_sum_grows(amounts, j as nat, amounts.len());
    }
}

/// The pool never runs below zero and never grows.
pub proof fn lemma_activity_left_bounds(booster: &BoosterState, config: &RewardConfig, n: nat)
    ensures
        0 <= activity_left(booster, config, n) <= booster.activity_booster_pool,
    decreases n,
{
    if n > 0 {
        lemma_activity_left_bounds(booster, config, (n - 1) as nat);
        lemma_activity_want_nonnegative(booster, config, n - 1);
    }
}

/// The activity booster never owes a negative amount.
pub proof fn lemma_activity_want_nonnegative(booster: &BoosterState, config: &RewardConfig, j: int)
    ensures
        0 <= activity_want(booster, config, j),
{
    let unit = activity_unit(booster);
    let rate = reward_rate(config, j);
    assert(0 <= unit) by (nonlinear_arith)
        requires
            unit == (booster.drop_booster_share as int)
                * (booster.activity_booster_multiplier.atomics as int) / (
            DECIMAL_FRACTIONAL as int),
            DECIMAL_FRACTIONAL == 1_000_000_000_000_000_000,
    ;
    let total = total_distribution(config) as int;
    let reward = reward_at(config, j) as int;
    assert(0 <= rate) by (nonlinear_arith)
        requires
            rate == if total == 0 {
                0
            } else {
                reward * (DECIMAL_FRACTIONAL as int) / total
            },
            0 <= total,
            0 <= reward,
            DECIMAL_FRACTIONAL == 1_000_000_000_000_000_000,
    ;
    assert(0 <= unit * rate / (DECIMAL_FRACTIONAL as int)) by (nonlinear_arith)
        requires
            0 <= unit,
            0 <= rate,
            DECIMAL_FRACTIONAL == 1_000_000_000_000_000_000,
    ;
}

/// What a boost pays for one participation, and the pools it leaves.
pub struct BoostPlan {
    /// The activity share of the participant.
    pub participant_grant: u128,
    /// The activity share of each rewarded referrer, nearest first.
    pub referrer_grants: Vec<u128>,
    /// The plus share of the participant.
    pub plus_grant: u128,
    /// The pools after the payment.
    pub after: BoosterState,
}

/// A share of `amount` at a rate of at most one.
fn share_within(amount: u128, numerator: u128, denominator: u128) -> (r: u128)
    requires
        denominator != 0,
        numerator <= denominator,
    ensures
        r == ratio(amount as int, numerator as int, denominator as int),
        r <= amount,
{
    proof {
        lemma_ratio_bounded(amount as int, numerator as int, denominator as int);
    }
    match multiply_ratio(amount, numerator, denominator) {
        Some(v) => v,
        None => 0,
    }
}

/// What the activity booster pays a recipient with this reward out of a
/// pool of `pool`.
fn activity_payment(unit: u128, reward: u128, total: u128, pool: u128) -> (r: u128)
    requires
        reward <= total,
    ensures
        r <= pool,
        r == ({
            let rate = if total == 0 {
                0
            } else {
                ratio(reward as int, DECIMAL_FRACTIONAL as int, total as int)
            };
            let want = ratio(unit as int, rate, DECIMAL_FRACTIONAL as int);
            if want <= pool {
                want
            } else {
                pool as int
            }
        }),
{
    let rate: u128 = if total == 0 {
        0
    } else {
        share_within(DECIMAL_FRACTIONAL, reward, total)
    };
    assert(total != 0 ==> (DECIMAL_FRACTIONAL as int) * (reward as int) == (reward as int) * (
    DECIMAL_FRACTIONAL as int)) by (nonlinear_arith);
    let want: u128 = share_within(unit, rate, DECIMAL_FRACTIONAL);
    if want <= pool {
        want
    } else {
        pool
    }
}

/// Computes what the boost pays the participant and the first `referrers`
/// of its referrers. Fails with an overflow when the activity amount of a
/// participation or the sum of all rewards exceeds 128 bits.
pub fn plan_boost(
    booster: &BoosterState,
    config: &RewardConfig,
    referrers: usize,
    voting_power: Decimal,
) -> (r: Result<BoostPlan, ContractError>)
    requires
        referrers <= config.referral_reward_amounts.len(),
    ensures
        match r {
            Ok(plan) => {
                &&& !boost_overflows(booster, config)
                &&& plan.participant_grant == activity_grant(booster, config, 0)
                &&& plan.referrer_grants@.len() == referrers
                &&& forall|i: int|
                    0 <= i < referrers ==> #[trigger] plan.referrer_grants@[i] == activity_grant(
                        booster,
                        config,
                        (i + 1) as nat,
                    )
                &&& plan.plus_grant == plus_grant(booster, voting_power)
                &&& plan.after == boosted(booster, config, (referrers + 1) as nat, voting_power)
            },
            Err(e) => boost_overflows(booster, config) && e == ContractError::Overflow,
        },
{
    let unit: u128 = match booster.activity_booster_multiplier.checked_mul_amount(
        booster.drop_booster_share,
    ) {
        Some(v) => v,
        None => {
            return Err(ContractError::Overflow);
        },
    };
    let referral_total = checked_referral_sum(
        &config.referral_reward_amounts,
        config.referral_reward_amounts.len(),
    );
    let total: u128 = match referral_total {
        None => {
            return Err(ContractError::Overflow);
        },
        Some(v) => match v.checked_add(config.participation_reward_amount) {
            Some(t) => t,
            None => {
                return Err(ContractError::Overflow);
            },
        },
    };
    proof {
        lemma_reward_within_total(config, 0);
    }
    let first: u128 = activity_payment(
        unit,
        config.participation_reward_amount,
        total,
        booster.activity_booster_pool,
    );
    let mut pool: u128 = booster.activity_booster_pool - first;
    assert(pool == activity_left(booster, config, 1)) by {
        reveal_with_fuel(activity_left, 2);
    }
    let mut grants: Vec<u128> = Vec::new();
    let mut i: usize = 0;
    while i < referrers
        invariant
            i <= referrers <= config.referral_reward_amounts.len(),
            unit == activity_unit(booster),
            total == total_distribution(config),
            grants@.len() == i,
            pool == activity_left(booster, config, (i + 1) as nat),
            forall|k: int|
                0 <= k < i ==> #[trigger] grants@[k] == activity_grant(
                    booster,
                    config,
                    (k + 1) as nat,
                ),
        decreases referrers - i,
    {
        proof {
            lemma_reward_within_total(config, i + 1);
        }
        let grant: u128 = activity_payment(unit, config.referral_reward_amounts[i], total, pool);
        grants.push(grant);
        pool = pool - grant;
        i += 1;
    }
    let plus: u128 = match voting_power.checked_mul_amount(booster.plus_booster_amount) {
        Some(want) => if want <= booster.plus_booster_pool {
            want
        } else {
            booster.plus_booster_pool
        },
        None => booster.plus_booster_pool,
    };
    Ok(
        BoostPlan {
            participant_grant: first,
            referrer_grants: grants,
            plus_grant: plus,
            after: BoosterState {
                activity_booster_pool: pool,
                plus_booster_pool: booster.plus_booster_pool - plus,
                ..*booster
            },
        },
    )
}

} // verus!
