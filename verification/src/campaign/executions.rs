//! The calls that change a campaign.

use vstd::prelude::*;
use crate::campaign::rewards::{
    activity_grant, boost_overflows, boosted, checked_referral_sum, has_sufficient_balance,
    plan_boost, plus_grant, referral_sum, required_of, sufficient, BoostPlan,
};
use crate::campaign::states::{
    keyed_by_address, lemma_referrers_bounded, referrers, referrers_of, Actor, BoosterState,
    Campaign, QualifyParticipationContext,
};
use crate::common::{
    contains_address, duplicate_address, ContractError, Denom, DenomView, Env, Missing, Violation,
};
use crate::math::Decimal;
use crate::qualifier::{QualificationMsg, QualificationResult, QualifiedContinueOption};
use crate::store::AddressMap;

verus! {

/// A message that a campaign sends.
#[derive(Clone, Debug, PartialEq, Eq)]
pub enum CampaignMessage {
    /// Tells the campaign manager that the boost of `campaign` has paid out
    /// one of its pools.
    FinishBoosting { campaign_manager: String, campaign: String },
    /// Puts the question to the qualifier; the answer comes back as the
    /// reply `reply_id`.
    Qualify { qualifier: String, msg: QualificationMsg, reply_id: u64 },
}

/// What a participation sent and paid.
#[derive(Clone, Debug, PartialEq, Eq)]
pub struct ParticipateResponse {
    pub messages: Vec<CampaignMessage>,
    /// The reward locked for the participant.
    pub participation_reward: u128,
    /// The rewarded referrers, nearest first, each with the reward locked
    /// for it.
    pub referral_rewards: Vec<(String, u128)>,
    /// The activity booster share of the participant.
    pub activity_booster_reward: u128,
    /// The plus booster share of the participant.
    pub plus_booster_reward: u128,
    /// The activity booster share of each rewarded referrer, nearest first.
    pub referrer_activity_booster_rewards: Vec<u128>,
}

/// Whether `sender` may make `actor` participate: the actor itself, a
/// whitelisted proxy, or the admin.
pub open spec fn authorized(campaign: &Campaign, sender: Seq<char>, actor: Seq<char>) -> bool {
    ||| sender == actor
    ||| campaign.config.is_proxy(sender)
    ||| campaign.config.admin@ == sender
}

/// The referrer that counts: none where none was given, where the actor
/// named itself, or where the address never took part.
pub open spec fn resolved_referrer(
    actors: Map<Seq<char>, Actor>,
    actor: Seq<char>,
    referrer: Option<String>,
) -> Option<String> {
    match referrer {
        Some(address) => if address@ != actor && actors.contains_key(address@) {
            Some(address)
        } else {
            None
        },
        None => None,
    }
}

/// The referrers that a participation of `actor` rewards, nearest first.
pub open spec fn rewarded_referrers(
    campaign: &Campaign,
    actor: Seq<char>,
    referrer: Option<String>,
) -> Seq<Actor> {
    referrers_of(
        campaign.actors@,
        resolved_referrer(campaign.actors@, actor, referrer),
        campaign.reward_config.referral_reward_amounts@.len(),
    )
}

/// Whether a participation pays from the boost: boosts are allowed for it,
/// a boost runs, and enough participations came before.
pub open spec fn boosting(campaign: &Campaign, allowed: bool) -> bool {
    &&& allowed
    &&& campaign.booster matches Some(b)
    &&& campaign.state.participation_count >= b.min_participation_count
}

/// The activity booster share of recipient `j`.
pub open spec fn activity_share(campaign: &Campaign, allowed: bool, j: nat) -> int {
    if boosting(campaign, allowed) {
        activity_grant(&campaign.booster.unwrap(), &campaign.reward_config, j)
    } else {
        0
    }
}

/// The plus booster share of the participant.
pub open spec fn plus_share(campaign: &Campaign, allowed: bool, voting_power: Decimal) -> int {
    if boosting(campaign, allowed) {
        plus_grant(&campaign.booster.unwrap(), voting_power)
    } else {
        0
    }
}

/// The record of a referrer still fits its fields after a credit.
pub open spec fn credit_fits(a: &Actor, referral: int, activity: int) -> bool {
    &&& a.referral_reward_amount + referral <= u128::MAX
    &&& a.cumulative_referral_reward_amount + referral <= u128::MAX
    &&& a.activity_booster_reward_amount + activity <= u128::MAX
    &&& a.referral_count + 1 <= u64::MAX
}

/// The record of a referrer after one more referral.
pub open spec fn credited(a: Actor, referral: int, activity: int) -> Actor {
    Actor {
        referral_reward_amount: (a.referral_reward_amount + referral) as u128,
        cumulative_referral_reward_amount: (a.cumulative_referral_reward_amount + referral) as u128,
        activity_booster_reward_amount: (a.activity_booster_reward_amount + activity) as u128,
        referral_count: (a.referral_count + 1) as u64,
        ..a
    }
}

/// The record of an actor after its first participation.
pub open spec fn newcomer(
    address: String,
    referrer: Option<String>,
    time: u64,
    reward: u128,
    activity: int,
    plus: int,
) -> Actor {
    Actor {
        address,
        referrer,
        participation_reward_amount: reward,
        referral_reward_amount: 0,
        cumulative_participation_reward_amount: reward,
        cumulative_referral_reward_amount: 0,
        activity_booster_reward_amount: activity as u128,
        plus_booster_reward_amount: plus as u128,
        participation_count: 1,
        referral_count: 0,
        last_participated_at: time,
    }
}

/// The credit of the referrer at position `i` of the chain.
pub open spec fn credit_at(campaign: &Campaign, allowed: bool, chain: Seq<Actor>, i: int) -> Actor {
    credited(
        chain[i],
        campaign.reward_config.referral_reward_amounts@[i] as int,
        activity_share(campaign, allowed, (i + 1) as nat),
    )
}

/// The records once the first `n` referrers of the chain are credited, each
/// saved in turn under its address.
pub open spec fn with_credits(
    campaign: &Campaign,
    allowed: bool,
    chain: Seq<Actor>,
    n: nat,
) -> Map<Seq<char>, Actor>
    decreases n,
{
    if n == 0 {
        campaign.actors@
    } else {
        with_credits(campaign, allowed, chain, (n - 1) as nat).insert(
            chain[n - 1].address@,
            credit_at(campaign, allowed, chain, n - 1),
        )
    }
}

/// Every credit fits the record it goes to.
pub open spec fn credits_fit(campaign: &Campaign, allowed: bool, chain: Seq<Actor>) -> bool {
    forall|i: int|
        0 <= i < chain.len() ==> credit_fits(
            #[trigger] &chain[i],
            campaign.reward_config.referral_reward_amounts@[i] as int,
            activity_share(campaign, allowed, (i + 1) as nat),
        )
}

/// The counters of the campaign still fit after the participation.
pub open spec fn counters_fit(campaign: &Campaign, referrers: nat) -> bool {
    &&& campaign.state.actor_count + 1 <= u64::MAX
    &&& campaign.state.participation_count + 1 <= u64::MAX
    &&& campaign.state.cumulative_participation_reward_amount
        + campaign.reward_config.participation_reward_amount <= u128::MAX
    &&& campaign.state.cumulative_referral_reward_amount + referral_sum(
        campaign.reward_config.referral_reward_amounts@,
        referrers,
    ) <= u128::MAX
}

/// Why an actor cannot be recorded: it has a record already, or the
/// unlocked funds do not cover what the participation locks.
pub open spec fn join_rejection(
    campaign: &Campaign,
    actor: Seq<char>,
    referrer: Option<String>,
) -> Option<ContractError> {
    if campaign.actors@.contains_key(actor) {
        Some(ContractError::Generic(Violation::AlreadyParticipated))
    } else if !sufficient(
        &campaign.state,
        &campaign.reward_config,
        rewarded_referrers(campaign, actor, referrer).len(),
    ) {
        Some(ContractError::Generic(Violation::InsufficientBalance))
    } else {
        None
    }
}

/// A number that the participation computes leaves its range.
pub open spec fn join_overflows(
    campaign: &Campaign,
    allowed: bool,
    actor: Seq<char>,
    referrer: Option<String>,
) -> bool {
    let chain = rewarded_referrers(campaign, actor, referrer);
    ||| boosting(campaign, allowed) && boost_overflows(
        &campaign.booster.unwrap(),
        &campaign.reward_config,
    )
    ||| !credits_fit(campaign, allowed, chain)
    ||| !counters_fit(campaign, chain.len())
}

/// The pools after the participation.
pub open spec fn booster_after(
    campaign: &Campaign,
    allowed: bool,
    recipients: nat,
    voting_power: Decimal,
) -> Option<BoosterState> {
    if boosting(campaign, allowed) {
        Some(
            boosted(&campaign.booster.unwrap(), &campaign.reward_config, recipients, voting_power),
        )
    } else {
        campaign.booster
    }
}

/// Whether the participation ends the boost: it paid from the boost and
/// left one of the pools empty.
pub open spec fn finishes_boosting(
    campaign: &Campaign,
    allowed: bool,
    recipients: nat,
    voting_power: Decimal,
) -> bool {
    &&& boosting(campaign, allowed)
    &&& {
        let after = boosted(
            &campaign.booster.unwrap(),
            &campaign.reward_config,
            recipients,
            voting_power,
        );
        after.activity_booster_pool == 0 || after.plus_booster_pool == 0
    }
}

/// `after` is `before` with `actor` recorded: its reward and those of its
/// referrers locked and credited, the boost paid, the counters advanced.
pub open spec fn joined(
    before: &Campaign,
    after: &Campaign,
    env: &Env,
    actor: String,
    referrer: Option<String>,
    allowed: bool,
    voting_power: Decimal,
) -> bool {
    let chain = rewarded_referrers(before, actor@, referrer);
    let n = chain.len();
    &&& after.wf()
    &&& after.config == before.config
    &&& after.reward_config == before.reward_config
    &&& after.qualify_participation_context == before.qualify_participation_context
    &&& after.booster == booster_after(before, allowed, n + 1, voting_power)
    &&& after.actors@ == with_credits(before, allowed, chain, n).insert(
        actor@,
        newcomer(
            actor,
            resolved_referrer(before.actors@, actor@, referrer),
            env.block.time,
            before.reward_config.participation_reward_amount,
            activity_share(before, allowed, 0),
            plus_share(before, allowed, voting_power),
        ),
    )
    &&& after.state.balances == before.state.balances
    &&& forall|d: DenomView| #[trigger]
        after.state.locked_of(d) == before.state.locked_of(d) + required_of(
            &before.reward_config,
            n,
            d,
        )
    &&& after.state.actor_count == before.state.actor_count + 1
    &&& after.state.participation_count == before.state.participation_count + 1
    &&& after.state.cumulative_participation_reward_amount
        == before.state.cumulative_participation_reward_amount
        + before.reward_config.participation_reward_amount
    &&& after.state.cumulative_referral_reward_amount
        == before.state.cumulative_referral_reward_amount + referral_sum(
        before.reward_config.referral_reward_amounts@,
        n,
    )
    &&& after.state.active_flag == before.state.active_flag
    &&& after.state.last_active_height == Some(env.block.height)
    &&& after.state.chain_id == before.state.chain_id
}

/// What recording `actor` in `before` gives: an error that leaves the
/// campaign as it was, or the campaign with the actor joined and the
/// response that reports it.
pub open spec fn join_result(
    before: &Campaign,
    after: &Campaign,
    r: Result<ParticipateResponse, ContractError>,
    env: &Env,
    actor: String,
    referrer: Option<String>,
    allowed: bool,
    voting_power: Decimal,
) -> bool {
    match join_rejection(before, actor@, referrer) {
        Some(e) => r == Err::<ParticipateResponse, ContractError>(e) && *after == *before,
        None => if join_overflows(before, allowed, actor@, referrer) {
            r == Err::<ParticipateResponse, ContractError>(ContractError::Overflow) && *after
                == *before
        } else {
            let referrers = rewarded_referrers(before, actor@, referrer).len();
            &&& r matches Ok(response)
            &&& joined(before, after, env, actor, referrer, allowed, voting_power)
            &&& before.state.solvent() ==> after.state.solvent()
            &&& response.messages@ == if finishes_boosting(
                before,
                allowed,
                referrers + 1,
                voting_power,
            ) {
                seq![
                    CampaignMessage::FinishBoosting {
                        campaign_manager: before.config.campaign_manager,
                        campaign: env.contract_address,
                    },
                ]
            } else {
                Seq::<CampaignMessage>::empty()
            }
            &&& response.participation_reward == before.reward_config.participation_reward_amount
            &&& response.referral_rewards@.len() == referrers
            &&& forall|i: int|
                0 <= i < referrers ==> #[trigger] response.referral_rewards@[i] == (
                    rewarded_referrers(before, actor@, referrer)[i].address,
                    before.reward_config.referral_reward_amounts@[i],
                )
            &&& response.activity_booster_reward == activity_share(before, allowed, 0)
            &&& response.plus_booster_reward == plus_share(before, allowed, voting_power)
            &&& response.referrer_activity_booster_rewards@.len() == referrers
            &&& forall|i: int|
                0 <= i < referrers ==> #[trigger] response.referrer_activity_booster_rewards@[i]
                    == activity_share(before, allowed, (i + 1) as nat)
        },
    }
}

/// The referrer that counts for a participation of `actor`.
pub fn resolve_referrer(actors: &AddressMap<Actor>, actor: &String, referrer: Option<String>) -> (r:
    Option<String>)
    requires
        actors.wf(),
    ensures
        r == resolved_referrer(actors@, actor@, referrer),
{
    match referrer {
        Some(address) => {
            if address == *actor {
                None
            } else if actors.contains_key(&address) {
                Some(address)
            } else {
                None
            }
        },
        None => None,
    }
}

/// The records once the first `n` of `records` are saved, each in turn
/// under its address.
pub open spec fn saved(actors: Map<Seq<char>, Actor>, records: Seq<Actor>, n: nat) -> Map<
    Seq<char>,
    Actor,
>
    decreases n,
{
    if n == 0 {
        actors
    } else {
        saved(actors, records, (n - 1) as nat).insert(records[n - 1].address@, records[n - 1])
    }
}

/// Saves every record under its address, in the order given.
pub fn save_all(actors: &mut AddressMap<Actor>, records: &Vec<Actor>)
    requires
        old(actors).wf(),
        keyed_by_address(old(actors)@),
    ensures
        final(actors).wf(),
        keyed_by_address(final(actors)@),
        final(actors)@ == saved(old(actors)@, records@, records@.len()),
{
    let mut i: usize = 0;
    while i < records.len()
        invariant
            i <= records.len(),
            actors.wf(),
            keyed_by_address(actors@),
            actors@ == saved(old(actors)@, records@, i as nat),
        decreases records.len() - i,
    {
        let record = records[i].duplicate();
        record.save(actors);
        i += 1;
    }
}

/// Credits each referrer of the chain with the referral reward of its
/// distance and its activity share; `None` where a record cannot hold its
/// credit.
fn credit_referrers(amounts: &Vec<u128>, chain: &Vec<Actor>, grants: &Vec<u128>) -> (r: Option<
    Vec<Actor>,
>)
    requires
        chain.len() <= amounts.len(),
        grants.len() == chain.len(),
    ensures
        match r {
            Some(v) => {
                &&& v@.len() == chain@.len()
                &&& forall|i: int|
                    0 <= i < chain@.len() ==> credit_fits(
                        #[trigger] &chain@[i],
                        amounts@[i] as int,
                        grants@[i] as int,
                    )
                &&& forall|i: int|
                    0 <= i < chain@.len() ==> #[trigger] v@[i] == credited(
                        chain@[i],
                        amounts@[i] as int,
                        grants@[i] as int,
                    )
            },
            None => exists|i: int|
                0 <= i < chain@.len() && !credit_fits(
                    #[trigger] &chain@[i],
                    amounts@[i] as int,
                    grants@[i] as int,
                ),
        },
{
    let mut updated: Vec<Actor> = Vec::new();
    let mut i: usize = 0;
    while i < chain.len()
        invariant
            i <= chain.len() <= amounts.len(),
            grants.len() == chain.len(),
            updated@.len() == i,
            forall|k: int|
                0 <= k < i ==> credit_fits(
                    #[trigger] &chain@[k],
                    amounts@[k] as int,
                    grants@[k] as int,
                ),
            forall|k: int|
                0 <= k < i ==> #[trigger] updated@[k] == credited(
                    chain@[k],
                    amounts@[k] as int,
                    grants@[k] as int,
                ),
        decreases chain.len() - i,
    {
        let old_record = &chain[i];
        let referral = amounts[i];
        let activity = grants[i];
        let pending = old_record.referral_reward_amount.checked_add(referral);
        let cumulative = old_record.cumulative_referral_reward_amount.checked_add(referral);
        let boosted_amount = old_record.activity_booster_reward_amount.checked_add(activity);
        let count = old_record.referral_count.checked_add(1);
        if pending.is_none() || cumulative.is_none() || boosted_amount.is_none() || count.is_none() {
            assert(!credit_fits(
                &chain@[i as int],
                amounts@[i as int] as int,
                grants@[i as int] as int,
            ));
            return None;
        }
        let mut record = old_record.duplicate();
        record.referral_reward_amount = pending.unwrap();
        record.cumulative_referral_reward_amount = cumulative.unwrap();
        record.activity_booster_reward_amount = boosted_amount.unwrap();
        record.referral_count = count.unwrap();
        updated.push(record);
        i += 1;
    }
    Some(updated)
}

/// Saving the credited records one by one gives the credited map.
proof fn lemma_saved_credits(
    campaign: &Campaign,
    allowed: bool,
    chain: Seq<Actor>,
    updated: Seq<Actor>,
    n: nat,
)
    requires
        n <= chain.len(),
        updated.len() == chain.len(),
        forall|i: int| 0 <= i < chain.len() ==> #[trigger] updated[i] == credit_at(
            campaign,
            allowed,
            chain,
            i,
        ),
    ensures
        saved(campaign.actors@, updated, n) == with_credits(campaign, allowed, chain, n),
    decreases n,
{
    if n > 0 {
        lemma_saved_credits(campaign, allowed, chain, updated, (n - 1) as nat);
        assert(updated[n - 1] == credit_at(campaign, allowed, chain, n - 1));
    }
}

/// Records `actor` as a participant: locks its reward and the rewards of its
/// referrers, credits them, pays the boost where `allowed`, and advances the
/// counters. On any error the campaign stays as it was.
pub fn join(
    campaign: &mut Campaign,
    env: &Env,
    actor: String,
    referrer: Option<String>,
    allowed: bool,
    voting_power: Decimal,
) -> (r: Result<ParticipateResponse, ContractError>)
    requires
        old(campaign).wf(),
    ensures
        join_result(old(campaign), final(campaign), r, env, actor, referrer, allowed, voting_power),
{
    if campaign.actors.contains_key(&actor) {
        return Err(ContractError::Generic(Violation::AlreadyParticipated));
    }
    let limit = campaign.reward_config.referral_reward_amounts.len();
    let resolved = resolve_referrer(&campaign.actors, &actor, referrer);
    let mut record = Actor::new(actor, resolved, &env.block);
    let chain = record.load_referrers(&campaign.actors, limit);
    proof {
        lemma_referrers_bounded(campaign.actors@, record.referrer, limit as nat);
    }
    let n = chain.len();
    if !has_sufficient_balance(&campaign.state, &campaign.reward_config, n) {
        return Err(ContractError::Generic(Violation::InsufficientBalance));
    }
    let pays_boost = allowed && match &campaign.booster {
        Some(b) => campaign.state.participation_count >= b.min_participation_count,
        None => false,
    };
    let mut first: u128 = 0;
    let mut grants: Vec<u128> = Vec::new();
    let mut plus: u128 = 0;
    let mut pools: Option<BoosterState> = campaign.booster;
    if pays_boost {
        let booster = campaign.booster.unwrap();
        match plan_boost(&booster, &campaign.reward_config, n, voting_power) {
            Err(e) => {
                return Err(e);
            },
            Ok(plan) => {
                let BoostPlan { participant_grant, referrer_grants, plus_grant, after } = plan;
                first = participant_grant;
                grants = referrer_grants;
                plus = plus_grant;
                pools = Some(after);
            },
        }
    } else {
        grants = zeros(n);
    }
    assert(forall|i: int|
        0 <= i < n ==> #[trigger] grants@[i] == activity_share(campaign, allowed, (i + 1) as nat));
    let updated = match credit_referrers(
        &campaign.reward_config.referral_reward_amounts,
        &chain,
        &grants,
    ) {
        Some(v) => v,
        None => {
            return Err(ContractError::Overflow);
        },
    };
    let referral_total = checked_referral_sum(&campaign.reward_config.referral_reward_amounts, n);
    let base = campaign.reward_config.participation_reward_amount;
    let actor_count = campaign.state.actor_count.checked_add(1);
    let participation_count = campaign.state.participation_count.checked_add(1);
    let cumulative_participation = campaign.state.cumulative_participation_reward_amount.checked_add(
        base,
    );
    let cumulative_referral = match referral_total {
        Some(v) => campaign.state.cumulative_referral_reward_amount.checked_add(v),
        None => None,
    };
    if actor_count.is_none() || participation_count.is_none() || cumulative_participation.is_none()
        || cumulative_referral.is_none() {
        return Err(ContractError::Overflow);
    }
    let referral_total = referral_total.unwrap();
    assert(!join_overflows(old(campaign), allowed, record.address@, referrer));
    let referral_rewards = referral_credits(
        &chain,
        &campaign.reward_config.referral_reward_amounts,
    );

    let ghost before = *campaign;
    let referral_denom = Denom::Token(campaign.reward_config.referral_reward_token.clone());
    let participation_denom = campaign.reward_config.participation_reward_denom.duplicate();
    campaign.state.lock_balance(&participation_denom, base);
    campaign.state.lock_balance(&referral_denom, referral_total);
    campaign.state.actor_count = actor_count.unwrap();
    campaign.state.participation_count = participation_count.unwrap();
    campaign.state.cumulative_participation_reward_amount = cumulative_participation.unwrap();
    campaign.state.cumulative_referral_reward_amount = cumulative_referral.unwrap();
    campaign.state.last_active_height = Some(env.block.height);
    proof {
        assert forall|d: DenomView| #[trigger]
            campaign.state.locked_of(d) == before.state.locked_of(d) + required_of(
                &before.reward_config,
                n as nat,
                d,
            ) by {}
        if before.state.solvent() {
            assert forall|d: DenomView| #[trigger]
                campaign.state.locked_of(d) <= campaign.state.total_of(d) by {
                assert(before.state.locked_of(d) <= before.state.total_of(d));
            }
        }
        lemma_saved_credits(&before, allowed, chain@, updated@, n as nat);
    }
    save_all(&mut campaign.actors, &updated);
    record.participation_reward_amount = base;
    record.cumulative_participation_reward_amount = base;
    record.activity_booster_reward_amount = first;
    record.plus_booster_reward_amount = plus;
    record.participation_count = 1;
    record.save(&mut campaign.actors);
    campaign.booster = pools;

    let mut messages: Vec<CampaignMessage> = Vec::new();
    if pays_boost {
        let left = pools.unwrap();
        if left.activity_booster_pool == 0 || left.plus_booster_pool == 0 {
            messages.push(
                CampaignMessage::FinishBoosting {
                    campaign_manager: campaign.config.campaign_manager.clone(),
                    campaign: env.contract_address.clone(),
                },
            );
        }
    }
    Ok(
        ParticipateResponse {
            messages,
            participation_reward: base,
            referral_rewards,
            activity_booster_reward: first,
            plus_booster_reward: plus,
            referrer_activity_booster_rewards: grants,
        },
    )
}

/// The referrers of the chain, each with the referral reward of its
/// distance.
fn referral_credits(chain: &Vec<Actor>, amounts: &Vec<u128>) -> (r: Vec<(String, u128)>)
    requires
        chain.len() <= amounts.len(),
    ensures
        r@.len() == chain@.len(),
        forall|i: int| 0 <= i < chain@.len() ==> #[trigger] r@[i] == (chain@[i].address, amounts@[i]),
{
    let mut credits: Vec<(String, u128)> = Vec::new();
    let mut i: usize = 0;
    while i < chain.len()
        invariant
            i <= chain.len() <= amounts.len(),
            credits@.len() == i,
            forall|k: int| 0 <= k < i ==> #[trigger] credits@[k] == (chain@[k].address, amounts@[k]),
        decreases chain.len() - i,
    {
        credits.push((chain[i].address.clone(), amounts[i]));
        i += 1;
    }
    credits
}

/// `n` zero amounts.
fn zeros(n: usize) -> (r: Vec<u128>)
    ensures
        r@.len() == n,
        forall|i: int| 0 <= i < n ==> #[trigger] r@[i] == 0,
{
    let mut v: Vec<u128> = Vec::new();
    let mut i: usize = 0;
    while i < n
        invariant
            i <= n,
            v@.len() == i,
            forall|k: int| 0 <= k < i ==> #[trigger] v@[k] == 0,
        decreases n - i,
    {
        v.push(0);
        i += 1;
    }
    v
}

/// The id under which the qualifier's answer comes back.
pub const REPLY_QUALIFY_PARTICIPATION: u64 = 1;

/// Why a participation is turned away before anything is recorded: the
/// campaign is not active, the sender may not act for the actor, the actor
/// took part before, or the unlocked funds do not cover the rewards.
pub open spec fn participate_rejection(
    campaign: &Campaign,
    env: &Env,
    sender: Seq<char>,
    deactivate_period: u64,
    actor: Seq<char>,
    referrer: Option<String>,
) -> Option<ContractError> {
    if !campaign.state.active_at(deactivate_period, env.block.height, env.block.chain_id@) {
        Some(ContractError::Generic(Violation::InactiveCampaign))
    } else if !authorized(campaign, sender, actor) {
        Some(ContractError::Unauthorized)
    } else {
        join_rejection(campaign, actor, referrer)
    }
}

/// Whether `actor` can be recorded: it has no record yet and the unlocked
/// funds cover what its participation locks.
pub fn check_join(campaign: &Campaign, actor: &String, referrer: &Option<String>) -> (r: Result<
    (),
    ContractError,
>)
    requires
        campaign.wf(),
    ensures
        match join_rejection(campaign, actor@, *referrer) {
            Some(e) => r == Err::<(), ContractError>(e),
            None => r.is_ok(),
        },
{
    if campaign.actors.contains_key(actor) {
        return Err(ContractError::Generic(Violation::AlreadyParticipated));
    }
    let limit = campaign.reward_config.referral_reward_amounts.len();
    let resolved = resolve_referrer(&campaign.actors, actor, duplicate_address(referrer));
    let chain = referrers(&campaign.actors, &resolved, limit);
    proof {
        lemma_referrers_bounded(campaign.actors@, resolved, limit as nat);
    }
    if !has_sufficient_balance(&campaign.state, &campaign.reward_config, chain.len()) {
        return Err(ContractError::Generic(Violation::InsufficientBalance));
    }
    Ok(())
}

/// Takes `actor` into the campaign on behalf of `sender`.
///
/// `deactivate_period` is the period after which an idle campaign lapses
/// and `voting_power` the actor's share of the governance stake, both as the
/// campaign manager and the governance report them. `referrer` is the
/// address that brought the actor in, where it could be resolved.
///
/// Where the campaign has a qualifier, the participation is kept pending and
/// the qualifier is asked; otherwise the actor is recorded at once. On any
/// error the campaign stays as it was.
pub fn participate(
    campaign: &mut Campaign,
    env: &Env,
    sender: &String,
    deactivate_period: u64,
    voting_power: Decimal,
    actor: String,
    referrer: Option<String>,
) -> (r: Result<ParticipateResponse, ContractError>)
    requires
        old(campaign).wf(),
    ensures
        final(campaign).wf(),
        old(campaign).state.solvent() ==> final(campaign).state.solvent(),
        match participate_rejection(old(campaign), env, sender@, deactivate_period, actor@, referrer) {
            Some(e) => {
                &&& r == Err::<ParticipateResponse, ContractError>(e)
                &&& *final(campaign) == *old(campaign)
            },
            None => match old(campaign).config.qualifier {
                Some(qualifier) => {
                    &&& r matches Ok(response)
                    &&& response.messages@ == seq![
                        CampaignMessage::Qualify {
                            qualifier,
                            msg: QualificationMsg {
                                campaign: env.contract_address,
                                sender: *sender,
                                actor,
                                referrer,
                            },
                            reply_id: REPLY_QUALIFY_PARTICIPATION,
                        },
                    ]
                    &&& response.participation_reward == 0
                    &&& response.referral_rewards@.len() == 0
                    &&& response.activity_booster_reward == 0
                    &&& response.plus_booster_reward == 0
                    &&& response.referrer_activity_booster_rewards@.len() == 0
                    &&& *final(campaign) == (Campaign {
                        qualify_participation_context: Some(
                            QualifyParticipationContext { actor, referrer },
                        ),
                        ..*old(campaign)
                    })
                },
                None => join_result(
                    old(campaign),
                    final(campaign),
                    r,
                    env,
                    actor,
                    referrer,
                    true,
                    voting_power,
                ),
            },
        },
{
    if !campaign.state.is_active(deactivate_period, &env.block) {
        return Err(ContractError::Generic(Violation::InactiveCampaign));
    }
    let allowed = *sender == actor || contains_address(&campaign.config.proxy_whitelist, sender)
        || campaign.config.is_admin(sender);
    if !allowed {
        return Err(ContractError::Unauthorized);
    }
    let qualifier = duplicate_address(&campaign.config.qualifier);
    match qualifier {
        None => join(campaign, env, actor, referrer, true, voting_power),
        Some(qualifier) => {
            match check_join(campaign, &actor, &referrer) {
                Err(e) => {
                    return Err(e);
                },
                Ok(_) => {},
            }
            let mut messages: Vec<CampaignMessage> = Vec::new();
            messages.push(
                CampaignMessage::Qualify {
                    qualifier,
                    msg: QualificationMsg {
                        campaign: env.contract_address.clone(),
                        sender: sender.clone(),
                        actor: actor.clone(),
                        referrer: duplicate_address(&referrer),
                    },
                    reply_id: REPLY_QUALIFY_PARTICIPATION,
                },
            );
            QualifyParticipationContext { actor, referrer }.save(campaign);
            Ok(
                ParticipateResponse {
                    messages,
                    participation_reward: 0,
                    referral_rewards: Vec::new(),
                    activity_booster_reward: 0,
                    plus_booster_reward: 0,
                    referrer_activity_booster_rewards: Vec::new(),
                },
            )
        },
    }
}

/// Continues the pending participation with the qualifier's answer.
///
/// The pending participation is forgotten whatever the answer. An eligible
/// actor is recorded with everything a participation pays; one that was
/// rejected but may continue is recorded without a boost; one that was
/// stopped is not recorded, and the qualifier's reason is the error. With
/// nothing pending the call fails and changes nothing.
pub fn participate_qualify_result(
    campaign: &mut Campaign,
    env: &Env,
    voting_power: Decimal,
    result: QualificationResult,
) -> (r: Result<ParticipateResponse, ContractError>)
    requires
        old(campaign).wf(),
    ensures
        final(campaign).wf(),
        old(campaign).state.solvent() ==> final(campaign).state.solvent(),
        match old(campaign).qualify_participation_context {
            None => {
                &&& r == Err::<ParticipateResponse, ContractError>(
                    ContractError::NotFound(Missing::QualifyParticipationContext),
                )
                &&& *final(campaign) == *old(campaign)
            },
            Some(context) => {
                let cleared = Campaign { qualify_participation_context: None, ..*old(campaign) };
                if result.continue_option == QualifiedContinueOption::RejectedStop {
                    &&& r == Err::<ParticipateResponse, ContractError>(
                        ContractError::Generic(Violation::QualificationRejected(result.reason)),
                    )
                    &&& *final(campaign) == cleared
                } else {
                    join_result(
                        &cleared,
                        final(campaign),
                        r,
                        env,
                        context.actor,
                        context.referrer,
                        result.continue_option == QualifiedContinueOption::Eligible,
                        voting_power,
                    )
                }
            },
        },
{
    let context = match QualifyParticipationContext::load(campaign) {
        Err(e) => {
            return Err(e);
        },
        Ok(c) => c,
    };
    QualifyParticipationContext::clear(campaign);
    match result.continue_option {
        QualifiedContinueOption::RejectedStop => Err(
            ContractError::Generic(Violation::QualificationRejected(result.reason)),
        ),
        QualifiedContinueOption::RejectedContinue => join(
            campaign,
            env,
            context.actor,
            context.referrer,
            false,
            voting_power,
        ),
        QualifiedContinueOption::Eligible => join(
            campaign,
            env,
            context.actor,
            context.referrer,
            true,
            voting_power,
        ),
    }
}

/// Hands a reply to the call that waits for it; a reply under an unknown id
/// fails and changes nothing.
pub fn reply(
    campaign: &mut Campaign,
    env: &Env,
    voting_power: Decimal,
    id: u64,
    result: QualificationResult,
) -> (r: Result<ParticipateResponse, ContractError>)
    requires
        old(campaign).wf(),
    ensures
        final(campaign).wf(),
        old(campaign).state.solvent() ==> final(campaign).state.solvent(),
        id != REPLY_QUALIFY_PARTICIPATION ==> r == Err::<ParticipateResponse, ContractError>(
            ContractError::NotFound(Missing::ReplyId),
        ) && *final(campaign) == *old(campaign),
        id == REPLY_QUALIFY_PARTICIPATION ==> match old(campaign).qualify_participation_context {
            None => {
                &&& r == Err::<ParticipateResponse, ContractError>(
                    ContractError::NotFound(Missing::QualifyParticipationContext),
                )
                &&& *final(campaign) == *old(campaign)
            },
            Some(context) => {
                let cleared = Campaign { qualify_participation_context: None, ..*old(campaign) };
                if result.continue_option == QualifiedContinueOption::RejectedStop {
                    &&& r == Err::<ParticipateResponse, ContractError>(
                        ContractError::Generic(Violation::QualificationRejected(result.reason)),
                    )
                    &&& *final(campaign) == cleared
                } else {
                    join_result(
                        &cleared,
                        final(campaign),
                        r,
                        env,
                        context.actor,
                        context.referrer,
                        result.continue_option == QualifiedContinueOption::Eligible,
                        voting_power,
                    )
                }
            },
        },
{
    if id == REPLY_QUALIFY_PARTICIPATION {
        participate_qualify_result(campaign, env, voting_power, result)
    } else {
        Err(ContractError::NotFound(Missing::ReplyId))
    }
}

} // verus!
