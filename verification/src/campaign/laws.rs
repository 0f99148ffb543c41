//! What holds of every campaign, whatever the calls made on it.

use vstd::prelude::*;
use crate::campaign::executions::{
    join_result, joined, participate_rejection, resolved_referrer, rewarded_referrers,
    with_credits, ParticipateResponse,
};
use crate::campaign::states::{lemma_referrers_bounded, Actor, Campaign};
use crate::common::{ContractError, Env, Violation};
use crate::math::Decimal;

verus! {

/// Recording an actor never locks more than the campaign holds: a solvent
/// campaign stays solvent, whether the actor is recorded or turned away.
pub proof fn lemma_join_keeps_solvency(
    before: &Campaign,
    after: &Campaign,
    r: Result<ParticipateResponse, ContractError>,
    env: &Env,
    actor: String,
    referrer: Option<String>,
    allowed: bool,
    voting_power: Decimal,
)
    requires
        before.state.solvent(),
        join_result(before, after, r, env, actor, referrer, allowed, voting_power),
    ensures
        after.state.solvent(),
{
}

/// An actor takes part once: in the campaign as a participation left it, a
/// second participation of the same actor, sent by the same sender in the
/// same block, is turned away as already participated, whatever referrer it
/// names.
pub proof fn lemma_participates_once(
    before: &Campaign,
    after: &Campaign,
    env: &Env,
    sender: Seq<char>,
    deactivate_period: u64,
    actor: String,
    referrer: Option<String>,
    allowed: bool,
    voting_power: Decimal,
    second_referrer: Option<String>,
)
    requires
        participate_rejection(before, env, sender, deactivate_period, actor@, referrer).is_none(),
        joined(before, after, env, actor, referrer, allowed, voting_power),
    ensures
        participate_rejection(after, env, sender, deactivate_period, actor@, second_referrer)
            == Some(ContractError::Generic(Violation::AlreadyParticipated)),
{
    assert(after.actors@.contains_key(actor@));
}

/// Crediting the chain changes no record but those of the chain.
pub proof fn lemma_credits_touch_chain_only(
    campaign: &Campaign,
    allowed: bool,
    chain: Seq<Actor>,
    n: nat,
    address: Seq<char>,
)
    requires
        n <= chain.len(),
        forall|i: int| 0 <= i < n ==> (#[trigger] chain[i]).address@ != address,
    ensures
        with_credits(campaign, allowed, chain, n).contains_key(address)
            == campaign.actors@.contains_key(address),
        with_credits(campaign, allowed, chain, n)[address] == campaign.actors@[address],
    decreases n,
{
    if n > 0 {
        lemma_credits_touch_chain_only(campaign, allowed, chain, (n - 1) as nat, address);
        assert(chain[n - 1].address@ != address);
    }
}

/// Rewards reach no further than the reward scheme is long: a participation
/// credits at most as many referrers as the scheme has amounts, and the
/// record of every other address, however it is related to the participant,
/// stays as it was.
pub proof fn lemma_referral_depth_limit(
    before: &Campaign,
    after: &Campaign,
    env: &Env,
    actor: String,
    referrer: Option<String>,
    allowed: bool,
    voting_power: Decimal,
    address: Seq<char>,
)
    requires
        joined(before, after, env, actor, referrer, allowed, voting_power),
        address != actor@,
        forall|i: int|
            0 <= i < rewarded_referrers(before, actor@, referrer).len() ==> (
            #[trigger] rewarded_referrers(before, actor@, referrer)[i]).address@ != address,
    ensures
        rewarded_referrers(before, actor@, referrer).len()
            <= before.reward_config.referral_reward_amounts@.len(),
        after.actors@.contains_key(address) == before.actors@.contains_key(address),
        after.actors@[address] == before.actors@[address],
{
    let chain = rewarded_referrers(before, actor@, referrer);
    lemma_referrers_bounded(
        before.actors@,
        resolved_referrer(before.actors@, actor@, referrer),
        before.reward_config.referral_reward_amounts@.len(),
    );
    lemma_credits_touch_chain_only(before, allowed, chain, chain.len(), address);
}

} // verus!
