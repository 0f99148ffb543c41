//! What can be asked of a campaign.

use vstd::prelude::*;
use vstd::slice::*;
use vstd::string::*;
use crate::campaign::query_msgs::{
    ActorResponse, ActorsResponse, CampaignConfigResponse, CampaignStateResponse,
    RewardConfigResponse, ShareUrlResponse,
};
use crate::campaign::states::{addresses, page_limit, Actor, Campaign};
use crate::common::{
    duplicate_address, execution_views, BlockInfo, ContractError, Denom, Execution, Missing,
    OrderBy,
};
use crate::sorting::duplicate_execution;
use crate::store::{is_page, view_of};

verus! {

/// A copy of the entries.
pub fn duplicate_entries(entries: &Vec<(Denom, u128)>) -> (r: Vec<(Denom, u128)>)
    ensures
        r@ == entries@,
{
    let mut v: Vec<(Denom, u128)> = Vec::new();
    let mut i: usize = 0;
    while i < entries.len()
        invariant
            i <= entries.len(),
            v@ == entries@.subrange(0, i as int),
        decreases entries.len() - i,
    {
        v.push((entries[i].0.duplicate(), entries[i].1));
        assert(entries@.subrange(0, i as int).push(entries@[i as int]) =~= entries@.subrange(
            0,
            i + 1,
        ));
        i += 1;
    }
    assert(entries@.subrange(0, entries@.len() as int) =~= entries@);
    v
}

/// Copies of the executions, in order.
pub fn duplicate_executions(executions: &Vec<Execution>) -> (r: Vec<Execution>)
    ensures
        execution_views(r@) == execution_views(executions@),
{
    let mut v: Vec<Execution> = Vec::new();
    let mut i: usize = 0;
    while i < executions.len()
        invariant
            i <= executions.len(),
            execution_views(v@) == execution_views(executions@.subrange(0, i as int)),
        decreases executions.len() - i,
    {
        let ghost before = v@;
        v.push(duplicate_execution(&executions[i]));
        assert(execution_views(before.push(v@[i as int])) =~= execution_views(
            executions@.subrange(0, i + 1),
        )) by {
            assert(executions@.subrange(0, i + 1) =~= executions@.subrange(0, i as int).push(
                executions@[i as int],
            ));
            assert(execution_views(before.push(v@[i as int])) =~= execution_views(before).push(
                v@[i as int]@,
            ));
            assert(execution_views(executions@.subrange(0, i as int).push(executions@[i as int]))
                =~= execution_views(executions@.subrange(0, i as int)).push(
                executions@[i as int]@,
            ));
        }
        i += 1;
    }
    assert(executions@.subrange(0, executions@.len() as int) =~= executions@);
    v
}

/// What the campaign is and who runs it.
pub fn get_campaign_config(campaign: &Campaign) -> (r: CampaignConfigResponse)
    ensures
        r.governance == campaign.config.governance,
        r.campaign_manager == campaign.config.campaign_manager,
        r.fund_manager == campaign.config.fund_manager,
        r.title == campaign.config.title,
        r.description == campaign.config.description,
        r.url == campaign.config.url,
        r.parameter_key == campaign.config.parameter_key,
        r.qualifier == campaign.config.qualifier,
        execution_views(r.executions@) == execution_views(campaign.config.executions@),
        r.admin == campaign.config.admin,
        r.creator == campaign.config.creator,
        r.created_at == campaign.config.created_at,
{
    let config = &campaign.config;
    CampaignConfigResponse {
        governance: config.governance.clone(),
        campaign_manager: config.campaign_manager.clone(),
        fund_manager: config.fund_manager.clone(),
        title: config.title.clone(),
        description: config.description.clone(),
        url: config.url.clone(),
        parameter_key: config.parameter_key.clone(),
        qualifier: duplicate_address(&config.qualifier),
        executions: duplicate_executions(&config.executions),
        admin: config.admin.clone(),
        creator: config.creator.clone(),
        created_at: config.created_at,
    }
}

/// What a participation pays.
pub fn get_reward_config(campaign: &Campaign) -> (r: RewardConfigResponse)
    ensures
        r.participation_reward_denom == campaign.reward_config.participation_reward_denom,
        r.participation_reward_amount == campaign.reward_config.participation_reward_amount,
        r.referral_reward_token == campaign.reward_config.referral_reward_token,
        r.referral_reward_amounts@ == campaign.reward_config.referral_reward_amounts@,
{
    let config = &campaign.reward_config;
    let mut amounts: Vec<u128> = Vec::new();
    let mut i: usize = 0;
    while i < config.referral_reward_amounts.len()
        invariant
            i <= config.referral_reward_amounts.len(),
            amounts@ == config.referral_reward_amounts@.subrange(0, i as int),
        decreases config.referral_reward_amounts.len() - i,
    {
        amounts.push(config.referral_reward_amounts[i]);
        assert(config.referral_reward_amounts@.subrange(0, i as int).push(
            config.referral_reward_amounts@[i as int],
        ) =~= config.referral_reward_amounts@.subrange(0, i + 1));
        i += 1;
    }
    assert(config.referral_reward_amounts@.subrange(
        0,
        config.referral_reward_amounts@.len() as int,
    ) =~= config.referral_reward_amounts@);
    RewardConfigResponse {
        participation_reward_denom: config.participation_reward_denom.duplicate(),
        participation_reward_amount: config.participation_reward_amount,
        referral_reward_token: config.referral_reward_token.clone(),
        referral_reward_amounts: amounts,
    }
}

/// The counters and funds of the campaign, and whether it runs in `block`.
/// `deactivate_period` is the period after which an idle campaign lapses,
/// as the campaign manager reports it.
pub fn get_campaign_state(campaign: &Campaign, deactivate_period: u64, block: &BlockInfo) -> (r:
    CampaignStateResponse)
    ensures
        r.actor_count == campaign.state.actor_count,
        r.participation_count == campaign.state.participation_count,
        r.cumulative_participation_reward_amount
            == campaign.state.cumulative_participation_reward_amount,
        r.cumulative_referral_reward_amount == campaign.state.cumulative_referral_reward_amount,
        r.locked_balances@ == campaign.state.locked_balances@,
        r.balances@ == campaign.state.balances@,
        r.is_active == campaign.state.active_at(deactivate_period, block.height, block.chain_id@),
        r.is_pending == campaign.state.last_active_height.is_none(),
{
    let state = &campaign.state;
    CampaignStateResponse {
        actor_count: state.actor_count,
        participation_count: state.participation_count,
        cumulative_participation_reward_amount: state.cumulative_participation_reward_amount,
        cumulative_referral_reward_amount: state.cumulative_referral_reward_amount,
        locked_balances: duplicate_entries(&state.locked_balances),
        balances: duplicate_entries(&state.balances),
        is_active: state.is_active(deactivate_period, block),
        is_pending: state.is_pending(),
    }
}

/// The byte of a question mark.
pub const QUESTION_MARK: u8 = 63;

/// Whether the text holds a question mark.
pub open spec fn has_query(url: Seq<char>) -> bool {
    vstd::utf8::encode_utf8(url).contains(QUESTION_MARK)
}

/// `url` with the parameter `key=value` added to its query: behind a
/// question mark where the address has no query yet, else behind an
/// ampersand.
pub open spec fn with_query_parameter(url: Seq<char>, key: Seq<char>, value: Seq<char>) -> Seq<
    char,
> {
    url + (if has_query(url) {
        "&"@
    } else {
        "?"@
    }) + key + "="@ + value
}

/// `url` with the parameter `key=value` added to its query.
pub fn put_query_parameter(url: &String, key: &String, value: &String) -> (r: String)
    ensures
        r@ == with_query_parameter(url@, key@, value@),
{
    let bytes = url.as_str().as_bytes();
    let mut found = false;
    let mut i: usize = 0;
    while i < bytes.len()
        invariant
            i <= bytes.len(),
            found == bytes@.subrange(0, i as int).contains(QUESTION_MARK),
        decreases bytes.len() - i,
    {
        let ghost seen = bytes@.subrange(0, i as int);
        let ghost next = bytes@.subrange(0, i + 1);
        assert(next =~= seen.push(bytes@[i as int]));
        proof {
            if seen.contains(QUESTION_MARK) {
                let k = choose|k: int| 0 <= k < seen.len() && seen[k] == QUESTION_MARK;
                assert(next[k] == QUESTION_MARK);
            }
            if next.contains(QUESTION_MARK) && bytes@[i as int] != QUESTION_MARK {
                let k = choose|k: int| 0 <= k < next.len() && next[k] == QUESTION_MARK;
                assert(seen[k] == QUESTION_MARK);
            }
            if bytes@[i as int] == QUESTION_MARK {
                assert(next[i as int] == QUESTION_MARK);
            }
        }
        if bytes[i] == QUESTION_MARK {
            found = true;
        }
        i += 1;
    }
    assert(bytes@.subrange(0, bytes@.len() as int) =~= bytes@);
    let mut result = url.clone();
    if found {
        result.append("&");
    } else {
        result.append("?");
    }
    result.append(key.as_str());
    result.append("=");
    result.append(value.as_str());
    result
}

/// The link by which `address` brings others into the campaign: the address
/// of the campaign's page with the compressed address as the parameter that
/// the campaign names.
pub fn get_share_url(campaign: &Campaign, address: String, compressed: String) -> (r:
    ShareUrlResponse)
    ensures
        r.address == address,
        r.compressed == compressed,
        r.url@ == with_query_parameter(
            campaign.config.url@,
            campaign.config.parameter_key@,
            compressed@,
        ),
{
    let url = put_query_parameter(&campaign.config.url, &campaign.config.parameter_key, &compressed);
    ShareUrlResponse { address, compressed, url }
}

/// What a record shows of an actor.
pub open spec fn shown(actor: &Actor) -> ActorResponse {
    ActorResponse {
        address: actor.address,
        referrer_address: actor.referrer,
        participation_reward_amount: actor.participation_reward_amount,
        referral_reward_amount: actor.referral_reward_amount,
        cumulative_participation_reward_amount: actor.cumulative_participation_reward_amount,
        cumulative_referral_reward_amount: actor.cumulative_referral_reward_amount,
        participation_count: actor.participation_count,
        referral_count: actor.referral_count,
        last_participated_at: actor.last_participated_at,
    }
}

/// What the record shows of the actor.
pub fn show(actor: &Actor) -> (r: ActorResponse)
    ensures
        r == shown(actor),
{
    ActorResponse {
        address: actor.address.clone(),
        referrer_address: duplicate_address(&actor.referrer),
        participation_reward_amount: actor.participation_reward_amount,
        referral_reward_amount: actor.referral_reward_amount,
        cumulative_participation_reward_amount: actor.cumulative_participation_reward_amount,
        cumulative_referral_reward_amount: actor.cumulative_referral_reward_amount,
        participation_count: actor.participation_count,
        referral_count: actor.referral_count,
        last_participated_at: actor.last_participated_at,
    }
}

/// The record of the actor at `address`.
pub fn get_actor(campaign: &Campaign, address: &String) -> (r: Result<ActorResponse, ContractError>)
    requires
        campaign.wf(),
    ensures
        match r {
            Ok(response) => campaign.actors@.contains_key(address@) && response == shown(
                &campaign.actors@[address@],
            ),
            Err(e) => !campaign.actors@.contains_key(address@) && e == ContractError::NotFound(
                Missing::Actor,
            ),
        },
{
    match campaign.actors.get(address) {
        Some(actor) => Ok(show(actor)),
        None => Err(ContractError::NotFound(Missing::Actor)),
    }
}

/// The addresses in the responses, in order.
pub open spec fn shown_addresses(responses: Seq<ActorResponse>) -> Seq<Seq<char>> {
    responses.map_values(|a: ActorResponse| a.address@)
}

/// One page of the actors in the order of their addresses: upwards where
/// that is asked for, else downwards; starting behind `start_after`; at
/// most `limit` of them, where no limit is given 10, and never more than 30.
pub fn query_participations(
    campaign: &Campaign,
    start_after: Option<String>,
    limit: Option<u32>,
    order_by: Option<OrderBy>,
) -> (r: ActorsResponse)
    requires
        campaign.wf(),
    ensures
        is_page(
            campaign.actors@,
            view_of(start_after),
            order_by == Some(OrderBy::Asc),
            page_limit(limit) as nat,
            shown_addresses(r.actors@),
        ),
        forall|i: int|
            0 <= i < r.actors@.len() ==> #[trigger] r.actors@[i] == shown(
                &campaign.actors@[r.actors@[i].address@],
            ),
{
    let page = Actor::query(&campaign.actors, start_after, limit, order_by);
    let mut actors: Vec<ActorResponse> = Vec::new();
    let mut i: usize = 0;
    while i < page.len()
        invariant
            i <= page.len(),
            actors@.len() == i,
            forall|k: int| 0 <= k < i ==> #[trigger] actors@[k] == shown(&page@[k]),
        decreases page.len() - i,
    {
        actors.push(show(&page[i]));
        i += 1;
    }
    assert(shown_addresses(actors@) =~= addresses(page@));
    ActorsResponse { actors }
}

} // verus!
