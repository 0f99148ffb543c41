//! What can be asked about the rules for campaigns.

use vstd::prelude::*;
use crate::governance::states::Governance;
use crate::math::Decimal;

verus! {

/// The rules that governance sets for the campaigns.
#[derive(Clone, Debug, PartialEq, Eq)]
pub struct ValkyrieConfigResponse {
    pub burn_contract: String,
    pub reward_withdraw_burn_rate: Decimal,
    pub campaign_deactivate_period: u64,
}

/// The rules that governance sets for the campaigns.
pub fn get_valkyrie_config(governance: &Governance) -> (r: ValkyrieConfigResponse)
    ensures
        r.burn_contract == governance.valkyrie_config.burn_contract,
        r.reward_withdraw_burn_rate == governance.valkyrie_config.reward_withdraw_burn_rate,
        r.campaign_deactivate_period == governance.valkyrie_config.campaign_deactivate_period,
{
    ValkyrieConfigResponse {
        burn_contract: governance.valkyrie_config.burn_contract.clone(),
        reward_withdraw_burn_rate: governance.valkyrie_config.reward_withdraw_burn_rate,
        campaign_deactivate_period: governance.valkyrie_config.campaign_deactivate_period,
    }
}

} // verus!
