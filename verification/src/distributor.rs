//! The distributor: the fund that boosts campaigns, and how a boost is split.

use vstd::prelude::*;
use crate::common::{ContractError, Denom, Violation};
use crate::math::{Decimal, DECIMAL_FRACTIONAL};

verus! {

/// How a boost is split among its three boosters.
#[derive(Clone, Copy, Debug, PartialEq, Eq, Structural)]
pub struct BoosterConfig {
    pub drop_booster_ratio: Decimal,
    pub activity_booster_ratio: Decimal,
    pub plus_booster_ratio: Decimal,
    pub activity_booster_multiplier: Decimal,
    pub min_participation_count: u64,
}

impl Default for BoosterConfig {
    fn default() -> (r: BoosterConfig)
        ensures
            r.drop_booster_ratio.atomics == 0,
            r.activity_booster_ratio.atomics == 0,
            r.plus_booster_ratio.atomics == 0,
            r.activity_booster_multiplier.atomics == 0,
            r.min_participation_count == 0,
    {
        BoosterConfig {
            drop_booster_ratio: Decimal::zero(),
            activity_booster_ratio: Decimal::zero(),
            plus_booster_ratio: Decimal::zero(),
            activity_booster_multiplier: Decimal::zero(),
            min_participation_count: 0,
        }
    }
}

impl BoosterConfig {
    /// The three ratios add up to exactly one.
    pub open spec fn valid(&self) -> bool {
        self.drop_booster_ratio.atomics + self.activity_booster_ratio.atomics
            + self.plus_booster_ratio.atomics == DECIMAL_FRACTIONAL
    }

    /// Rejects a split whose ratios do not add up to one.
    pub fn validate(&self) -> (r: Result<(), ContractError>)
        ensures
            r.is_ok() <==> self.valid(),
            r.is_err() ==> r == Err::<(), ContractError>(
                ContractError::Generic(Violation::InvalidBoostConfig),
            ),
    {
        let partial = self.drop_booster_ratio.checked_add(&self.activity_booster_ratio);
        let sum = match partial {
            Some(p) => p.checked_add(&self.plus_booster_ratio),
            None => None,
        };
        match sum {
            Some(total) => {
                if total.atomics == DECIMAL_FRACTIONAL {
                    Ok(())
                } else {
                    Err(ContractError::Generic(Violation::InvalidBoostConfig))
                }
            },
            None => Err(ContractError::Generic(Violation::InvalidBoostConfig)),
        }
    }
}

/// What the distributor is set up with.
#[derive(Clone, Debug, PartialEq, Eq)]
pub struct InstantiateMsg {
    pub governance: String,
    pub token_contract: String,
    pub terraswap_router: String,
    pub booster_config: BoosterConfig,
}

/// A call on the distributor.
#[derive(Clone, Debug, PartialEq, Eq)]
#[allow(inconsistent_fields)]
pub enum ExecuteMsg {
    Spend { recipient: String, amount: u128 },
    AddCampaign { campaign_addr: String, spend_limit: u128 },
    RemoveCampaign { campaign_addr: String },
    UpdateBoosterConfig { booster_config: BoosterConfig },
    Swap { denom: Denom, amount: Option<u128>, route: Option<Vec<Denom>> },
}

/// What a migration is given: nothing.
#[derive(Clone, Copy, Debug, PartialEq, Eq, Structural)]
pub struct MigrateMsg {}

} // verus!
