//! A qualifier that lets those actors take part who hold enough: a minimum
//! of each of some tokens, and a minimum of staked luna.

use vstd::prelude::*;
use vstd::string::*;
use crate::common::{ContractError, Denom, Violation};
use crate::qualifier::{QualificationResult, QualifiedContinueOption};

verus! {

/// Who runs the qualifier, and what it answers for an actor that holds too
/// little.
#[derive(Clone, Debug, PartialEq, Eq)]
pub struct QualifierConfig {
    pub admin: String,
    pub continue_option_on_fail: QualifiedContinueOption,
}

/// What an actor must hold.
#[derive(Clone, Debug, PartialEq, Eq)]
pub struct Requirement {
    /// The least balance in each of these denominations.
    pub min_token_balances: Vec<(Denom, u128)>,
    pub min_luna_staking: u128,
}

/// Everything the qualifier keeps.
#[derive(Clone, Debug, PartialEq, Eq)]
pub struct Qualifier {
    pub config: QualifierConfig,
    pub requirement: Requirement,
}

/// What the qualifier is set up with.
#[derive(Clone, Debug, PartialEq, Eq)]
pub struct InstantiateMsg {
    pub continue_option_on_fail: QualifiedContinueOption,
    pub min_token_balances: Vec<(Denom, u128)>,
    pub min_luna_staking: u128,
}

/// A qualifier that `sender` runs.
pub fn instantiate(sender: String, msg: InstantiateMsg) -> (r: Qualifier)
    ensures
        r.config.admin == sender,
        r.config.continue_option_on_fail == msg.continue_option_on_fail,
        r.requirement.min_token_balances == msg.min_token_balances,
        r.requirement.min_luna_staking == msg.min_luna_staking,
{
    Qualifier {
        config: QualifierConfig {
            admin: sender,
            continue_option_on_fail: msg.continue_option_on_fail,
        },
        requirement: Requirement {
            min_token_balances: msg.min_token_balances,
            min_luna_staking: msg.min_luna_staking,
        },
    }
}

/// Whether `address` runs the qualifier.
pub fn is_admin(qualifier: &Qualifier, address: &String) -> (r: bool)
    ensures
        r == (qualifier.config.admin@ == address@),
{
    qualifier.config.admin == *address
}

/// Hands the qualifier to `new_admin`, which is `None` where the address
/// given is not one. Only the admin may do so. On any error nothing changes.
pub fn update_admin(qualifier: &mut Qualifier, sender: &String, new_admin: Option<String>) -> (r:
    Result<(), ContractError>)
    ensures
        if old(qualifier).config.admin@ != sender@ {
            &&& r == Err::<(), ContractError>(ContractError::Unauthorized)
            &&& *final(qualifier) == *old(qualifier)
        } else {
            match new_admin {
                None => {
                    &&& r == Err::<(), ContractError>(
                        ContractError::Generic(Violation::InvalidAddress),
                    )
                    &&& *final(qualifier) == *old(qualifier)
                },
                Some(address) => {
                    &&& r.is_ok()
                    &&& *final(qualifier) == (Qualifier {
                        config: QualifierConfig { admin: address, ..old(qualifier).config },
                        ..*old(qualifier)
                    })
                },
            }
        },
{
    if !is_admin(qualifier, sender) {
        return Err(ContractError::Unauthorized);
    }
    match new_admin {
        None => Err(ContractError::Generic(Violation::InvalidAddress)),
        Some(address) => {
            qualifier.config.admin = address;
            Ok(())
        },
    }
}

/// Whether every minimum is greater than zero.
pub open spec fn all_positive(balances: Seq<(Denom, u128)>) -> bool {
    forall|i: int| 0 <= i < balances.len() ==> (#[trigger] balances[i]).1 != 0
}

/// Whether every minimum is greater than zero.
pub fn minimums_positive(balances: &Vec<(Denom, u128)>) -> (r: bool)
    ensures
        r == all_positive(balances@),
{
    let mut i: usize = 0;
    while i < balances.len()
        invariant
            i <= balances.len(),
            forall|j: int| 0 <= j < i ==> (#[trigger] balances@[j]).1 != 0,
        decreases balances.len() - i,
    {
        if balances[i].1 == 0 {
            return false;
        }
        i += 1;
    }
    true
}

/// Why a new requirement is turned away: the sender is not the admin, a
/// token address is not one or a token minimum is zero, or the luna minimum
/// is zero.
pub open spec fn update_requirement_rejection(
    qualifier: &Qualifier,
    sender: Seq<char>,
    min_token_balances: Option<Vec<(Denom, u128)>>,
    token_addresses_valid: bool,
    min_luna_staking: Option<u128>,
) -> Option<ContractError> {
    if qualifier.config.admin@ != sender {
        Some(ContractError::Unauthorized)
    } else if min_token_balances.is_some() && !(token_addresses_valid && all_positive(
        min_token_balances.unwrap()@,
    )) {
        Some(ContractError::Generic(Violation::InvalidMinTokenBalances))
    } else if min_luna_staking == Some(0u128) {
        Some(ContractError::Generic(Violation::InvalidMinLunaStaking))
    } else {
        None
    }
}

/// Which parts of the requirement an update has set.
#[derive(Clone, Copy, Debug, PartialEq, Eq, Structural)]
pub struct UpdateRequirementResponse {
    pub is_updated_continue_option_on_fail: bool,
    pub is_updated_min_token_balances: bool,
    pub is_updated_min_luna_staking: bool,
}

/// Sets the parts of the requirement that are given and keeps the others.
/// `token_addresses_valid` says whether every token among the new minimums
/// is named by a valid address. Only the admin may do so. On any error
/// nothing changes.
pub fn update_requirement(
    qualifier: &mut Qualifier,
    sender: &String,
    continue_option_on_fail: Option<QualifiedContinueOption>,
    min_token_balances: Option<Vec<(Denom, u128)>>,
    token_addresses_valid: bool,
    min_luna_staking: Option<u128>,
) -> (r: Result<UpdateRequirementResponse, ContractError>)
    ensures
        match update_requirement_rejection(
            old(qualifier),
            sender@,
            min_token_balances,
            token_addresses_valid,
            min_luna_staking,
        ) {
            Some(e) => {
                &&& r == Err::<UpdateRequirementResponse, ContractError>(e)
                &&& *final(qualifier) == *old(qualifier)
            },
            None => {
                &&& r == Ok::<UpdateRequirementResponse, ContractError>(
                    UpdateRequirementResponse {
                        is_updated_continue_option_on_fail: continue_option_on_fail.is_some(),
                        is_updated_min_token_balances: min_token_balances.is_some(),
                        is_updated_min_luna_staking: min_luna_staking.is_some(),
                    },
                )
                &&& final(qualifier).config.admin == old(qualifier).config.admin
                &&& final(qualifier).config.continue_option_on_fail == match continue_option_on_fail {
                    Some(option) => option,
                    None => old(qualifier).config.continue_option_on_fail,
                }
                &&& final(qualifier).requirement.min_token_balances == match min_token_balances {
                    Some(balances) => balances,
                    None => old(qualifier).requirement.min_token_balances,
                }
                &&& final(qualifier).requirement.min_luna_staking == match min_luna_staking {
                    Some(amount) => amount,
                    None => old(qualifier).requirement.min_luna_staking,
                }
            },
        },
{
    if !is_admin(qualifier, sender) {
        return Err(ContractError::Unauthorized);
    }
    match &min_token_balances {
        Some(balances) => {
            if !(token_addresses_valid && minimums_positive(balances)) {
                return Err(ContractError::Generic(Violation::InvalidMinTokenBalances));
            }
        },
        None => {},
    }
    match min_luna_staking {
        Some(amount) => {
            if amount == 0 {
                return Err(ContractError::Generic(Violation::InvalidMinLunaStaking));
            }
        },
        None => {},
    }
    let response = UpdateRequirementResponse {
        is_updated_continue_option_on_fail: continue_option_on_fail.is_some(),
        is_updated_min_token_balances: min_token_balances.is_some(),
        is_updated_min_luna_staking: min_luna_staking.is_some(),
    };
    if let Some(option) = continue_option_on_fail {
        qualifier.config.continue_option_on_fail = option;
    }
    if let Some(balances) = min_token_balances {
        qualifier.requirement.min_token_balances = balances;
    }
    if let Some(amount) = min_luna_staking {
        qualifier.requirement.min_luna_staking = amount;
    }
    Ok(response)
}

/// The balance reported for the minimum at `i`; nothing where none was
/// reported.
pub open spec fn reported(token_balances: Seq<u128>, i: int) -> u128 {
    if i < token_balances.len() {
        token_balances[i]
    } else {
        0
    }
}

/// Whether the balances reach every token minimum.
pub open spec fn holds_tokens(requirement: &Requirement, token_balances: Seq<u128>) -> bool {
    forall|i: int|
        0 <= i < requirement.min_token_balances@.len() ==> reported(token_balances, i) >= (
        #[trigger] requirement.min_token_balances@[i]).1
}

/// Whether an actor with these holdings meets the requirement.
pub open spec fn satisfies(
    requirement: &Requirement,
    token_balances: Seq<u128>,
    luna_staking: u128,
) -> bool {
    holds_tokens(requirement, token_balances) && luna_staking >= requirement.min_luna_staking
}

/// The reason given to an actor with these holdings that falls short.
pub open spec fn shortfall(
    requirement: &Requirement,
    token_balances: Seq<u128>,
    luna_staking: u128,
) -> Seq<char> {
    if !holds_tokens(requirement, token_balances) {
        "Insufficient token balance"@
    } else {
        "Insufficient luna staking amount"@
    }
}

/// Whether the balances reach every token minimum.
pub fn has_token_balances(requirement: &Requirement, token_balances: &Vec<u128>) -> (r: bool)
    ensures
        r == holds_tokens(requirement, token_balances@),
{
    let mut i: usize = 0;
    while i < requirement.min_token_balances.len()
        invariant
            i <= requirement.min_token_balances.len(),
            forall|j: int|
                0 <= j < i ==> reported(token_balances@, j) >= (
                #[trigger] requirement.min_token_balances@[j]).1,
        decreases requirement.min_token_balances.len() - i,
    {
        let held: u128 = if i < token_balances.len() {
            token_balances[i]
        } else {
            0
        };
        if held < requirement.min_token_balances[i].1 {
            return false;
        }
        i += 1;
    }
    true
}

/// Answers whether an actor may take part. `token_balances` holds the
/// actor's balance in the denomination of each token minimum, in their
/// order, and `luna_staking` its staked luna. An actor that meets the
/// requirement is eligible; any other gets the answer configured for
/// failures, with the reason.
pub fn qualify(qualifier: &Qualifier, token_balances: &Vec<u128>, luna_staking: u128) -> (r:
    QualificationResult)
    ensures
        satisfies(&qualifier.requirement, token_balances@, luna_staking) ==> r.continue_option
            == QualifiedContinueOption::Eligible && r.reason.is_none(),
        !satisfies(&qualifier.requirement, token_balances@, luna_staking) ==> r.continue_option
            == qualifier.config.continue_option_on_fail && r.reason.is_some()
            && r.reason.unwrap()@ == shortfall(&qualifier.requirement, token_balances@, luna_staking),
{
    if !has_token_balances(&qualifier.requirement, token_balances) {
        QualificationResult {
            continue_option: qualifier.config.continue_option_on_fail,
            reason: Some(String::from_str("Insufficient token balance")),
        }
    } else if luna_staking < qualifier.requirement.min_luna_staking {
        QualificationResult {
            continue_option: qualifier.config.continue_option_on_fail,
            reason: Some(String::from_str("Insufficient luna staking amount")),
        }
    } else {
        QualificationResult { continue_option: QualifiedContinueOption::Eligible, reason: None }
    }
}

} // verus!
