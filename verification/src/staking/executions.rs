//! The calls that bond, unbond and pay out.

use vstd::prelude::*;
use vstd::string::*;
use crate::common::{ContractError, Env, Violation};
use crate::math::{lemma_ratio_bounded, multiply_ratio, ratio, Decimal, DECIMAL_FRACTIONAL};
use crate::staking::states::{
    compute_reward, compute_staker_reward, read_staker_info, rewarded_staker, rewarded_state,
    StakerInfo, Staking, State, UST,
};

verus! {

/// An amount of a native coin.
#[derive(Clone, Debug, PartialEq, Eq)]
pub struct Coin {
    pub denom: String,
    pub amount: u128,
}

/// A message that the staking sends.
#[derive(Clone, Debug, PartialEq, Eq)]
pub enum StakingMessage {
    /// Hands `amount` of `token` from the staking to `recipient`.
    Transfer { token: String, recipient: String, amount: u128 },
    /// Takes `amount` of `token` from `owner`, who allowed it, to
    /// `recipient`.
    TransferFrom { token: String, owner: String, recipient: String, amount: u128 },
    /// Allows `spender` to take `amount` of `token` from the staking.
    IncreaseAllowance { token: String, spender: String, amount: u128 },
    /// Provides `uusd_amount` of the native coin and `token_amount` of
    /// `token` to the pair as liquidity.
    ProvideLiquidity {
        pair: String,
        token: String,
        uusd_amount: u128,
        token_amount: u128,
        slippage_tolerance: Option<Decimal>,
    },
    /// Calls the staking itself to bond for `staker_addr` the liquidity
    /// tokens that arrived on top of `already_staked_amount`.
    AutoStakeHook { contract: String, staker_addr: String, already_staked_amount: u128 },
}

/// The state and the staker once the rewards up to `height` are distributed
/// and counted; nothing is defined where a number exceeds its range.
pub open spec fn settled(staking: &Staking, height: u64, owner: Seq<char>) -> Option<
    (State, StakerInfo),
> {
    match rewarded_state(&staking.config, &staking.state, height) {
        None => None,
        Some(state) => match rewarded_staker(&state, &staking.info_of(owner)) {
            None => None,
            Some(info) => Some((state, info)),
        },
    }
}

/// Distributes the rewards up to `height` and counts those of `owner`,
/// without recording either.
pub fn settle(staking: &Staking, height: u64, owner: &String) -> (r: Result<
    (State, StakerInfo),
    ContractError,
>)
    requires
        staking.wf(),
    ensures
        match settled(staking, height, owner@) {
            Some(pair) => r == Ok::<(State, StakerInfo), ContractError>(pair),
            None => r == Err::<(State, StakerInfo), ContractError>(ContractError::Overflow),
        },
{
    let mut state = staking.state;
    let mut info = read_staker_info(staking, owner);
    match compute_reward(&staking.config, &mut state, height) {
        Err(e) => {
            return Err(e);
        },
        Ok(_) => {},
    }
    match compute_staker_reward(&state, &mut info) {
        Err(e) => {
            return Err(e);
        },
        Ok(_) => {},
    }
    Ok((state, info))
}

/// Bonds `amount` liquidity tokens for `sender_addr`, after its rewards up
/// to this block are counted. Fails with an overflow, changing nothing,
/// where a number exceeds its range.
pub fn bond(staking: &mut Staking, env: &Env, sender_addr: String, amount: u128) -> (r: Result<
    (),
    ContractError,
>)
    requires
        old(staking).wf(),
    ensures
        final(staking).wf(),
        final(staking).config == old(staking).config,
        match settled(old(staking), env.block.height, sender_addr@) {
            Some((state, info)) if state.total_bond_amount + amount <= u128::MAX && info.bond_amount
                + amount <= u128::MAX => {
                &&& r.is_ok()
                &&& final(staking).state == (State {
                    total_bond_amount: (state.total_bond_amount + amount) as u128,
                    ..state
                })
                &&& final(staking).stakers@ == old(staking).stakers@.insert(
                    sender_addr@,
                    StakerInfo { bond_amount: (info.bond_amount + amount) as u128, ..info },
                )
            },
            _ => {
                &&& r == Err::<(), ContractError>(ContractError::Overflow)
                &&& *final(staking) == *old(staking)
            },
        },
{
    let (mut state, mut info) = match settle(staking, env.block.height, &sender_addr) {
        Err(e) => {
            return Err(e);
        },
        Ok(pair) => pair,
    };
    let total = state.total_bond_amount.checked_add(amount);
    let bonded = info.bond_amount.checked_add(amount);
    if total.is_none() || bonded.is_none() {
        return Err(ContractError::Overflow);
    }
    state.total_bond_amount = total.unwrap();
    info.bond_amount = bonded.unwrap();
    staking.stakers.insert(sender_addr, info);
    staking.state = state;
    Ok(())
}

/// The tax on `amount` of the native coin at `tax_rate`, capped at
/// `tax_cap`: what `amount` holds beyond the amount that, taxed, gives it.
pub open spec fn uusd_tax(amount: u128, tax_rate: Decimal, tax_cap: u128) -> int {
    let untaxed = ratio(
        amount as int,
        DECIMAL_FRACTIONAL as int,
        tax_rate.atomics + DECIMAL_FRACTIONAL,
    );
    if amount - untaxed < tax_cap {
        amount - untaxed
    } else {
        tax_cap as int
    }
}

/// The tax on `amount` of the native coin at `tax_rate`, capped at
/// `tax_cap`. Fails with an overflow where the rate is too large to add one
/// to it.
pub fn compute_uusd_tax(amount: u128, tax_rate: Decimal, tax_cap: u128) -> (r: Result<
    u128,
    ContractError,
>)
    ensures
        match r {
            Ok(tax) => tax_rate.atomics + DECIMAL_FRACTIONAL <= u128::MAX && tax == uusd_tax(
                amount,
                tax_rate,
                tax_cap,
            ) && tax <= amount,
            Err(e) => tax_rate.atomics + DECIMAL_FRACTIONAL > u128::MAX && e
                == ContractError::Overflow,
        },
{
    let divisor = match tax_rate.atomics.checked_add(DECIMAL_FRACTIONAL) {
        None => {
            return Err(ContractError::Overflow);
        },
        Some(v) => v,
    };
    proof {
        lemma_ratio_bounded(amount as int, DECIMAL_FRACTIONAL as int, divisor as int);
    }
    let untaxed: u128 = match multiply_ratio(amount, DECIMAL_FRACTIONAL, divisor) {
        Some(v) => v,
        None => 0,
    };
    let tax = amount - untaxed;
    if tax < tax_cap {
        Ok(tax)
    } else {
        Ok(tax_cap)
    }
}

/// Why an automatic stake is turned away: the funds sent are not exactly
/// one amount of the native coin, the amount is zero, or the tax rate is out
/// of range.
pub open spec fn auto_stake_rejection(funds: Seq<Coin>, tax_rate: Decimal) -> Option<ContractError> {
    if funds.len() != 1 || funds[0].denom@ != UST@ {
        Some(ContractError::Generic(Violation::UstOnly))
    } else if funds[0].amount == 0 {
        Some(ContractError::Generic(Violation::ZeroUst))
    } else if tax_rate.atomics + DECIMAL_FRACTIONAL > u128::MAX {
        Some(ContractError::Overflow)
    } else {
        None
    }
}

/// What an automatic stake sends, and the tax it set aside.
#[derive(Clone, Debug, PartialEq, Eq)]
pub struct AutoStakeResponse {
    pub messages: Vec<StakingMessage>,
    pub tax_amount: u128,
}

/// Turns the native coins that `sender` sent and `token_amount` of its
/// tokens into liquidity and bonds it for the sender: takes the tokens,
/// allows the pair to take them, provides both to the pair, the native coins
/// less their tax, and calls the staking itself to bond what arrived. The
/// sender must have allowed the staking to take the tokens.
/// `already_staked_amount` is what the staking holds of the liquidity token
/// before; `tax_rate` and `tax_cap` are the tax on the native coin as the
/// chain reports it.
pub fn auto_stake(
    staking: &Staking,
    env: &Env,
    sender: &String,
    funds: &Vec<Coin>,
    token_amount: u128,
    slippage_tolerance: Option<Decimal>,
    already_staked_amount: u128,
    tax_rate: Decimal,
    tax_cap: u128,
) -> (r: Result<AutoStakeResponse, ContractError>)
    ensures
        match auto_stake_rejection(funds@, tax_rate) {
            Some(e) => r == Err::<AutoStakeResponse, ContractError>(e),
            None => {
                let tax = uusd_tax(funds@[0].amount, tax_rate, tax_cap) as u128;
                &&& r matches Ok(response)
                &&& response.tax_amount == tax
                &&& response.messages@ == seq![
                    StakingMessage::TransferFrom {
                        token: staking.config.valkyrie_token,
                        owner: *sender,
                        recipient: env.contract_address,
                        amount: token_amount,
                    },
                    StakingMessage::IncreaseAllowance {
                        token: staking.config.valkyrie_token,
                        spender: staking.config.pair_contract,
                        amount: token_amount,
                    },
                    StakingMessage::ProvideLiquidity {
                        pair: staking.config.pair_contract,
                        token: staking.config.valkyrie_token,
                        uusd_amount: (funds@[0].amount - tax) as u128,
                        token_amount,
                        slippage_tolerance,
                    },
                    StakingMessage::AutoStakeHook {
                        contract: env.contract_address,
                        staker_addr: *sender,
                        already_staked_amount,
                    },
                ]
            },
        },
{
    if funds.len() != 1 {
        return Err(ContractError::Generic(Violation::UstOnly));
    }
    let ust = String::from_str(UST);
    if funds[0].denom != ust {
        return Err(ContractError::Generic(Violation::UstOnly));
    }
    if funds[0].amount == 0 {
        return Err(ContractError::Generic(Violation::ZeroUst));
    }
    let uusd_amount = funds[0].amount;
    let tax_amount = match compute_uusd_tax(uusd_amount, tax_rate, tax_cap) {
        Err(e) => {
            return Err(e);
        },
        Ok(v) => v,
    };
    let mut messages: Vec<StakingMessage> = Vec::new();
    messages.push(
        StakingMessage::TransferFrom {
            token: staking.config.valkyrie_token.clone(),
            owner: sender.clone(),
            recipient: env.contract_address.clone(),
            amount: token_amount,
        },
    );
    messages.push(
        StakingMessage::IncreaseAllowance {
            token: staking.config.valkyrie_token.clone(),
            spender: staking.config.pair_contract.clone(),
            amount: token_amount,
        },
    );
    messages.push(
        StakingMessage::ProvideLiquidity {
            pair: staking.config.pair_contract.clone(),
            token: staking.config.valkyrie_token.clone(),
            uusd_amount: uusd_amount - tax_amount,
            token_amount,
            slippage_tolerance,
        },
    );
    messages.push(
        StakingMessage::AutoStakeHook {
            contract: env.contract_address.clone(),
            staker_addr: sender.clone(),
            already_staked_amount,
        },
    );
    Ok(AutoStakeResponse { messages, tax_amount })
}

/// Bonds for `staker_addr` the liquidity tokens that arrived since its
/// automatic stake began: what the staking holds now,
/// `current_staking_token_amount`, less what it held before. Only the
/// staking itself may call this. On any error nothing changes.
pub fn auto_stake_hook(
    staking: &mut Staking,
    env: &Env,
    sender: &String,
    staker_addr: String,
    already_staked_amount: u128,
    current_staking_token_amount: u128,
) -> (r: Result<(), ContractError>)
    requires
        old(staking).wf(),
    ensures
        final(staking).wf(),
        final(staking).config == old(staking).config,
        if sender@ != env.contract_address@ {
            &&& r == Err::<(), ContractError>(ContractError::Generic(Violation::NotTheContract))
            &&& *final(staking) == *old(staking)
        } else if current_staking_token_amount < already_staked_amount {
            &&& r == Err::<(), ContractError>(ContractError::Overflow)
            &&& *final(staking) == *old(staking)
        } else {
            let amount = (current_staking_token_amount - already_staked_amount) as u128;
            match settled(old(staking), env.block.height, staker_addr@) {
                Some((state, info)) if state.total_bond_amount + amount <= u128::MAX
                    && info.bond_amount + amount <= u128::MAX => {
                    &&& r.is_ok()
                    &&& final(staking).state == (State {
                        total_bond_amount: (state.total_bond_amount + amount) as u128,
                        ..state
                    })
                    &&& final(staking).stakers@ == old(staking).stakers@.insert(
                        staker_addr@,
                        StakerInfo { bond_amount: (info.bond_amount + amount) as u128, ..info },
                    )
                },
                _ => {
                    &&& r == Err::<(), ContractError>(ContractError::Overflow)
                    &&& *final(staking) == *old(staking)
                },
            }
        },
{
    if *sender != env.contract_address {
        return Err(ContractError::Generic(Violation::NotTheContract));
    }
    let amount_to_stake = match current_staking_token_amount.checked_sub(already_staked_amount) {
        None => {
            return Err(ContractError::Overflow);
        },
        Some(v) => v,
    };
    bond(staking, env, staker_addr, amount_to_stake)
}

/// The tokens a call pays out.
#[derive(Clone, Debug, PartialEq, Eq)]
pub struct PayoutResponse {
    pub messages: Vec<StakingMessage>,
    pub amount: u128,
}

/// Releases `amount` of the liquidity tokens that `sender` bonded and hands
/// them back, after its rewards up to this block are counted. A staker left
/// without bond and without rewards is forgotten. On any error nothing
/// changes.
pub fn unbond(staking: &mut Staking, env: &Env, sender: &String, amount: u128) -> (r: Result<
    PayoutResponse,
    ContractError,
>)
    requires
        old(staking).wf(),
    ensures
        final(staking).wf(),
        final(staking).config == old(staking).config,
        if old(staking).info_of(sender@).bond_amount < amount {
            &&& r == Err::<PayoutResponse, ContractError>(
                ContractError::Generic(Violation::UnbondTooMuch),
            )
            &&& *final(staking) == *old(staking)
        } else {
            match settled(old(staking), env.block.height, sender@) {
                Some((state, info)) if state.total_bond_amount >= amount => {
                    let left = StakerInfo { bond_amount: (info.bond_amount - amount) as u128, ..info };
                    &&& r matches Ok(response)
                    &&& response.amount == amount
                    &&& response.messages@ == seq![
                        StakingMessage::Transfer {
                            token: old(staking).config.liquidity_token,
                            recipient: *sender,
                            amount,
                        },
                    ]
                    &&& final(staking).state == (State {
                        total_bond_amount: (state.total_bond_amount - amount) as u128,
                        ..state
                    })
                    &&& final(staking).stakers@ == if left.pending_reward == 0 && left.bond_amount
                        == 0 {
                        old(staking).stakers@.remove(sender@)
                    } else {
                        old(staking).stakers@.insert(sender@, left)
                    }
                },
                _ => {
                    &&& r == Err::<PayoutResponse, ContractError>(ContractError::Overflow)
                    &&& *final(staking) == *old(staking)
                },
            }
        },
{
    if read_staker_info(staking, sender).bond_amount < amount {
        return Err(ContractError::Generic(Violation::UnbondTooMuch));
    }
    let (mut state, mut info) = match settle(staking, env.block.height, sender) {
        Err(e) => {
            return Err(e);
        },
        Ok(pair) => pair,
    };
    state.total_bond_amount = match state.total_bond_amount.checked_sub(amount) {
        None => {
            return Err(ContractError::Overflow);
        },
        Some(v) => v,
    };
    info.bond_amount = info.bond_amount - amount;
    let mut messages: Vec<StakingMessage> = Vec::new();
    messages.push(
        StakingMessage::Transfer {
            token: staking.config.liquidity_token.clone(),
            recipient: sender.clone(),
            amount,
        },
    );
    if info.pending_reward == 0 && info.bond_amount == 0 {
        let _ = staking.stakers.remove(sender);
    } else {
        staking.stakers.insert(sender.clone(), info);
    }
    staking.state = state;
    Ok(PayoutResponse { messages, amount })
}

/// Pays `sender` the rewards it earned up to this block. A staker left
/// without bond is forgotten. Fails with an overflow, changing nothing,
/// where a number exceeds its range.
pub fn withdraw(staking: &mut Staking, env: &Env, sender: &String) -> (r: Result<
    PayoutResponse,
    ContractError,
>)
    requires
        old(staking).wf(),
    ensures
        final(staking).wf(),
        final(staking).config == old(staking).config,
        match settled(old(staking), env.block.height, sender@) {
            Some((state, info)) => {
                let left = StakerInfo { pending_reward: 0, ..info };
                &&& r matches Ok(response)
                &&& response.amount == info.pending_reward
                &&& response.messages@ == seq![
                    StakingMessage::Transfer {
                        token: old(staking).config.valkyrie_token,
                        recipient: *sender,
                        amount: info.pending_reward,
                    },
                ]
                &&& final(staking).state == state
                &&& final(staking).stakers@ == if left.bond_amount == 0 {
                    old(staking).stakers@.remove(sender@)
                } else {
                    old(staking).stakers@.insert(sender@, left)
                }
            },
            None => {
                &&& r == Err::<PayoutResponse, ContractError>(ContractError::Overflow)
                &&& *final(staking) == *old(staking)
            },
        },
{
    let (state, mut info) = match settle(staking, env.block.height, sender) {
        Err(e) => {
            return Err(e);
        },
        Ok(pair) => pair,
    };
    let amount = info.pending_reward;
    info.pending_reward = 0;
    let mut messages: Vec<StakingMessage> = Vec::new();
    messages.push(
        StakingMessage::Transfer {
            token: staking.config.valkyrie_token.clone(),
            recipient: sender.clone(),
            amount,
        },
    );
    if info.bond_amount == 0 {
        let _ = staking.stakers.remove(sender);
    } else {
        staking.stakers.insert(sender.clone(), info);
    }
    staking.state = state;
    Ok(PayoutResponse { messages, amount })
}

} // verus!
