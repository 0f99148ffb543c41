//! The records a campaign keeps.

use vstd::prelude::*;
use crate::common::{
    duplicate_address, BlockInfo, ContractError, Denom, DenomView, Execution, Missing, Violation,
};
use crate::math::Decimal;
use crate::common::OrderBy;
use crate::store::{
    comes_before, is_page, lemma_comes_before_is_an_order, listed, view_of, AddressMap,
};

verus! {

/// Amounts per denomination, as a list with one entry for each denomination.
pub type Entries = Vec<(Denom, u128)>;

/// No denomination occurs twice.
pub open spec fn distinct_denoms(entries: Seq<(Denom, u128)>) -> bool {
    forall|i: int, j: int|
        0 <= i < j < entries.len() ==> (#[trigger] entries[i]).0@ != (#[trigger] entries[j]).0@
}

/// The amounts as a map from denomination to amount.
pub open spec fn ledger(entries: Seq<(Denom, u128)>) -> Map<DenomView, nat> {
    Map::new(
        |d: DenomView| exists|i: int| 0 <= i < entries.len() && (#[trigger] entries[i]).0@ == d,
        |d: DenomView|
            entries[choose|i: int| 0 <= i < entries.len() && (#[trigger] entries[i]).0@ == d].1 as nat,
    )
}

/// The amount held in `denom`; zero where the denomination has no entry.
pub open spec fn amount_of(entries: Seq<(Denom, u128)>, denom: DenomView) -> nat {
    if ledger(entries).contains_key(denom) {
        ledger(entries)[denom]
    } else {
        0
    }
}

/// With distinct denominations, the entry at `i` is the entry of its
/// denomination.
pub proof fn lemma_entry_at(entries: Seq<(Denom, u128)>, i: int)
    requires
        distinct_denoms(entries),
        0 <= i < entries.len(),
    ensures
        ledger(entries).contains_key(entries[i].0@),
        ledger(entries)[entries[i].0@] == entries[i].1,
        amount_of(entries, entries[i].0@) == entries[i].1,
{
    let d = entries[i].0@;
    let k = choose|k: int| 0 <= k < entries.len() && (#[trigger] entries[k]).0@ == d;
    assert(k == i) by {
        if k < i {
            assert(entries[k].0@ != entries[i].0@);
        } else if i < k {
            assert(entries[i].0@ != entries[k].0@);
        }
    }
}

/// Position of the entry of `denom`, if it has one.
pub fn find_entry(entries: &Entries, denom: &Denom) -> (r: Option<usize>)
    ensures
        match r {
            Some(i) => i < entries.len() && entries[i as int].0@ == denom@,
            None => !ledger(entries@).contains_key(denom@),
        },
{
    let mut i: usize = 0;
    while i < entries.len()
        invariant
            i <= entries.len(),
            forall|j: int| 0 <= j < i ==> (#[trigger] entries[j]).0@ != denom@,
        decreases entries.len() - i,
    {
        if entries[i].0.same(denom) {
            return Some(i);
        }
        i += 1;
    }
    None
}

/// Replacing the amount at `i` changes the ledger at that denomination only.
pub proof fn lemma_ledger_update(entries: Seq<(Denom, u128)>, i: int, amount: u128)
    requires
        distinct_denoms(entries),
        0 <= i < entries.len(),
    ensures
        distinct_denoms(entries.update(i, (entries[i].0, amount))),
        ledger(entries.update(i, (entries[i].0, amount))) == ledger(entries).insert(
            entries[i].0@,
            amount as nat,
        ),
{
    let after = entries.update(i, (entries[i].0, amount));
    assert(distinct_denoms(after)) by {
        assert forall|a: int, b: int| 0 <= a < b < after.len() implies (#[trigger] after[a]).0@ != (
        #[trigger] after[b]).0@ by {
            assert(after[a].0@ == entries[a].0@);
            assert(after[b].0@ == entries[b].0@);
        }
    }
    let want = ledger(entries).insert(entries[i].0@, amount as nat);
    assert forall|d: DenomView| ledger(after).contains_key(d) == want.contains_key(d) by {
        if ledger(after).contains_key(d) {
            let k = choose|k: int| 0 <= k < after.len() && (#[trigger] after[k]).0@ == d;
            assert(entries[k].0@ == d);
        }
        if want.contains_key(d) {
            if d == entries[i].0@ {
                assert(after[i].0@ == d);
            } else {
                let k = choose|k: int| 0 <= k < entries.len() && (#[trigger] entries[k]).0@ == d;
                assert(after[k].0@ == d);
            }
        }
    }
    assert forall|d: DenomView| ledger(after).contains_key(d) implies ledger(after)[d] == want[d] by {
        let k = choose|k: int| 0 <= k < after.len() && (#[trigger] after[k]).0@ == d;
        lemma_entry_at(after, k);
        if k == i {
        } else {
            assert(entries[k].0@ == d);
            lemma_entry_at(entries, k);
        }
    }
    assert(ledger(after) =~= want);
}

/// Appending an entry for a new denomination adds it to the ledger.
pub proof fn lemma_ledger_push(entries: Seq<(Denom, u128)>, denom: Denom, amount: u128)
    requires
        distinct_denoms(entries),
        !ledger(entries).contains_key(denom@),
    ensures
        distinct_denoms(entries.push((denom, amount))),
        ledger(entries.push((denom, amount))) == ledger(entries).insert(denom@, amount as nat),
{
    let after = entries.push((denom, amount));
    let last = entries.len() as int;
    assert(distinct_denoms(after)) by {
        assert forall|a: int, b: int| 0 <= a < b < after.len() implies (#[trigger] after[a]).0@ != (
        #[trigger] after[b]).0@ by {
            if b == last {
                assert(after[a] == entries[a]);
                if entries[a].0@ == denom@ {
                    assert(ledger(entries).contains_key(denom@));
                }
            } else {
                assert(after[a] == entries[a]);
                assert(after[b] == entries[b]);
            }
        }
    }
    let want = ledger(entries).insert(denom@, amount as nat);
    assert forall|d: DenomView| ledger(after).contains_key(d) == want.contains_key(d) by {
        if ledger(after).contains_key(d) {
            let k = choose|k: int| 0 <= k < after.len() && (#[trigger] after[k]).0@ == d;
            if k < last {
                assert(entries[k].0@ == d);
            }
        }
        if want.contains_key(d) {
            if d == denom@ {
                assert(after[last].0@ == d);
            } else {
                let k = choose|k: int| 0 <= k < entries.len() && (#[trigger] entries[k]).0@ == d;
                assert(after[k].0@ == d);
            }
        }
    }
    assert forall|d: DenomView| ledger(after).contains_key(d) implies ledger(after)[d] == want[d] by {
        let k = choose|k: int| 0 <= k < after.len() && (#[trigger] after[k]).0@ == d;
        lemma_entry_at(after, k);
        if k < last {
            assert(entries[k].0@ == d);
            lemma_entry_at(entries, k);
        }
    }
    assert(ledger(after) =~= want);
}

/// Adds `amount` to the entry of `denom`, creating the entry if absent.
pub fn add_amount(entries: &mut Entries, denom: &Denom, amount: u128)
    requires
        distinct_denoms(old(entries)@),
        amount_of(old(entries)@, denom@) + amount <= u128::MAX,
    ensures
        distinct_denoms(final(entries)@),
        ledger(final(entries)@) == ledger(old(entries)@).insert(
            denom@,
            amount_of(old(entries)@, denom@) + amount as nat,
        ),
{
    match find_entry(entries, denom) {
        Some(i) => {
            proof {
                lemma_entry_at(entries@, i as int);
                lemma_ledger_update(entries@, i as int, (entries[i as int].1 + amount) as u128);
            }
            let sum: u128 = entries[i].1 + amount;
            let kept = entries[i].0.duplicate();
            entries.set(i, (kept, sum));
        },
        None => {
            proof {
                lemma_ledger_push(entries@, *denom, amount);
            }
            entries.push((denom.duplicate(), amount));
        },
    }
}

/// Takes `amount` from the entry of `denom` and returns what is left, or
/// reports an underflow and changes nothing.
pub fn sub_amount(entries: &mut Entries, denom: &Denom, amount: u128) -> (r: Result<
    u128,
    ContractError,
>)
    requires
        distinct_denoms(old(entries)@),
    ensures
        distinct_denoms(final(entries)@),
        match r {
            Ok(left) => {
                &&& amount <= amount_of(old(entries)@, denom@)
                &&& left == amount_of(old(entries)@, denom@) - amount
                &&& ledger(final(entries)@) == if ledger(old(entries)@).contains_key(denom@) {
                    ledger(old(entries)@).insert(denom@, left as nat)
                } else {
                    ledger(old(entries)@)
                }
            },
            Err(e) => {
                &&& amount > amount_of(old(entries)@, denom@)
                &&& e == ContractError::Overflow
                &&& *final(entries) == *old(entries)
            },
        },
{
    match find_entry(entries, denom) {
        Some(i) => {
            proof {
                lemma_entry_at(entries@, i as int);
            }
            match entries[i].1.checked_sub(amount) {
                Some(left) => {
                    proof {
                        lemma_ledger_update(entries@, i as int, left);
                    }
                    let kept = entries[i].0.duplicate();
                    entries.set(i, (kept, left));
                    Ok(left)
                },
                None => Err(ContractError::Overflow),
            }
        },
        None => {
            if amount == 0 {
                Ok(0)
            } else {
                Err(ContractError::Overflow)
            }
        },
    }
}

/// What a campaign holds in one denomination.
#[derive(Clone, Copy, Debug, PartialEq, Eq, Structural)]
pub struct Balance {
    pub total: u128,
    /// The part of `total` that is owed to actors.
    pub locked: u128,
}

impl Default for Balance {
    fn default() -> (r: Balance)
        ensures
            r.total == 0,
            r.locked == 0,
    {
        Balance { total: 0, locked: 0 }
    }
}

/// Counters, funds and activity of a campaign.
#[derive(Clone, Debug, PartialEq, Eq)]
pub struct CampaignState {
    pub actor_count: u64,
    pub participation_count: u64,
    pub cumulative_participation_reward_amount: u128,
    pub cumulative_referral_reward_amount: u128,
    pub balances: Vec<(Denom, u128)>,
    pub locked_balances: Vec<(Denom, u128)>,
    pub active_flag: bool,
    /// Height of the last activation or participation; `None` until the
    /// campaign is first activated.
    pub last_active_height: Option<u64>,
    /// The chain on which the campaign was activated.
    pub chain_id: String,
}

impl CampaignState {
    /// Each denomination has at most one balance and one locked amount.
    pub open spec fn wf(&self) -> bool {
        &&& distinct_denoms(self.balances@)
        &&& distinct_denoms(self.locked_balances@)
    }

    /// The funds held in `denom`.
    pub open spec fn total_of(&self, denom: DenomView) -> nat {
        amount_of(self.balances@, denom)
    }

    /// The funds in `denom` that are owed to actors.
    pub open spec fn locked_of(&self, denom: DenomView) -> nat {
        amount_of(self.locked_balances@, denom)
    }

    /// The funds in `denom` that are not owed to anyone.
    pub open spec fn available_of(&self, denom: DenomView) -> int {
        self.total_of(denom) - self.locked_of(denom)
    }

    /// In no denomination is more owed than held.
    pub open spec fn solvent(&self) -> bool {
        forall|d: DenomView| #[trigger] self.locked_of(d) <= self.total_of(d)
    }

    /// Whether the campaign accepts participations at `height` on chain
    /// `chain_id`, given the period after which an idle campaign lapses.
    pub open spec fn active_at(
        &self,
        deactivate_period: u64,
        height: u64,
        chain_id: Seq<char>,
    ) -> bool {
        &&& self.active_flag
        &&& self.chain_id@ == chain_id
        &&& deactivate_period + (match self.last_active_height {
            Some(h) => h,
            None => 0,
        }) >= height
    }

    /// The same state apart from the two ledgers.
    pub open spec fn same_counters(&self, other: &CampaignState) -> bool {
        &&& self.actor_count == other.actor_count
        &&& self.participation_count == other.participation_count
        &&& self.cumulative_participation_reward_amount
            == other.cumulative_participation_reward_amount
        &&& self.cumulative_referral_reward_amount == other.cumulative_referral_reward_amount
        &&& self.active_flag == other.active_flag
        &&& self.last_active_height == other.last_active_height
        &&& self.chain_id == other.chain_id
    }

    /// A campaign without funds or actors that was never activated.
    pub fn new(chain_id: String) -> (r: CampaignState)
        ensures
            r.actor_count == 0,
            r.participation_count == 0,
            r.cumulative_participation_reward_amount == 0,
            r.cumulative_referral_reward_amount == 0,
            r.balances@.len() == 0,
            r.locked_balances@.len() == 0,
            !r.active_flag,
            r.last_active_height.is_none(),
            r.chain_id == chain_id,
            r.wf(),
            r.solvent(),
    {
        let r = CampaignState {
            actor_count: 0,
            participation_count: 0,
            cumulative_participation_reward_amount: 0,
            cumulative_referral_reward_amount: 0,
            balances: Vec::new(),
            locked_balances: Vec::new(),
            active_flag: false,
            last_active_height: None,
            chain_id,
        };
        assert forall|d: DenomView| #[trigger] r.locked_of(d) <= r.total_of(d) by {
            assert(!ledger(r.locked_balances@).contains_key(d));
        }
        r
    }

    /// Whether the campaign accepts participations in `block`.
    pub fn is_active(&self, deactivate_period: u64, block: &BlockInfo) -> (r: bool)
        ensures
            r == self.active_at(deactivate_period, block.height, block.chain_id@),
    {
        if !self.active_flag {
            return false;
        }
        if self.chain_id != block.chain_id {
            return false;
        }
        let last: u64 = match self.last_active_height {
            Some(h) => h,
            None => 0,
        };
        deactivate_period as u128 + last as u128 >= block.height as u128
    }

    /// Whether the campaign has never been activated.
    pub fn is_pending(&self) -> (r: bool)
        ensures
            r == self.last_active_height.is_none(),
    {
        self.last_active_height.is_none()
    }

    /// What the campaign holds in `denom`. A denomination without funds has
    /// the empty balance.
    pub fn balance(&self, denom: &Denom) -> (r: Balance)
        requires
            self.wf(),
        ensures
            r.total == self.total_of(denom@),
            r.locked == if ledger(self.balances@).contains_key(denom@) {
                self.locked_of(denom@)
            } else {
                0
            },
    {
        match find_entry(&self.balances, denom) {
            Some(i) => {
                proof {
                    lemma_entry_at(self.balances@, i as int);
                }
                let locked = self.locked_balance(denom);
                Balance { total: self.balances[i].1, locked }
            },
            None => Balance::default(),
        }
    }

    /// Adds `amount` to the funds held in `denom`.
    pub fn deposit(&mut self, denom: &Denom, amount: u128)
        requires
            old(self).wf(),
            old(self).total_of(denom@) + amount <= u128::MAX,
        ensures
            final(self).wf(),
            ledger(final(self).balances@) == ledger(old(self).balances@).insert(
                denom@,
                old(self).total_of(denom@) + amount as nat,
            ),
            final(self).locked_balances == old(self).locked_balances,
            final(self).same_counters(old(self)),
            old(self).solvent() ==> final(self).solvent(),
    {
        add_amount(&mut self.balances, denom, amount);
        proof {
            if old(self).solvent() {
                assert forall|d: DenomView| #[trigger]
                    self.locked_of(d) <= self.total_of(d) by {
                    assert(old(self).locked_of(d) <= old(self).total_of(d));
                }
            }
        }
    }

    /// Takes `amount` from the funds held in `denom` and returns what is
    /// left. Fails with an underflow, changing nothing, when less is held.
    pub fn withdraw(&mut self, denom: &Denom, amount: u128) -> (r: Result<u128, ContractError>)
        requires
            old(self).wf(),
        ensures
            final(self).wf(),
            final(self).locked_balances == old(self).locked_balances,
            final(self).same_counters(old(self)),
            match r {
                Ok(left) => {
                    &&& amount <= old(self).total_of(denom@)
                    &&& left == old(self).total_of(denom@) - amount
                    &&& ledger(final(self).balances@) == if ledger(old(self).balances@).contains_key(
                        denom@,
                    ) {
                        ledger(old(self).balances@).insert(denom@, left as nat)
                    } else {
                        ledger(old(self).balances@)
                    }
                },
                Err(e) => {
                    &&& amount > old(self).total_of(denom@)
                    &&& e == ContractError::Overflow
                    &&& *final(self) == *old(self)
                },
            },
    {
        sub_amount(&mut self.balances, denom, amount)
    }

    /// Checks that in no denomination more is owed than held.
    pub fn validate_balance(&self) -> (r: Result<(), ContractError>)
        requires
            self.wf(),
        ensures
            r.is_ok() <==> self.solvent(),
            r.is_err() ==> r == Err::<(), ContractError>(
                ContractError::Generic(Violation::LockedExceedsBalance),
            ),
    {
        let mut i: usize = 0;
        while i < self.locked_balances.len()
            invariant
                i <= self.locked_balances.len(),
                self.wf(),
                forall|j: int|
                    0 <= j < i ==> (#[trigger] self.locked_balances[j]).1 <= self.total_of(
                        self.locked_balances[j].0@,
                    ),
            decreases self.locked_balances.len() - i,
        {
            let held = self.balance(&self.locked_balances[i].0);
            if held.total < self.locked_balances[i].1 {
                proof {
                    lemma_entry_at(self.locked_balances@, i as int);
                    let d = self.locked_balances[i as int].0@;
                    assert(self.locked_of(d) > self.total_of(d));
                }
                return Err(ContractError::Generic(Violation::LockedExceedsBalance));
            }
            i += 1;
        }
        proof {
            assert forall|d: DenomView| #[trigger] self.locked_of(d) <= self.total_of(d) by {
                if ledger(self.locked_balances@).contains_key(d) {
                    let k = choose|k: int|
                        0 <= k < self.locked_balances@.len() && (
                        #[trigger] self.locked_balances@[k]).0@ == d;
                    lemma_entry_at(self.locked_balances@, k);
                }
            }
        }
        Ok(())
    }

    /// The funds in `denom` that are owed to actors.
    pub fn locked_balance(&self, denom: &Denom) -> (r: u128)
        requires
            self.wf(),
        ensures
            r == self.locked_of(denom@),
    {
        match find_entry(&self.locked_balances, denom) {
            Some(i) => {
                proof {
                    lemma_entry_at(self.locked_balances@, i as int);
                }
                self.locked_balances[i].1
            },
            None => 0,
        }
    }

    /// Marks `amount` more of the funds in `denom` as owed.
    pub fn lock_balance(&mut self, denom: &Denom, amount: u128)
        requires
            old(self).wf(),
            old(self).locked_of(denom@) + amount <= u128::MAX,
        ensures
            final(self).wf(),
            ledger(final(self).locked_balances@) == ledger(old(self).locked_balances@).insert(
                denom@,
                old(self).locked_of(denom@) + amount as nat,
            ),
            final(self).balances == old(self).balances,
            final(self).same_counters(old(self)),
    {
        add_amount(&mut self.locked_balances, denom, amount);
    }

    /// Releases `amount` of what is owed in `denom` and returns what stays
    /// owed. Fails with an underflow, changing nothing, when less is owed.
    pub fn unlock_balance(&mut self, denom: &Denom, amount: u128) -> (r: Result<
        u128,
        ContractError,
    >)
        requires
            old(self).wf(),
        ensures
            final(self).wf(),
            final(self).balances == old(self).balances,
            final(self).same_counters(old(self)),
            old(self).solvent() ==> final(self).solvent(),
            match r {
                Ok(left) => {
                    &&& amount <= old(self).locked_of(denom@)
                    &&& left == old(self).locked_of(denom@) - amount
                    &&& ledger(final(self).locked_balances@) == if ledger(
                        old(self).locked_balances@,
                    ).contains_key(denom@) {
                        ledger(old(self).locked_balances@).insert(denom@, left as nat)
                    } else {
                        ledger(old(self).locked_balances@)
                    }
                },
                Err(e) => {
                    &&& amount > old(self).locked_of(denom@)
                    &&& e == ContractError::Overflow
                    &&& *final(self) == *old(self)
                },
            },
    {
        let r = sub_amount(&mut self.locked_balances, denom, amount);
        proof {
            if old(self).solvent() {
                assert forall|d: DenomView| #[trigger]
                    self.locked_of(d) <= self.total_of(d) by {
                    assert(old(self).locked_of(d) <= old(self).total_of(d));
                }
            }
        }
        r
    }
}

/// What a campaign is and who runs it.
#[derive(Clone, Debug, PartialEq, Eq)]
pub struct CampaignConfig {
    pub governance: String,
    pub campaign_manager: String,
    pub fund_manager: String,
    pub title: String,
    pub description: String,
    pub url: String,
    pub parameter_key: String,
    /// The contract that decides who may participate, if any.
    pub qualifier: Option<String>,
    pub executions: Vec<Execution>,
    pub admin: String,
    pub creator: String,
    pub created_at: u64,
    /// Contracts that may participate on behalf of an actor.
    pub proxy_whitelist: Vec<String>,
}

impl CampaignConfig {
    /// Whether `address` administers the campaign.
    pub fn is_admin(&self, address: &String) -> (r: bool)
        ensures
            r == (self.admin@ == address@),
    {
        self.admin == *address
    }

    /// Whether `address` may participate on behalf of an actor.
    pub open spec fn is_proxy(&self, address: Seq<char>) -> bool {
        exists|i: int|
            0 <= i < self.proxy_whitelist.len() && #[trigger] self.proxy_whitelist[i]@ == address
    }
}

/// What a participation pays.
#[derive(Clone, Debug, PartialEq, Eq)]
pub struct RewardConfig {
    pub participation_reward_denom: Denom,
    pub participation_reward_amount: u128,
    pub referral_reward_token: String,
    /// The reward of the referrer at each distance from the participant; the
    /// first amount goes to the direct referrer.
    pub referral_reward_amounts: Vec<u128>,
}

/// Whether every amount is zero.
pub open spec fn all_zero(amounts: Seq<u128>) -> bool {
    forall|i: int| 0 <= i < amounts.len() ==> #[trigger] amounts[i] == 0
}

impl RewardConfig {
    /// The scheme names at least one referral reward that is not zero.
    pub open spec fn valid(&self) -> bool {
        self.referral_reward_amounts@.len() > 0 && !all_zero(self.referral_reward_amounts@)
    }

    /// The denomination in which referral rewards are paid.
    pub open spec fn referral_denom(&self) -> DenomView {
        DenomView::Token(self.referral_reward_token@)
    }

    /// Makes this the reward scheme of the campaign. A scheme that is empty
    /// or pays nothing at any distance is rejected and changes nothing.
    pub fn save(self, campaign: &mut Campaign) -> (r: Result<(), ContractError>)
        ensures
            if self.valid() {
                &&& r.is_ok()
                &&& *final(campaign) == (Campaign { reward_config: self, ..*old(campaign) })
            } else {
                &&& r == Err::<(), ContractError>(
                    ContractError::Generic(Violation::InvalidRewardScheme),
                )
                &&& *final(campaign) == *old(campaign)
            },
    {
        match self.validate() {
            Err(e) => {
                return Err(e);
            },
            Ok(_) => {},
        }
        campaign.reward_config = self;
        Ok(())
    }

    /// Rejects a scheme that is empty or pays nothing at any distance.
    pub fn validate(&self) -> (r: Result<(), ContractError>)
        ensures
            r.is_ok() <==> self.valid(),
            r.is_err() ==> r == Err::<(), ContractError>(
                ContractError::Generic(Violation::InvalidRewardScheme),
            ),
    {
        let mut i: usize = 0;
        while i < self.referral_reward_amounts.len()
            invariant
                i <= self.referral_reward_amounts.len(),
                forall|j: int| 0 <= j < i ==> #[trigger] self.referral_reward_amounts[j] == 0,
            decreases self.referral_reward_amounts.len() - i,
        {
            if self.referral_reward_amounts[i] != 0 {
                return Ok(());
            }
            i += 1;
        }
        Err(ContractError::Generic(Violation::InvalidRewardScheme))
    }
}

/// An address that took part in the campaign, with what it earned.
#[derive(Clone, Debug, PartialEq, Eq)]
pub struct Actor {
    pub address: String,
    /// The actor that brought this one in.
    pub referrer: Option<String>,
    /// Participation reward that is locked for the actor and not yet claimed.
    pub participation_reward_amount: u128,
    /// Referral reward that is locked for the actor and not yet claimed.
    pub referral_reward_amount: u128,
    pub cumulative_participation_reward_amount: u128,
    pub cumulative_referral_reward_amount: u128,
    /// What the activity booster has granted the actor so far.
    pub activity_booster_reward_amount: u128,
    /// What the plus booster has granted the actor so far.
    pub plus_booster_reward_amount: u128,
    pub participation_count: u64,
    pub referral_count: u64,
    pub last_participated_at: u64,
}

/// The referrers of an actor whose referrer is `referrer`, nearest first: at
/// most `limit` of them, ending early where an address has no record.
pub open spec fn referrers_of(
    actors: Map<Seq<char>, Actor>,
    referrer: Option<String>,
    limit: nat,
) -> Seq<Actor>
    decreases limit,
{
    if limit == 0 {
        Seq::empty()
    } else {
        match referrer {
            None => Seq::empty(),
            Some(address) => if actors.contains_key(address@) {
                seq![actors[address@]] + referrers_of(
                    actors,
                    actors[address@].referrer,
                    (limit - 1) as nat,
                )
            } else {
                Seq::empty()
            },
        }
    }
}

/// A chain of referrers is never longer than its limit.
pub proof fn lemma_referrers_bounded(
    actors: Map<Seq<char>, Actor>,
    referrer: Option<String>,
    limit: nat,
)
    ensures
        referrers_of(actors, referrer, limit).len() <= limit,
    decreases limit,
{
    if limit > 0 {
        match referrer {
            None => {},
            Some(address) => {
                if actors.contains_key(address@) {
                    lemma_referrers_bounded(actors, actors[address@].referrer, (limit - 1) as nat);
                }
            },
        }
    }
}

impl Actor {
    /// The record of an address that has earned nothing yet.
    pub fn new(address: String, referrer: Option<String>, block: &BlockInfo) -> (r: Actor)
        ensures
            r == (Actor {
                address,
                referrer,
                participation_reward_amount: 0,
                referral_reward_amount: 0,
                cumulative_participation_reward_amount: 0,
                cumulative_referral_reward_amount: 0,
                activity_booster_reward_amount: 0,
                plus_booster_reward_amount: 0,
                participation_count: 0,
                referral_count: 0,
                last_participated_at: block.time,
            }),
    {
        Actor {
            address,
            referrer,
            participation_reward_amount: 0,
            referral_reward_amount: 0,
            cumulative_participation_reward_amount: 0,
            cumulative_referral_reward_amount: 0,
            activity_booster_reward_amount: 0,
            plus_booster_reward_amount: 0,
            participation_count: 0,
            referral_count: 0,
            last_participated_at: block.time,
        }
    }

    /// A copy of the record.
    pub fn duplicate(&self) -> (r: Actor)
        ensures
            r == *self,
    {
        Actor {
            address: self.address.clone(),
            referrer: duplicate_address(&self.referrer),
            participation_reward_amount: self.participation_reward_amount,
            referral_reward_amount: self.referral_reward_amount,
            cumulative_participation_reward_amount: self.cumulative_participation_reward_amount,
            cumulative_referral_reward_amount: self.cumulative_referral_reward_amount,
            activity_booster_reward_amount: self.activity_booster_reward_amount,
            plus_booster_reward_amount: self.plus_booster_reward_amount,
            participation_count: self.participation_count,
            referral_count: self.referral_count,
            last_participated_at: self.last_participated_at,
        }
    }

    /// Keeps the record under the actor's address.
    pub fn save(self, actors: &mut AddressMap<Actor>)
        requires
            old(actors).wf(),
        ensures
            final(actors).wf(),
            final(actors)@ == old(actors)@.insert(self.address@, self),
    {
        let key = self.address.clone();
        actors.insert(key, self);
    }

    /// The record kept under `address`.
    pub fn load(actors: &AddressMap<Actor>, address: &String) -> (r: Result<Actor, ContractError>)
        requires
            actors.wf(),
        ensures
            match r {
                Ok(a) => actors@.contains_key(address@) && a == actors@[address@],
                Err(e) => !actors@.contains_key(address@) && e == ContractError::NotFound(
                    Missing::Actor,
                ),
            },
    {
        match actors.get(address) {
            Some(a) => Ok(a.duplicate()),
            None => Err(ContractError::NotFound(Missing::Actor)),
        }
    }

    /// The record kept under `address`, if there is one.
    pub fn may_load(actors: &AddressMap<Actor>, address: &String) -> (r: Option<Actor>)
        requires
            actors.wf(),
        ensures
            match r {
                Some(a) => actors@.contains_key(address@) && a == actors@[address@],
                None => !actors@.contains_key(address@),
            },
    {
        match actors.get(address) {
            Some(a) => Some(a.duplicate()),
            None => None,
        }
    }

    /// The referrers of this actor, nearest first: at most `distance_limit`
    /// of them, ending early where an address has no record.
    pub fn load_referrers(&self, actors: &AddressMap<Actor>, distance_limit: usize) -> (r: Vec<
        Actor,
    >)
        requires
            actors.wf(),
        ensures
            r@ == referrers_of(actors@, self.referrer, distance_limit as nat),
    {
        referrers(actors, &self.referrer, distance_limit)
    }

    /// One page of the actors in the order of their addresses: upwards
    /// where that is asked for, else downwards; starting behind
    /// `start_after`; at most `limit` of them, where no limit is given 10,
    /// and never more than 30.
    pub fn query(
        actors: &AddressMap<Actor>,
        start_after: Option<String>,
        limit: Option<u32>,
        order_by: Option<OrderBy>,
    ) -> (r: Vec<Actor>)
        requires
            actors.wf(),
            keyed_by_address(actors@),
        ensures
            is_page(
                actors@,
                view_of(start_after),
                order_by == Some(OrderBy::Asc),
                page_limit(limit) as nat,
                addresses(r@),
            ),
            forall|i: int| 0 <= i < r@.len() ==> #[trigger] r@[i] == actors@[r@[i].address@],
    {
        let most: u32 = match limit {
            Some(l) => if l < MAX_LIMIT {
                l
            } else {
                MAX_LIMIT
            },
            None => DEFAULT_LIMIT,
        };
        let ascending = match order_by {
            Some(OrderBy::Asc) => true,
            _ => false,
        };
        let ghost start = view_of(start_after);
        let mut result: Vec<Actor> = Vec::new();
        let mut cursor: Option<String> = duplicate_address(&start_after);
        let mut count: u32 = 0;
        assert(addresses(result@) =~= Seq::<Seq<char>>::empty());
        while count < most
            invariant
                count <= most,
                most == page_limit(limit),
                ascending == (order_by == Some(OrderBy::Asc)),
                start == view_of(start_after),
                actors.wf(),
                keyed_by_address(actors@),
                result@.len() == count,
                addresses(result@).len() == count,
                forall|i: int|
                    0 <= i < result@.len() ==> #[trigger] result@[i]
                        == actors@[result@[i].address@],
                forall|i: int|
                    0 <= i < result@.len() ==> listed(
                        actors@,
                        start,
                        ascending,
                        #[trigger] addresses(result@)[i],
                    ),
                forall|i: int, j: int|
                    0 <= i < j < result@.len() ==> comes_before(
                        #[trigger] addresses(result@)[i],
                        #[trigger] addresses(result@)[j],
                        ascending,
                    ),
                view_of(cursor) == if count == 0 {
                    start
                } else {
                    Some(addresses(result@).last())
                },
                forall|k: Seq<char>| #[trigger]
                    listed(actors@, start, ascending, k) && !addresses(result@).contains(k)
                        ==> listed(actors@, view_of(cursor), ascending, k),
            decreases most - count,
        {
            let ghost keys = addresses(result@);
            let ghost at = view_of(cursor);
            let found = actors.next_after(&cursor, ascending);
            match found {
                None => {
                    proof {
                        assert forall|k: Seq<char>| #[trigger]
                            listed(actors@, start, ascending, k) implies keys.contains(k) by {
                            if !keys.contains(k) {
                                assert(listed(actors@, at, ascending, k));
                            }
                        }
                    }
                    return result;
                },
                Some((key, record)) => {
                    let next = key.clone();
                    let copy = record.duplicate();
                    proof {
                        let key_view = key@;
                        assert(copy.address@ == key_view);
                        let grown = keys.push(key_view);
                        assert(addresses(result@.push(copy)) =~= grown);
                        if count > 0 {
                            lemma_comes_before_is_an_order(
                                start.unwrap_or(key_view),
                                keys.last(),
                                key_view,
                                ascending,
                            );
                            assert(listed(actors@, start, ascending, keys[keys.len() - 1]));
                        }
                        assert forall|i: int, j: int| 0 <= i < j < grown.len() implies comes_before(
                            #[trigger] grown[i],
                            #[trigger] grown[j],
                            ascending,
                        ) by {
                            if j == keys.len() && i < keys.len() - 1 {
                                assert(comes_before(keys[i], keys[keys.len() - 1], ascending));
                                lemma_comes_before_is_an_order(
                                    keys[i],
                                    keys.last(),
                                    key_view,
                                    ascending,
                                );
                            }
                        }
                        assert forall|k: Seq<char>| #[trigger]
                            listed(actors@, start, ascending, k) && !grown.contains(k) implies listed(
                            actors@,
                            Some(key_view),
                            ascending,
                            k,
                        ) by {
                            assert(grown[keys.len() as int] == key_view);
                            if keys.contains(k) {
                                let i = choose|i: int| 0 <= i < keys.len() && keys[i] == k;
                                assert(grown[i] == k);
                            }
                            assert(listed(actors@, at, ascending, k));
                        }
                    }
                    result.push(copy);
                    cursor = Some(next);
                    count += 1;
                },
            }
        }
        result
    }

    /// Whether a participation reward waits to be claimed.
    pub fn has_participation_reward(&self) -> (r: bool)
        ensures
            r == (self.participation_reward_amount != 0),
    {
        self.participation_reward_amount != 0
    }

    /// Whether a referral reward waits to be claimed.
    pub fn has_referral_reward(&self) -> (r: bool)
        ensures
            r == (self.referral_reward_amount != 0),
    {
        self.referral_reward_amount != 0
    }
}

/// The referrers of an actor whose referrer is `referrer`, nearest first: at
/// most `distance_limit` of them, ending early where an address has no
/// record.
pub fn referrers(actors: &AddressMap<Actor>, referrer: &Option<String>, distance_limit: usize) -> (r:
    Vec<Actor>)
    requires
        actors.wf(),
    ensures
        r@ == referrers_of(actors@, *referrer, distance_limit as nat),
{
    let mut result: Vec<Actor> = Vec::new();
    let mut next: Option<String> = duplicate_address(referrer);
    let mut i: usize = 0;
    while i < distance_limit
        invariant
            i <= distance_limit,
            actors.wf(),
            result@ + referrers_of(actors@, next, (distance_limit - i) as nat) == referrers_of(
                actors@,
                *referrer,
                distance_limit as nat,
            ),
        decreases distance_limit - i,
    {
        let found: Option<Actor> = match &next {
            None => None,
            Some(address) => Actor::may_load(actors, address),
        };
        match found {
            None => {
                proof {
                    assert(referrers_of(actors@, next, (distance_limit - i) as nat) == Seq::<
                        Actor,
                    >::empty());
                    assert(result@ + Seq::<Actor>::empty() =~= result@);
                }
                return result;
            },
            Some(record) => {
                proof {
                    let rest = referrers_of(
                        actors@,
                        record.referrer,
                        (distance_limit - i - 1) as nat,
                    );
                    assert(referrers_of(actors@, next, (distance_limit - i) as nat) == seq![record]
                        + rest);
                    assert(result@.push(record) + rest =~= result@ + (seq![record] + rest));
                }
                next = duplicate_address(&record.referrer);
                result.push(record);
            },
        }
        i += 1;
    }
    proof {
        assert(result@ + Seq::<Actor>::empty() =~= result@);
    }
    result
}

/// The most actors that one page of a listing shows.
pub const MAX_LIMIT: u32 = 30;

/// The number of actors that a page shows where no limit is given.
pub const DEFAULT_LIMIT: u32 = 10;

/// The number of actors that a page shows at most.
pub open spec fn page_limit(limit: Option<u32>) -> u32 {
    match limit {
        Some(l) => if l < MAX_LIMIT {
            l
        } else {
            MAX_LIMIT
        },
        None => DEFAULT_LIMIT,
    }
}

/// The addresses of the actors, in order.
pub open spec fn addresses(actors: Seq<Actor>) -> Seq<Seq<char>> {
    actors.map_values(|a: Actor| a.address@)
}

/// The participation that waits for the qualifier's answer.
#[derive(Clone, Debug, PartialEq, Eq)]
pub struct QualifyParticipationContext {
    pub actor: String,
    pub referrer: Option<String>,
}

/// The pools from which a running boost pays on top of the rewards.
#[derive(Clone, Copy, Debug, PartialEq, Eq, Structural)]
pub struct BoosterState {
    /// The drop booster amount that falls to one participation.
    pub drop_booster_share: u128,
    pub activity_booster_multiplier: Decimal,
    /// What is left of the activity booster pool.
    pub activity_booster_pool: u128,
    /// The plus booster pool as it was assigned.
    pub plus_booster_amount: u128,
    /// What is left of the plus booster pool.
    pub plus_booster_pool: u128,
    /// The number of earlier participations from which on the boost pays.
    pub min_participation_count: u64,
}

/// Everything a campaign keeps.
#[derive(Clone, Debug, PartialEq, Eq)]
pub struct Campaign {
    pub config: CampaignConfig,
    pub state: CampaignState,
    pub reward_config: RewardConfig,
    /// The running boost, if one was enabled.
    pub booster: Option<BoosterState>,
    pub actors: AddressMap<Actor>,
    pub qualify_participation_context: Option<QualifyParticipationContext>,
}

/// Every record is kept under its own address.
pub open spec fn keyed_by_address(actors: Map<Seq<char>, Actor>) -> bool {
    forall|k: Seq<char>| actors.contains_key(k) ==> (#[trigger] actors[k]).address@ == k
}

impl Campaign {
    /// The ledgers and the actor records are well formed, and every actor is
    /// kept under its own address.
    pub open spec fn wf(&self) -> bool {
        &&& self.state.wf()
        &&& self.actors.wf()
        &&& keyed_by_address(self.actors@)
    }
}

/// Whether `address` administers the campaign.
pub fn is_admin(campaign: &Campaign, address: &String) -> (r: bool)
    ensures
        r == (campaign.config.admin@ == address@),
{
    campaign.config.is_admin(address)
}

/// Whether the campaign has never been activated.
pub fn is_pending(campaign: &Campaign) -> (r: bool)
    ensures
        r == campaign.state.last_active_height.is_none(),
{
    campaign.state.is_pending()
}

impl QualifyParticipationContext {
    /// Keeps this participation as the pending one.
    pub fn save(self, campaign: &mut Campaign)
        ensures
            *final(campaign) == (Campaign {
                qualify_participation_context: Some(self),
                ..*old(campaign)
            }),
    {
        campaign.qualify_participation_context = Some(self);
    }

    /// The pending participation.
    pub fn load(campaign: &Campaign) -> (r: Result<QualifyParticipationContext, ContractError>)
        ensures
            match r {
                Ok(c) => campaign.qualify_participation_context == Some(c),
                Err(e) => campaign.qualify_participation_context.is_none() && e
                    == ContractError::NotFound(Missing::QualifyParticipationContext),
            },
    {
        match &campaign.qualify_participation_context {
            Some(c) => Ok(
                QualifyParticipationContext {
                    actor: c.actor.clone(),
                    referrer: duplicate_address(&c.referrer),
                },
            ),
            None => Err(ContractError::NotFound(Missing::QualifyParticipationContext)),
        }
    }

    /// Forgets the pending participation.
    pub fn clear(campaign: &mut Campaign)
        ensures
            *final(campaign) == (Campaign { qualify_participation_context: None, ..*old(campaign) }),
    {
        campaign.qualify_participation_context = None;
    }
}

} // verus!
