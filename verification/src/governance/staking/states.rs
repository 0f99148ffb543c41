//! The records of the stakers.

use vstd::prelude::*;
use crate::common::ContractError;
use crate::governance::poll::states::{Poll, PollStatus, VoteInfo};
use crate::math::{multiply_ratio, ratio};

verus! {

/// How long unstaked tokens wait before they can be withdrawn.
#[derive(Clone, Copy, Debug, PartialEq, Eq, Structural)]
pub struct StakingConfig {
    /// In blocks.
    pub withdraw_delay: u64,
}

/// The shares that all stakers hold together.
#[derive(Clone, Copy, Debug, PartialEq, Eq, Structural)]
pub struct StakingState {
    pub total_share: u128,
}

/// One staker: its share of the staked tokens, its votes, and the tokens it
/// unstaked and has not withdrawn yet.
#[derive(Clone, Debug, PartialEq, Eq)]
pub struct StakerState {
    pub address: String,
    pub share: u128,
    /// The votes the staker cast, each with the id of its poll.
    pub votes: Vec<(u64, VoteInfo)>,
    /// Unstaked amounts, each with the height at which it was unstaked.
    pub withdraw_unstaked_amounts: Vec<(u64, u128)>,
}

/// Whether poll `id` exists and is in progress.
pub open spec fn in_progress(polls: Seq<Poll>, id: u64) -> bool {
    1 <= id <= polls.len() && polls[id - 1].status == PollStatus::InProgress
}

/// What the first `n` votes commit: the sum of the amounts of those whose
/// poll is in progress.
pub open spec fn committed(votes: Seq<(u64, VoteInfo)>, polls: Seq<Poll>, n: nat) -> nat
    decreases n,
{
    if n == 0 {
        0
    } else {
        committed(votes, polls, (n - 1) as nat) + if in_progress(polls, votes[n - 1].0) {
            votes[n - 1].1.amount as nat
        } else {
            0
        }
    }
}

/// Those of the first `n` votes whose poll is in progress, in the order they
/// were cast.
pub open spec fn live_votes(votes: Seq<(u64, VoteInfo)>, polls: Seq<Poll>, n: nat) -> Seq<
    (u64, VoteInfo),
>
    decreases n,
{
    if n == 0 {
        Seq::empty()
    } else if in_progress(polls, votes[n - 1].0) {
        live_votes(votes, polls, (n - 1) as nat).push(votes[n - 1])
    } else {
        live_votes(votes, polls, (n - 1) as nat)
    }
}

/// Whether an amount unstaked at `unstaked_at` can be withdrawn at `height`.
pub open spec fn matured(unstaked_at: u64, withdraw_delay: u64, height: u64) -> bool {
    unstaked_at + withdraw_delay <= height
}

/// Those of the first `n` unstaked amounts that cannot be withdrawn yet.
pub open spec fn pending(list: Seq<(u64, u128)>, withdraw_delay: u64, height: u64, n: nat) -> Seq<
    (u64, u128),
>
    decreases n,
{
    if n == 0 {
        Seq::empty()
    } else if matured(list[n - 1].0, withdraw_delay, height) {
        pending(list, withdraw_delay, height, (n - 1) as nat)
    } else {
        pending(list, withdraw_delay, height, (n - 1) as nat).push(list[n - 1])
    }
}

/// Those of the first `n` unstaked amounts that can be withdrawn.
pub open spec fn withdrawable(list: Seq<(u64, u128)>, withdraw_delay: u64, height: u64, n: nat) -> Seq<
    (u64, u128),
>
    decreases n,
{
    if n == 0 {
        Seq::empty()
    } else if matured(list[n - 1].0, withdraw_delay, height) {
        withdrawable(list, withdraw_delay, height, (n - 1) as nat).push(list[n - 1])
    } else {
        withdrawable(list, withdraw_delay, height, (n - 1) as nat)
    }
}

/// The sum of the first `n` amounts.
pub open spec fn amount_sum(list: Seq<(u64, u128)>, n: nat) -> nat
    decreases n,
{
    if n == 0 {
        0
    } else {
        amount_sum(list, (n - 1) as nat) + list[n - 1].1 as nat
    }
}

/// The tokens that a share of `share` out of `total_share` stands for when
/// the stakers hold `balance` together; nothing where no share exists.
pub open spec fn share_value(share: u128, balance: u128, total_share: u128) -> int {
    if total_share == 0 {
        0
    } else {
        ratio(share as int, balance as int, total_share as int)
    }
}

impl StakerState {
    /// A staker without stake.
    pub fn new(address: String) -> (r: StakerState)
        ensures
            r.address == address,
            r.share == 0,
            r.votes@.len() == 0,
            r.withdraw_unstaked_amounts@.len() == 0,
    {
        StakerState {
            address,
            share: 0,
            votes: Vec::new(),
            withdraw_unstaked_amounts: Vec::new(),
        }
    }

    /// A copy of the record.
    pub fn duplicate(&self) -> (r: StakerState)
        ensures
            r.address == self.address,
            r.share == self.share,
            r.votes@ == self.votes@,
            r.withdraw_unstaked_amounts@ == self.withdraw_unstaked_amounts@,
    {
        let mut votes: Vec<(u64, VoteInfo)> = Vec::new();
        let mut i: usize = 0;
        while i < self.votes.len()
            invariant
                i <= self.votes.len(),
                votes@ == self.votes@.subrange(0, i as int),
            decreases self.votes.len() - i,
        {
            let vote = &self.votes[i].1;
            votes.push(
                (
                    self.votes[i].0,
                    VoteInfo { voter: vote.voter.clone(), option: vote.option, amount: vote.amount },
                ),
            );
            assert(self.votes@.subrange(0, i as int).push(self.votes@[i as int])
                =~= self.votes@.subrange(0, i + 1));
            i += 1;
        }
        assert(self.votes@.subrange(0, self.votes@.len() as int) =~= self.votes@);
        let mut unstaked: Vec<(u64, u128)> = Vec::new();
        let mut k: usize = 0;
        while k < self.withdraw_unstaked_amounts.len()
            invariant
                k <= self.withdraw_unstaked_amounts.len(),
                unstaked@ == self.withdraw_unstaked_amounts@.subrange(0, k as int),
            decreases self.withdraw_unstaked_amounts.len() - k,
        {
            unstaked.push(self.withdraw_unstaked_amounts[k]);
            assert(self.withdraw_unstaked_amounts@.subrange(0, k as int).push(
                self.withdraw_unstaked_amounts@[k as int],
            ) =~= self.withdraw_unstaked_amounts@.subrange(0, k + 1));
            k += 1;
        }
        assert(self.withdraw_unstaked_amounts@.subrange(
            0,
            self.withdraw_unstaked_amounts@.len() as int,
        ) =~= self.withdraw_unstaked_amounts@);
        StakerState {
            address: self.address.clone(),
            share: self.share,
            votes,
            withdraw_unstaked_amounts: unstaked,
        }
    }

    /// Forgets the votes on polls that have ended.
    pub fn clean_votes(&mut self, polls: &Vec<Poll>)
        ensures
            final(self).address == old(self).address,
            final(self).share == old(self).share,
            final(self).withdraw_unstaked_amounts == old(self).withdraw_unstaked_amounts,
            final(self).votes@ == live_votes(old(self).votes@, polls@, old(self).votes@.len()),
            final(self).locked(polls@) == old(self).locked(polls@),
    {
        let mut kept: Vec<(u64, VoteInfo)> = Vec::new();
        let mut i: usize = 0;
        while i < self.votes.len()
            invariant
                i <= self.votes.len(),
                *self == *old(self),
                kept@ == live_votes(self.votes@, polls@, i as nat),
                committed(kept@, polls@, kept@.len()) == committed(self.votes@, polls@, i as nat),
            decreases self.votes.len() - i,
        {
            let id = self.votes[i].0;
            let live = id >= 1 && id as u128 <= polls.len() as u128 && match polls[(id
                - 1) as usize].status {
                PollStatus::InProgress => true,
                _ => false,
            };
            if live {
                let vote = &self.votes[i].1;
                let ghost before = kept@;
                kept.push(
                    (id, VoteInfo { voter: vote.voter.clone(), option: vote.option, amount: vote.amount }),
                );
                proof {
                    assert(kept@.drop_last() =~= before);
                    lemma_committed_prefix(kept@, before, polls@, before.len());
                }
            }
            i += 1;
        }
        self.votes = kept;
    }

    /// Takes out the unstaked amounts that can be withdrawn at `height` and
    /// returns them; the others stay.
    pub fn withdraw_unstaked(&mut self, withdraw_delay: u64, height: u64) -> (r: Vec<(u64, u128)>)
        ensures
            final(self).address == old(self).address,
            final(self).share == old(self).share,
            final(self).votes == old(self).votes,
            final(self).withdraw_unstaked_amounts@ == pending(
                old(self).withdraw_unstaked_amounts@,
                withdraw_delay,
                height,
                old(self).withdraw_unstaked_amounts@.len(),
            ),
            r@ == withdrawable(
                old(self).withdraw_unstaked_amounts@,
                withdraw_delay,
                height,
                old(self).withdraw_unstaked_amounts@.len(),
            ),
    {
        let mut stay: Vec<(u64, u128)> = Vec::new();
        let mut out: Vec<(u64, u128)> = Vec::new();
        let mut i: usize = 0;
        while i < self.withdraw_unstaked_amounts.len()
            invariant
                i <= self.withdraw_unstaked_amounts.len(),
                *self == *old(self),
                stay@ == pending(self.withdraw_unstaked_amounts@, withdraw_delay, height, i as nat),
                out@ == withdrawable(
                    self.withdraw_unstaked_amounts@,
                    withdraw_delay,
                    height,
                    i as nat,
                ),
            decreases self.withdraw_unstaked_amounts.len() - i,
        {
            let entry = self.withdraw_unstaked_amounts[i];
            if entry.0 as u128 + withdraw_delay as u128 <= height as u128 {
                out.push(entry);
            } else {
                stay.push(entry);
            }
            i += 1;
        }
        self.withdraw_unstaked_amounts = stay;
        out
    }

    /// What the staker has committed to polls in progress.
    pub open spec fn locked(&self, polls: Seq<Poll>) -> nat {
        committed(self.votes@, polls, self.votes@.len())
    }

    /// What the staker has committed to polls in progress, or `None` where
    /// the sum exceeds 128 bits.
    pub fn get_locked_balance(&self, polls: &Vec<Poll>) -> (r: Option<u128>)
        ensures
            match r {
                Some(v) => v == self.locked(polls@),
                None => self.locked(polls@) > u128::MAX,
            },
    {
        let mut sum: u128 = 0;
        let mut i: usize = 0;
        while i < self.votes.len()
            invariant
                i <= self.votes.len(),
                sum == committed(self.votes@, polls@, i as nat),
            decreases self.votes.len() - i,
        {
            let id = self.votes[i].0;
            let live = id >= 1 && id as u128 <= polls.len() as u128 && match polls[(id - 1) as usize].status {
                PollStatus::InProgress => true,
                _ => false,
            };
            if live {
                match sum.checked_add(self.votes[i].1.amount) {
                    Some(next) => {
                        sum = next;
                    },
                    None => {
                        proof {
                            lemma_committed_grows(
                                self.votes@,
                                polls@,
                                (i + 1) as nat,
                                self.votes@.len(),
                            );
                        }
                        return None;
                    },
                }
            }
            i += 1;
        }
        Some(sum)
    }

    /// The tokens the staker's share stands for, or `None` where they exceed
    /// 128 bits.
    pub fn balance(&self, contract_available_balance: u128, total_share: u128) -> (r: Option<u128>)
        ensures
            match r {
                Some(v) => v == share_value(self.share, contract_available_balance, total_share),
                None => share_value(self.share, contract_available_balance, total_share)
                    > u128::MAX,
            },
    {
        if total_share == 0 {
            Some(0)
        } else {
            multiply_ratio(self.share, contract_available_balance, total_share)
        }
    }

    /// Whether the staker can put `amount` on a poll: its tokens, less what
    /// it committed to polls in progress, cover the amount.
    pub open spec fn may_vote(
        &self,
        polls: Seq<Poll>,
        contract_available_balance: u128,
        total_share: u128,
        amount: u128,
    ) -> bool {
        self.locked(polls) + amount <= share_value(
            self.share,
            contract_available_balance,
            total_share,
        )
    }

    /// Whether the staker can put `amount` on a poll. Fails with an
    /// overflow where its commitments or its tokens exceed 128 bits.
    pub fn can_vote(
        &self,
        polls: &Vec<Poll>,
        contract_available_balance: u128,
        total_share: u128,
        amount: u128,
    ) -> (r: Result<bool, ContractError>)
        ensures
            match r {
                Ok(b) => {
                    &&& self.locked(polls@) <= u128::MAX
                    &&& share_value(self.share, contract_available_balance, total_share)
                        <= u128::MAX
                    &&& b == self.may_vote(polls@, contract_available_balance, total_share, amount)
                },
                Err(e) => {
                    &&& e == ContractError::Overflow
                    &&& (self.locked(polls@) > u128::MAX || share_value(
                        self.share,
                        contract_available_balance,
                        total_share,
                    ) > u128::MAX)
                },
            },
    {
        let locked = match self.get_locked_balance(polls) {
            None => {
                return Err(ContractError::Overflow);
            },
            Some(v) => v,
        };
        let held = match self.balance(contract_available_balance, total_share) {
            None => {
                return Err(ContractError::Overflow);
            },
            Some(v) => v,
        };
        match locked.checked_add(amount) {
            None => Ok(false),
            Some(needed) => Ok(needed <= held),
        }
    }
}

/// What a prefix commits does not depend on what follows it.
pub proof fn lemma_committed_prefix(
    longer: Seq<(u64, VoteInfo)>,
    shorter: Seq<(u64, VoteInfo)>,
    polls: Seq<Poll>,
    n: nat,
)
    requires
        n <= shorter.len() <= longer.len(),
        forall|i: int| 0 <= i < shorter.len() ==> longer[i] == shorter[i],
    ensures
        committed(longer, polls, n) == committed(shorter, polls, n),
    decreases n,
{
    if n > 0 {
        lemma_committed_prefix(longer, shorter, polls, (n - 1) as nat);
    }
}

/// More votes never commit less.
pub proof fn lemma_committed_grows(votes: Seq<(u64, VoteInfo)>, polls: Seq<Poll>, m: nat, n: nat)
    requires
        m <= n,
    ensures
        committed(votes, polls, m) <= committed(votes, polls, n),
    decreases n,
{
    if m < n {
        lemma_committed_grows(votes, polls, m, (n - 1) as nat);
    }
}

} // verus!
