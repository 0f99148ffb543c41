//! The records of the polls.

use vstd::prelude::*;
use crate::common::{ContractError, Execution, Violation};
use crate::math::{lemma_floor_reaches, lemma_ratio_bounded, multiply_ratio, ratio, Decimal, DECIMAL_FRACTIONAL};

verus! {

/// Where a poll stands.
#[derive(Clone, Copy, Debug, PartialEq, Eq, Structural)]
pub enum PollStatus {
    /// Votes are taken.
    InProgress,
    /// Ended with quorum and threshold met; waits for execution.
    Passed,
    /// Ended with quorum met and threshold missed.
    Rejected,
    /// Ended without quorum.
    QuorumNotReached,
    /// Passed, and its executions ran.
    Executed,
    /// Passed, and its executions failed.
    Failed,
}

/// How a poll ended.
#[derive(Clone, Copy, Debug, PartialEq, Eq, Structural)]
pub enum PollResult {
    Passed,
    QuorumNotReached,
    ThresholdNotReached,
}

/// What a voter says to a proposal.
#[derive(Clone, Copy, Debug, PartialEq, Eq, Structural)]
pub enum VoteOption {
    Yes,
    No,
    Abstain,
}

/// One vote.
#[derive(Clone, Debug, PartialEq, Eq)]
pub struct VoteInfo {
    pub voter: String,
    pub option: VoteOption,
    pub amount: u128,
}

/// The rules of polls.
#[derive(Clone, Copy, Debug, PartialEq, Eq, Structural)]
pub struct PollConfig {
    /// The part of the stake that must vote for a poll to count.
    pub quorum: Decimal,
    /// The part of the yes and no votes that yes must exceed.
    pub threshold: Decimal,
    /// In blocks.
    pub voting_period: u64,
    /// Blocks between the end of a poll and its execution.
    pub execution_delay_period: u64,
    /// The least deposit a proposal must bring.
    pub proposal_deposit: u128,
    /// Blocks before the end of a poll in which the stake is snapshotted.
    pub snapshot_period: u64,
}

impl PollConfig {
    /// Quorum and threshold lie between 0 and 1.
    pub open spec fn wf(&self) -> bool {
        self.quorum.is_fraction() && self.threshold.is_fraction()
    }
}

/// Counters over all polls.
#[derive(Clone, Copy, Debug, PartialEq, Eq, Structural)]
pub struct PollState {
    pub poll_count: u64,
    /// The deposits of the polls in progress.
    pub total_deposit: u128,
}

/// The execution that waits for its result.
#[derive(Clone, Copy, Debug, PartialEq, Eq, Structural)]
pub struct PollExecutionContext {
    pub poll_id: u64,
    pub execution_count: u64,
}

/// A proposal, its votes, and how it ended.
#[derive(Clone, Debug, PartialEq, Eq)]
pub struct Poll {
    pub id: u64,
    pub creator: String,
    pub status: PollStatus,
    pub yes_votes: u128,
    pub no_votes: u128,
    pub abstain_votes: u128,
    /// The last height at which votes are taken.
    pub end_height: u64,
    pub title: String,
    pub description: String,
    pub link: Option<String>,
    pub executions: Vec<Execution>,
    pub deposit_amount: u128,
    /// The stake that the result was measured against; set when the poll ends.
    pub total_balance_at_end_poll: Option<u128>,
    /// The stake as snapshotted shortly before the end of the poll.
    pub snapped_staked_amount: Option<u128>,
    /// The votes cast, in the order they came.
    pub voters: Vec<VoteInfo>,
}

/// Whether the votes reach the quorum: the votes cast are at least `quorum`
/// times the stake.
pub open spec fn quorum_reached(votes: nat, staked: nat, quorum: Decimal) -> bool {
    votes * DECIMAL_FRACTIONAL >= quorum.atomics * staked
}

/// Whether yes exceeds the threshold: the part of yes in the yes and no
/// votes, cut to eighteen digits, is greater than `threshold`. Without yes
/// and no votes nothing exceeds it.
pub open spec fn threshold_exceeded(yes: nat, no: nat, threshold: Decimal) -> bool {
    yes + no > 0 && ratio(yes as int, DECIMAL_FRACTIONAL as int, (yes + no) as int)
        > threshold.atomics
}

/// How a poll with these tallies ends against a stake of `staked`.
pub open spec fn outcome(
    yes: nat,
    no: nat,
    abstain: nat,
    staked: nat,
    config: &PollConfig,
) -> PollResult {
    if !quorum_reached(yes + no + abstain, staked, config.quorum) {
        PollResult::QuorumNotReached
    } else if threshold_exceeded(yes, no, config.threshold) {
        PollResult::Passed
    } else {
        PollResult::ThresholdNotReached
    }
}

/// Whether `votes` votes reach `quorum` of a stake of `staked`.
pub fn reaches_quorum(votes: u128, staked: u128, quorum: Decimal) -> (r: bool)
    requires
        quorum.is_fraction(),
    ensures
        r == quorum_reached(votes as nat, staked as nat, quorum),
{
    if staked == 0 {
        assert(quorum.atomics * 0 == 0);
        assert(votes * DECIMAL_FRACTIONAL >= 0) by (nonlinear_arith)
            requires
                DECIMAL_FRACTIONAL == 1_000_000_000_000_000_000,
        ;
        true
    } else if votes > staked {
        assert(votes * DECIMAL_FRACTIONAL >= quorum.atomics * staked) by (nonlinear_arith)
            requires
                votes > staked,
                quorum.atomics <= DECIMAL_FRACTIONAL,
        ;
        true
    } else {
        proof {
            lemma_ratio_bounded(DECIMAL_FRACTIONAL as int, votes as int, staked as int);
            assert((DECIMAL_FRACTIONAL as int) * (votes as int) == (votes as int) * (
            DECIMAL_FRACTIONAL as int)) by (nonlinear_arith);
            assert(0 <= votes * DECIMAL_FRACTIONAL) by (nonlinear_arith)
                requires
                    DECIMAL_FRACTIONAL == 1_000_000_000_000_000_000,
            ;
            lemma_floor_reaches(
                (votes as int) * (DECIMAL_FRACTIONAL as int),
                staked as int,
                quorum.atomics as int,
            );
        }
        match multiply_ratio(votes, DECIMAL_FRACTIONAL, staked) {
            Some(part) => part >= quorum.atomics,
            None => true,
        }
    }
}

/// Whether yes exceeds `threshold` among the yes and no votes.
pub fn exceeds_threshold(yes: u128, no: u128, threshold: Decimal) -> (r: bool)
    requires
        yes + no <= u128::MAX,
    ensures
        r == threshold_exceeded(yes as nat, no as nat, threshold),
{
    let votes: u128 = yes + no;
    if votes == 0 {
        false
    } else {
        proof {
            lemma_ratio_bounded(DECIMAL_FRACTIONAL as int, yes as int, votes as int);
            assert((DECIMAL_FRACTIONAL as int) * (yes as int) == (yes as int) * (
            DECIMAL_FRACTIONAL as int)) by (nonlinear_arith);
        }
        match multiply_ratio(yes, DECIMAL_FRACTIONAL, votes) {
            Some(part) => part > threshold.atomics,
            None => true,
        }
    }
}

impl Poll {
    /// All votes cast.
    pub open spec fn tallied(&self) -> nat {
        self.yes_votes as nat + self.no_votes as nat + self.abstain_votes as nat
    }

    /// The tallies add up within 128 bits.
    pub open spec fn wf(&self) -> bool {
        self.tallied() <= u128::MAX
    }

    /// Whether votes are taken at `height`.
    pub open spec fn open_at(&self, height: u64) -> bool {
        self.status == PollStatus::InProgress && height <= self.end_height
    }

    /// Whether `voter` has voted.
    pub open spec fn voted(&self, voter: Seq<char>) -> bool {
        exists|i: int| 0 <= i < self.voters@.len() && (#[trigger] self.voters@[i]).voter@ == voter
    }

    /// Whether votes are taken at `block_height`.
    pub fn in_progress(&self, block_height: u64) -> (r: bool)
        ensures
            r == self.open_at(block_height),
    {
        match self.status {
            PollStatus::InProgress => block_height <= self.end_height,
            _ => false,
        }
    }

    /// Whether `voter` has voted.
    pub fn is_voted(&self, voter: &String) -> (r: bool)
        ensures
            r == self.voted(voter@),
    {
        let mut i: usize = 0;
        while i < self.voters.len()
            invariant
                i <= self.voters.len(),
                forall|j: int| 0 <= j < i ==> (#[trigger] self.voters@[j]).voter@ != voter@,
            decreases self.voters.len() - i,
        {
            if self.voters[i].voter == *voter {
                return true;
            }
            i += 1;
        }
        false
    }

    /// How the poll ends against a stake of `staked_amount`.
    pub fn get_result(&self, config: &PollConfig, staked_amount: u128) -> (r: PollResult)
        requires
            self.wf(),
            config.wf(),
        ensures
            r == outcome(
                self.yes_votes as nat,
                self.no_votes as nat,
                self.abstain_votes as nat,
                staked_amount as nat,
                config,
            ),
    {
        let votes: u128 = self.yes_votes + self.no_votes + self.abstain_votes;
        if !reaches_quorum(votes, staked_amount, config.quorum) {
            PollResult::QuorumNotReached
        } else if exceeds_threshold(self.yes_votes, self.no_votes, config.threshold) {
            PollResult::Passed
        } else {
            PollResult::ThresholdNotReached
        }
    }

    /// Whether the stake can be snapshotted at `height`: no snapshot was
    /// taken, and the poll ends within the snapshot period.
    pub open spec fn snapshot_rejection(&self, config: &PollConfig, height: u64) -> Option<
        ContractError,
    > {
        if self.snapped_staked_amount.is_some() {
            Some(ContractError::Generic(Violation::SnapshotAlreadyOccurred))
        } else if height > self.end_height || self.end_height - height > config.snapshot_period {
            Some(ContractError::Generic(Violation::SnapshotTooEarly))
        } else {
            None
        }
    }

    /// Whether the stake can be snapshotted at `block_height`.
    pub fn check_snapshot(&self, config: &PollConfig, block_height: u64) -> (r: Result<
        (),
        ContractError,
    >)
        ensures
            match self.snapshot_rejection(config, block_height) {
                Some(e) => r == Err::<(), ContractError>(e),
                None => r.is_ok(),
            },
    {
        if self.snapped_staked_amount.is_some() {
            return Err(ContractError::Generic(Violation::SnapshotAlreadyOccurred));
        }
        if block_height > self.end_height || self.end_height - block_height
            > config.snapshot_period {
            return Err(ContractError::Generic(Violation::SnapshotTooEarly));
        }
        Ok(())
    }

    /// Records `contract_available_balance` as the stake that the poll will
    /// be measured against, and returns it. Fails, changing nothing, where a
    /// snapshot was taken before or the end of the poll is further away than
    /// the snapshot period.
    pub fn snapshot_staked_amount(
        &mut self,
        config: &PollConfig,
        block_height: u64,
        contract_available_balance: u128,
    ) -> (r: Result<u128, ContractError>)
        ensures
            match old(self).snapshot_rejection(config, block_height) {
                Some(e) => r == Err::<u128, ContractError>(e) && *final(self) == *old(self),
                None => {
                    &&& r == Ok::<u128, ContractError>(contract_available_balance)
                    &&& *final(self) == (Poll {
                        snapped_staked_amount: Some(contract_available_balance),
                        ..*old(self)
                    })
                },
            },
    {
        match self.check_snapshot(config, block_height) {
            Err(e) => {
                return Err(e);
            },
            Ok(_) => {},
        }
        self.snapped_staked_amount = Some(contract_available_balance);
        Ok(contract_available_balance)
    }
}

} // verus!
