//! What holds of every poll.

use vstd::prelude::*;
use crate::governance::poll::executions::{status_of, vote_counted};
use crate::governance::poll::states::{
    outcome, quorum_reached, threshold_exceeded, Poll, PollConfig, PollResult, PollStatus,
    VoteInfo,
};
use crate::math::{ratio, Decimal, DECIMAL_FRACTIONAL};

verus! {

/// A poll whose yes votes are exactly the threshold's part of the yes and no
/// votes does not pass: the threshold must be exceeded.
pub proof fn lemma_exact_threshold_does_not_pass(
    yes: nat,
    no: nat,
    abstain: nat,
    staked: nat,
    config: &PollConfig,
)
    requires
        yes * DECIMAL_FRACTIONAL == config.threshold.atomics * (yes + no),
    ensures
        !threshold_exceeded(yes, no, config.threshold),
        outcome(yes, no, abstain, staked, config) != PollResult::Passed,
{
    if yes + no > 0 {
        let votes = (yes + no) as int;
        let threshold = config.threshold.atomics as int;
        assert(ratio(yes as int, DECIMAL_FRACTIONAL as int, votes) == threshold) by {
            assert((yes as int) * (DECIMAL_FRACTIONAL as int) == threshold * votes);
            vstd::arithmetic::div_mod::lemma_div_multiples_vanish(threshold, votes);
            assert(threshold * votes == votes * threshold) by (nonlinear_arith);
        }
    }
}

/// A poll whose votes are exactly the quorum's part of the stake reaches the
/// quorum: the quorum must be met, not exceeded.
pub proof fn lemma_exact_quorum_is_reached(
    yes: nat,
    no: nat,
    abstain: nat,
    staked: nat,
    config: &PollConfig,
)
    requires
        (yes + no + abstain) * DECIMAL_FRACTIONAL == config.quorum.atomics * staked,
    ensures
        quorum_reached(yes + no + abstain, staked, config.quorum),
        outcome(yes, no, abstain, staked, config) != PollResult::QuorumNotReached,
{
}

/// A poll that sits on both boundaries, with exactly the quorum of votes and
/// exactly the threshold of yes, is rejected for its threshold.
pub proof fn lemma_boundary_poll_is_rejected(
    yes: nat,
    no: nat,
    abstain: nat,
    staked: nat,
    config: &PollConfig,
)
    requires
        (yes + no + abstain) * DECIMAL_FRACTIONAL == config.quorum.atomics * staked,
        yes * DECIMAL_FRACTIONAL == config.threshold.atomics * (yes + no),
    ensures
        outcome(yes, no, abstain, staked, config) == PollResult::ThresholdNotReached,
        status_of(outcome(yes, no, abstain, staked, config)) == PollStatus::Rejected,
{
    lemma_exact_threshold_does_not_pass(yes, no, abstain, staked, config);
    lemma_exact_quorum_is_reached(yes, no, abstain, staked, config);
}

/// One vote more above the quorum boundary does not miss the quorum either:
/// more votes against the same stake never lose a quorum that was reached.
pub proof fn lemma_quorum_is_monotonic(votes: nat, more: nat, staked: nat, quorum: Decimal)
    requires
        quorum_reached(votes, staked, quorum),
    ensures
        quorum_reached(votes + more, staked, quorum),
{
    assert((votes + more) * DECIMAL_FRACTIONAL >= votes * DECIMAL_FRACTIONAL) by (nonlinear_arith)
        requires
            DECIMAL_FRACTIONAL == 1_000_000_000_000_000_000,
    ;
}

/// A vote only adds: no tally of the poll is smaller afterwards, and the
/// poll has neither ended nor changed what it proposes.
pub proof fn lemma_vote_only_adds(
    before: &Poll,
    after: &Poll,
    config: &PollConfig,
    height: u64,
    available: u128,
    vote: VoteInfo,
)
    requires
        vote_counted(before, after, config, height, available, vote),
    ensures
        after.yes_votes >= before.yes_votes,
        after.no_votes >= before.no_votes,
        after.abstain_votes >= before.abstain_votes,
        after.tallied() == before.tallied() + vote.amount,
        after.status == before.status,
        after.total_balance_at_end_poll == before.total_balance_at_end_poll,
{
}

/// No result leaves a poll in progress: a poll ends once.
pub proof fn lemma_poll_ends_once(result: PollResult)
    ensures
        status_of(result) != PollStatus::InProgress,
{
}

} // verus!
