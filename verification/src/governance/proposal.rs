//! Proposal state, including the total eligible weight snapshotted at creation.

use std::collections::BTreeMap;
use vstd::prelude::*;

use crate::governance::{ProposalId, VoterId};
use crate::weight_sum::{capped, lemma_weight_sum_insert, weight_sum};

verus! {

broadcast use vstd::std_specs::btree::group_btree_axioms;

/// Errors returned when mutating a proposal.
#[derive(Debug, Clone, Copy, PartialEq, Eq, Structural)]
pub enum ProposalError {
    /// No proposal exists for the given id.
    UnknownProposal,
    /// The voter has already cast a vote on this proposal.
    AlreadyVoted,
    /// Voting on this proposal has closed.
    VotingClosed,
}

/// Lifecycle status of a proposal.
#[derive(Debug, Clone, Copy, PartialEq, Eq, Structural)]
pub enum ProposalStatus {
    /// Votes are still being accepted.
    Open,
    /// Voting has closed and quorum was met.
    QuorumMet,
    /// Voting has closed and quorum was not met.
    QuorumNotMet,
}

/// A governance proposal.
///
/// `total_eligible_weight` is captured once, at creation time, and is the
/// denominator used for quorum. It is deliberately not recomputed from live
/// state so that late registration of weight cannot influence quorum.
#[derive(Debug, Clone)]
pub struct Proposal {
    pub id: ProposalId,
    /// Total eligible voting weight snapshotted at proposal-creation time.
    pub total_eligible_weight: u128,
    /// Quorum threshold in basis points of `total_eligible_weight`.
    pub quorum_bps: u16,
    /// Weight cast per voter.
    pub votes: BTreeMap<VoterId, u128>,
    /// Sum of all weight cast so far.
    pub votes_cast: u128,
    pub status: ProposalStatus,
}

/// What a vote by `voter` with `weight` does to a proposal that was `before`
/// and is `after`, answering `result`: a voter who already voted is refused
/// with `AlreadyVoted`; otherwise, once voting has closed (the status is no
/// longer `Open`) the vote is refused with `VotingClosed`; a refused vote
/// changes nothing. Any other vote is recorded and its weight added to
/// `votes_cast`, saturating at `u128::MAX`; the id, the snapshotted eligible
/// weight, the threshold and the status stay as they were.
pub open spec fn vote_outcome(
    before: Proposal,
    after: Proposal,
    voter: VoterId,
    weight: u128,
    result: Result<(), ProposalError>,
) -> bool {
    if before.votes@.contains_key(voter) {
        result == Err::<(), ProposalError>(ProposalError::AlreadyVoted) && after == before
    } else if before.status != ProposalStatus::Open {
        result == Err::<(), ProposalError>(ProposalError::VotingClosed) && after == before
    } else {
        &&& result == Ok::<(), ProposalError>(())
        &&& after.id == before.id
        &&& after.total_eligible_weight == before.total_eligible_weight
        &&& after.quorum_bps == before.quorum_bps
        &&& after.status == before.status
        &&& after.votes@ == before.votes@.insert(voter, weight)
        &&& after.votes_cast == capped(before.votes_cast + weight)
    }
}

impl Proposal {
    /// The tally agrees with the recorded votes: `votes_cast` is the sum of
    /// the weights in `votes`, saturated at `u128::MAX`.
    pub open spec fn tally_consistent(&self) -> bool {
        self.votes_cast == capped(weight_sum(self.votes@))
    }

    /// Create a proposal with the given snapshotted eligible weight.
    pub fn new(id: ProposalId, total_eligible_weight: u128, quorum_bps: u16) -> (proposal: Self)
        ensures
            proposal.id == id,
            proposal.total_eligible_weight == total_eligible_weight,
            proposal.quorum_bps == quorum_bps,
            proposal.votes@ == Map::<VoterId, u128>::empty(),
            proposal.votes_cast == 0,
            proposal.status == ProposalStatus::Open,
            proposal.tally_consistent(),
    {
        let proposal = Proposal {
            id,
            total_eligible_weight,
            quorum_bps,
            votes: BTreeMap::new(),
            votes_cast: 0,
            status: ProposalStatus::Open,
        };
        proof {
            crate::weight_sum::lemma_weight_sum_empty();
        }
        proposal
    }

    /// Record a vote, rejecting duplicate voters and votes once voting has
    /// closed.
    ///
    /// A voter who already voted gets `AlreadyVoted`; any other voter on a
    /// proposal whose status is no longer `Open` gets `VotingClosed`; either
    /// way the proposal is left as it was. Otherwise the vote is recorded and
    /// its weight added to `votes_cast` (saturating at `u128::MAX`).
    pub fn cast_vote(&mut self, voter: VoterId, weight: u128) -> (result: Result<(), ProposalError>)
        ensures
            vote_outcome(*old(self), *final(self), voter, weight, result),
            old(self).tally_consistent() ==> final(self).tally_consistent(),
    {
        if self.votes.contains_key(&voter) {
            return Err(ProposalError::AlreadyVoted);
        }
        if self.status != ProposalStatus::Open {
            return Err(ProposalError::VotingClosed);
        }
        proof {
            lemma_weight_sum_insert(self.votes@, voter, weight);
        }
        self.votes.insert(voter, weight);
        self.votes_cast = self.votes_cast.saturating_add(weight);
        Ok(())
    }
}

} // verus!
