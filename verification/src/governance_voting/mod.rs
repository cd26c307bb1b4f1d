//! Governance voting: weighted vote tallying that counts each voter once.

pub mod delegation;
pub mod laws;

use std::collections::BTreeMap;
use vstd::prelude::*;

pub use delegation::DelegationError;

use crate::weight_sum::{capped, lemma_weight_sum_empty, lemma_weight_sum_insert, weight_sum};

verus! {

broadcast use vstd::std_specs::btree::group_btree_axioms;

/// Identifier for a voter.
pub type VoterId = u64;

/// A weighted vote tally that counts each unit of weight exactly once.
#[derive(Debug)]
pub struct VoteTally {
    /// Weight cast per voter.
    weights: BTreeMap<VoterId, u128>,
    /// Sum of all weight cast.
    total: u128,
}

impl Default for VoteTally {
    /// An empty tally, as [`VoteTally::new`].
    fn default() -> (tally: Self)
        ensures
            tally.ballots() == Map::<VoterId, u128>::empty(),
    {
        VoteTally::new()
    }
}

impl VoteTally {
    /// The total is the sum of the recorded weights, each counted once,
    /// saturated at `u128::MAX`.
    #[verifier::type_invariant]
    closed spec fn counts_each_vote_once(self) -> bool {
        self.total == capped(weight_sum(self.weights@))
    }

    /// The weight recorded per voter.
    pub closed spec fn ballots(&self) -> Map<VoterId, u128> {
        self.weights@
    }

    /// Create an empty tally.
    pub fn new() -> (tally: Self)
        ensures
            tally.ballots() == Map::<VoterId, u128>::empty(),
    {
        proof {
            lemma_weight_sum_empty();
        }
        VoteTally { weights: BTreeMap::new(), total: 0 }
    }

    /// Record `weight` for `voter`, rejecting duplicate voters.
    ///
    /// A voter who already has a recorded weight gets `AlreadyVotedDirectly`
    /// and the tally is left as it was.
    pub fn record(&mut self, voter: VoterId, weight: u128) -> (result: Result<(), DelegationError>)
        ensures
            old(self).ballots().contains_key(voter) ==> {
                &&& result == Err::<(), DelegationError>(DelegationError::AlreadyVotedDirectly)
                &&& final(self).ballots() == old(self).ballots()
            },
            !old(self).ballots().contains_key(voter) ==> {
                &&& result == Ok::<(), DelegationError>(())
                &&& final(self).ballots() == old(self).ballots().insert(voter, weight)
                &&& capped(weight_sum(final(self).ballots()))
                    == capped(capped(weight_sum(old(self).ballots())) + weight)
            },
            final(self).ballots().dom().finite(),
            final(self).ballots() == laws::record_step(old(self).ballots(), voter, weight),
    {
        proof {
            use_type_invariant(&*self);
        }
        if self.weights.contains_key(&voter) {
            return Err(DelegationError::AlreadyVotedDirectly);
        }
        proof {
            lemma_weight_sum_insert(self.weights@, voter, weight);
        }
        let mut current = VoteTally::new();
        std::mem::swap(&mut current, self);
        let VoteTally { mut weights, total } = current;
        weights.insert(voter, weight);
        *self = VoteTally { weights, total: total.saturating_add(weight) };
        Ok(())
    }

    /// Total weight cast: the sum of every recorded weight, each counted
    /// once, saturated at `u128::MAX`.
    pub fn total(&self) -> (total: u128)
        ensures
            total == capped(weight_sum(self.ballots())),
            self.ballots().dom().finite(),
    {
        proof {
            use_type_invariant(self);
        }
        self.total
    }
}

} // verus!
