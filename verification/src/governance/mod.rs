//! Governance: proposal creation and weighted vote tallying.
//!
//! Quorum is measured against the total eligible voting weight snapshotted at
//! proposal-creation time. It is never measured against votes actually cast and
//! is never read live, so late registration of weight cannot influence quorum
//! after seeing how a vote is trending.

pub mod laws;
pub mod proposal;
pub mod quorum;

use std::collections::BTreeMap;
use vstd::prelude::*;

pub use proposal::{Proposal, ProposalError, ProposalStatus};
pub use quorum::{QuorumError, QuorumResult};

use crate::governance::proposal::vote_outcome;
use crate::governance::quorum::spec_evaluate;
use crate::weight_sum::{lemma_weight_sum_nonneg, lemma_weight_sum_remove, weight_sum};

verus! {

/// Identifier for a proposal.
pub type ProposalId = u64;

/// Identifier for a voter.
pub type VoterId = u64;

broadcast use vstd::std_specs::btree::group_btree_axioms;

/// What a [`Governance`] holds: the next proposal id, the proposals by id and
/// the registered voting weight by voter.
pub ghost struct GovernanceView {
    pub next_proposal_id: ProposalId,
    pub proposals: Map<ProposalId, Proposal>,
    pub registered_weight: Map<VoterId, u128>,
}

/// Governance contract holding proposals and the registered voting weight.
///
/// The registered weight map is the source of truth for the quorum
/// denominator. It is snapshotted into each proposal at creation time and is
/// never consulted live during tallying.
#[derive(Debug)]
pub struct Governance {
    next_proposal_id: ProposalId,
    proposals: BTreeMap<ProposalId, Proposal>,
    /// Total registered voting weight per voter.
    registered_weight: BTreeMap<VoterId, u128>,
}

impl View for Governance {
    type V = GovernanceView;

    closed spec fn view(&self) -> GovernanceView {
        GovernanceView {
            next_proposal_id: self.next_proposal_id,
            proposals: self.proposals@,
            registered_weight: self.registered_weight@,
        }
    }
}

/// `get_mut` of `std::collections::BTreeMap`, for the proposal map: a mutable
/// reference to the proposal stored under `id`, if there is one. What is
/// written through it becomes the entry under `id`; no other entry changes.
/// The lookup does not panic.
#[verifier::external_body]
fn proposal_entry_mut<'a>(
    proposals: &'a mut BTreeMap<ProposalId, Proposal>,
    id: &ProposalId,
) -> (entry: Option<&'a mut Proposal>)
    ensures
        entry is None <==> !old(proposals)@.contains_key(*id),
        entry is None ==> final(proposals)@ == old(proposals)@,
        entry matches Some(p) ==> {
            &&& *p == old(proposals)@[*id]
            &&& final(proposals)@ == old(proposals)@.insert(*id, *final(p))
        },
    no_unwind
{
    proposals.get_mut(id)
}

impl Default for Governance {
    /// An empty governance contract, as [`Governance::new`].
    fn default() -> (governance: Self)
        ensures
            governance@.next_proposal_id == 0,
            governance@.proposals == Map::<ProposalId, Proposal>::empty(),
            governance@.registered_weight == Map::<VoterId, u128>::empty(),
    {
        Governance::new()
    }
}

/// The answer of `check_quorum` for `id` on a governance in state `g`.
pub open spec fn quorum_of(g: GovernanceView, id: ProposalId) -> Result<QuorumResult, QuorumError> {
    if g.proposals.contains_key(id) {
        Ok(spec_evaluate(&g.proposals[id]))
    } else {
        Err(QuorumError::UnknownProposal)
    }
}

/// Only the entry under `id` may differ between `before` and `after`; the
/// registered weights and the next id are the same.
pub open spec fn only_proposal_changed(before: GovernanceView, after: GovernanceView, id: ProposalId) -> bool {
    &&& after.next_proposal_id == before.next_proposal_id
    &&& after.registered_weight == before.registered_weight
    &&& after.proposals.dom() == before.proposals.dom()
    &&& forall|other: ProposalId| other != id && #[trigger] before.proposals.contains_key(other)
        ==> after.proposals[other] == before.proposals[other]
}

impl Governance {
    /// A proposal is stored under every id handed out so far, and under no
    /// other.
    #[verifier::type_invariant]
    closed spec fn ids_handed_out(self) -> bool {
        forall|id: ProposalId| #[trigger] self.proposals@.contains_key(id) <==> id < self.next_proposal_id
    }

    /// Total registered voting weight, as a mathematical integer.
    pub open spec fn spec_total_eligible_weight(&self) -> int {
        weight_sum(self@.registered_weight)
    }

    /// Create an empty governance contract.
    pub fn new() -> (governance: Self)
        ensures
            governance@.next_proposal_id == 0,
            governance@.proposals == Map::<ProposalId, Proposal>::empty(),
            governance@.registered_weight == Map::<VoterId, u128>::empty(),
    {
        Governance {
            next_proposal_id: 0,
            proposals: BTreeMap::new(),
            registered_weight: BTreeMap::new(),
        }
    }

    /// Register (or replace) the voting weight for a voter.
    ///
    /// This only affects proposals created afterwards; existing proposals keep
    /// the total eligible weight snapshotted when they were created.
    pub fn register_weight(&mut self, voter: VoterId, weight: u128)
        ensures
            final(self)@.registered_weight == old(self)@.registered_weight.insert(voter, weight),
            final(self)@.proposals == old(self)@.proposals,
            final(self)@.next_proposal_id == old(self)@.next_proposal_id,
            final(self)@.registered_weight.dom().finite(),
    {
        proof {
            use_type_invariant(&*self);
        }
        let mut current = Governance::new();
        std::mem::swap(&mut current, self);
        let Governance { next_proposal_id, proposals, mut registered_weight } = current;
        registered_weight.insert(voter, weight);
        *self = Governance { next_proposal_id, proposals, registered_weight };
    }

    /// Total eligible voting weight currently registered.
    ///
    /// The sum must fit in a `u128`: a larger sum overflows.
    pub fn total_eligible_weight(&self) -> (total: u128)
        requires
            self.spec_total_eligible_weight() <= u128::MAX,
        ensures
            total == self.spec_total_eligible_weight(),
            total == weight_sum(self@.registered_weight),
            self@.registered_weight.dom().finite(),
    {
        let ghost weights = self.registered_weight@;
        let mut total: u128 = 0;
        let mut rest: Ghost<Map<VoterId, u128>> = Ghost(weights);
        let voters = self.registered_weight.keys();
        let ghost order = vstd::std_specs::iter::IteratorSpec::remaining(&voters);
        proof {
            assert(order.subrange(0, order.len() as int) =~= order);
        }
        for voter in it: voters
            invariant
                it.seq() == order,
                weights == self.registered_weight@,
                weight_sum(weights) <= u128::MAX,
                rest@.dom().finite(),
                total + weight_sum(rest@) == weight_sum(weights),
                rest@.dom() == it.seq().subrange(it.index(), it.seq().len() as int).unref().to_set(),
                forall|k: VoterId| #[trigger] rest@.contains_key(k) ==> weights.contains_key(k) && rest@[k] == weights[k],
                it.seq().no_duplicates(),
        {
            let ghost i = it.index();
            let ghost ahead = order.subrange(i, order.len() as int).unref();
            let ghost after = order.subrange(i + 1, order.len() as int).unref();
            proof {
                assert(ahead[0] == *voter);
                assert(ahead.to_set().contains(*voter));
            }
            let weight = *self.registered_weight.get(voter).unwrap();
            proof {
                lemma_weight_sum_remove(rest@, *voter);
                lemma_weight_sum_nonneg(rest@.remove(*voter));
                assert forall|x: VoterId| #[trigger] rest@.remove(*voter).dom().contains(x) == after.to_set().contains(x) by {
                    if after.to_set().contains(x) {
                        let j = choose|j: int| 0 <= j < after.len() && after[j] == x;
                        assert(ahead[j + 1] == x);
                        assert(ahead.to_set().contains(x));
                        assert(order[i] != order[i + 1 + j]);
                    }
                    if rest@.remove(*voter).dom().contains(x) {
                        assert(ahead.to_set().contains(x));
                        let j = choose|j: int| 0 <= j < ahead.len() && ahead[j] == x;
                        assert(j != 0);
                        assert(after[j - 1] == x);
                    }
                }
                assert(rest@.remove(*voter).dom() =~= after.to_set());
            }
            total = total + weight;
            proof {
                rest@ = rest@.remove(*voter);
            }
        }
        proof {
            if rest@.dom().len() > 0 {
                let k = rest@.dom().choose();
                assert(rest@.contains_key(k));
            }
        }
        total
    }

    /// Create a proposal, snapshotting the total eligible weight at this moment.
    ///
    /// Ids are handed out in order: the new proposal gets the next id. The
    /// total registered weight must fit in a `u128`, and the id counter must
    /// not be exhausted.
    pub fn create_proposal(&mut self, quorum_bps: u16) -> (id: ProposalId)
        requires
            old(self).spec_total_eligible_weight() <= u128::MAX,
            old(self)@.next_proposal_id < u64::MAX,
        ensures
            id == old(self)@.next_proposal_id,
            !old(self)@.proposals.contains_key(id),
            final(self)@.next_proposal_id == id + 1,
            final(self)@.registered_weight == old(self)@.registered_weight,
            final(self)@.proposals.dom() == old(self)@.proposals.dom().insert(id),
            forall|other: ProposalId| #[trigger] old(self)@.proposals.contains_key(other)
                ==> final(self)@.proposals[other] == old(self)@.proposals[other],
            ({
                let p = final(self)@.proposals[id];
                &&& p.id == id
                &&& p.total_eligible_weight == old(self).spec_total_eligible_weight()
                &&& p.total_eligible_weight == weight_sum(old(self)@.registered_weight)
                &&& p.quorum_bps == quorum_bps
                &&& p.votes@ == Map::<VoterId, u128>::empty()
                &&& p.votes_cast == 0
                &&& p.status == ProposalStatus::Open
                &&& p.tally_consistent()
            }),
    {
        proof {
            use_type_invariant(&*self);
        }
        let snapshot = self.total_eligible_weight();
        let mut current = Governance::new();
        std::mem::swap(&mut current, self);
        let Governance { next_proposal_id: id, mut proposals, registered_weight } = current;
        proposals.insert(id, Proposal::new(id, snapshot, quorum_bps));
        *self = Governance { next_proposal_id: id + 1, proposals, registered_weight };
        id
    }

    /// Borrow a proposal by id.
    pub fn proposal(&self, id: ProposalId) -> (found: Option<&Proposal>)
        ensures
            found is None <==> !self@.proposals.contains_key(id),
            found is Some <==> id < self@.next_proposal_id,
            found matches Some(p) ==> *p == self@.proposals[id],
    {
        proof {
            use_type_invariant(self);
        }
        self.proposals.get(&id)
    }

    /// Mutably borrow a proposal by id. What is written through the borrow
    /// becomes the proposal under `id`; nothing else changes.
    pub fn proposal_mut(&mut self, id: ProposalId) -> (found: Option<&mut Proposal>)
        ensures
            found is None <==> !old(self)@.proposals.contains_key(id),
            found is None ==> final(self)@ == old(self)@,
            found matches Some(p) ==> {
                &&& *p == old(self)@.proposals[id]
                &&& final(self)@.next_proposal_id == old(self)@.next_proposal_id
                &&& final(self)@.registered_weight == old(self)@.registered_weight
                &&& final(self)@.proposals == old(self)@.proposals.insert(id, *final(p))
            },
    {
        proof {
            use_type_invariant(&*self);
        }
        proposal_entry_mut(&mut self.proposals, &id)
    }

    /// Cast a vote of `weight` for a proposal.
    ///
    /// The weight is recorded against the proposal's tally. Quorum is evaluated
    /// against the proposal's snapshotted total eligible weight, not the weight
    /// cast here.
    pub fn vote(&mut self, id: ProposalId, voter: VoterId, weight: u128) -> (result: Result<(), ProposalError>)
        ensures
            !old(self)@.proposals.contains_key(id) ==> {
                &&& result == Err::<(), ProposalError>(ProposalError::UnknownProposal)
                &&& final(self)@ == old(self)@
            },
            old(self)@.proposals.contains_key(id) ==> {
                &&& only_proposal_changed(old(self)@, final(self)@, id)
                &&& vote_outcome(old(self)@.proposals[id], final(self)@.proposals[id], voter, weight, result)
            },
    {
        proof {
            use_type_invariant(&*self);
        }
        let ghost before = self@;
        let result = match proposal_entry_mut(&mut self.proposals, &id) {
            None => Err(ProposalError::UnknownProposal),
            Some(proposal) => proposal.cast_vote(voter, weight),
        };
        proof {
            assert(self@.proposals.dom() =~= before.proposals.dom());
        }
        result
    }

    /// Evaluate whether a proposal has met quorum.
    pub fn check_quorum(&self, id: ProposalId) -> (result: Result<QuorumResult, QuorumError>)
        ensures
            result == quorum_of(self@, id),
            result is Err <==> !self@.proposals.contains_key(id),
            result matches Err(e) ==> e == QuorumError::UnknownProposal,
            result matches Ok(r) ==> r == spec_evaluate(&self@.proposals[id]),
    {
        match self.proposals.get(&id) {
            None => Err(QuorumError::UnknownProposal),
            Some(proposal) => quorum::evaluate(proposal),
        }
    }
}

} // verus!
