//! Properties of proposals and quorum that span several calls.

use vstd::prelude::*;

use crate::governance::proposal::{vote_outcome, Proposal, ProposalError};
use crate::governance::proposal::ProposalStatus;
use crate::governance::quorum::{quorum_numerator, spec_evaluate, spec_required_weight, status_for, QuorumError, QuorumResult};
use crate::governance::{quorum_of, Governance, GovernanceView, ProposalId, VoterId};
use crate::weight_sum::{lemma_weight_sum_empty, lemma_weight_sum_insert, lemma_weight_sum_remove};

verus! {

broadcast use vstd::std_specs::btree::group_btree_axioms;

/// The quorum denominator is a snapshot: registering (or replacing) voting
/// weight after a proposal exists does not change that proposal's quorum
/// evaluation.
pub proof fn quorum_ignores_later_registration(
    g: GovernanceView,
    id: ProposalId,
    voter: VoterId,
    weight: u128,
)
    ensures
        quorum_of(GovernanceView { registered_weight: g.registered_weight.insert(voter, weight), ..g }, id)
            == quorum_of(g, id),
{
}

/// The required weight is the proposal's own threshold share of its
/// snapshotted weight, rounded up: `ceil(min(total * quorum_bps, u128::MAX) /
/// 10_000)`, i.e. the least weight whose 10_000-fold reaches that product.
/// Quorum is met exactly when the cast weight reaches it, so rounding never
/// lets a proposal pass below its threshold.
pub proof fn quorum_met_iff_threshold_reached(p: Proposal)
    ensures
        ({
            let product = p.total_eligible_weight * p.quorum_bps;
            let share: int = if product > u128::MAX { u128::MAX as int } else { product };
            let r = spec_evaluate(&p).required_weight as int;
            &&& r * 10_000 >= share
            &&& r == 0 || (r - 1) * 10_000 < share
            &&& (spec_evaluate(&p).met <==> p.votes_cast >= r)
            &&& (spec_evaluate(&p).met <==> p.votes_cast * 10_000 >= share)
        }),
        spec_evaluate(&p).total_eligible_weight == p.total_eligible_weight,
        spec_evaluate(&p).votes_cast == p.votes_cast,
{
    let product = p.total_eligible_weight * p.quorum_bps;
    let share: int = if product > u128::MAX { u128::MAX as int } else { product };
    let n = quorum_numerator(p.total_eligible_weight, p.quorum_bps);
    assert(n == share);
    let r = spec_required_weight(p.total_eligible_weight, p.quorum_bps);
    let v = p.votes_cast as int;
    assert(0 <= p.total_eligible_weight * p.quorum_bps) by (nonlinear_arith);
    assert(0 <= n <= u128::MAX);
    assert(r * 10_000 >= n && (r == 0 || (r - 1) * 10_000 < n)) by (nonlinear_arith)
        requires
            0 <= n,
            r == (if n % 10_000 == 0 { n / 10_000 } else { n / 10_000 + 1 }),
    ;
    assert(0 <= r <= u128::MAX) by (nonlinear_arith)
        requires
            0 <= n <= u128::MAX,
            r == (if n % 10_000 == 0 { n / 10_000 } else { n / 10_000 + 1 }),
    ;
    assert(spec_evaluate(&p).required_weight as int == r);
    assert(v >= r <==> v * 10_000 >= n) by (nonlinear_arith)
        requires
            v >= 0,
            r >= 0,
            r * 10_000 >= n,
            r == 0 || (r - 1) * 10_000 < n,
    ;
}

/// Finalizing closes voting with the status that the evaluation's `met`
/// decides: `QuorumMet` when it is true, `QuorumNotMet` otherwise; never
/// `Open`.
pub proof fn finalized_status_follows_met(r: QuorumResult)
    ensures
        status_for(r) == ProposalStatus::QuorumMet <==> r.met,
        status_for(r) == ProposalStatus::QuorumNotMet <==> !r.met,
        status_for(r) != ProposalStatus::Open,
{
}

/// `check_quorum` finds every stored proposal, whatever its status: it
/// answers `UnknownProposal` exactly for the ids with no proposal, and for a
/// stored one it answers the evaluation of that proposal.
pub proof fn check_quorum_finds_every_stored_proposal(g: GovernanceView, id: ProposalId)
    ensures
        quorum_of(g, id) is Err <==> !g.proposals.contains_key(id),
        quorum_of(g, id) matches Err(e) ==> e == QuorumError::UnknownProposal,
        g.proposals.contains_key(id) ==> quorum_of(g, id) == Ok::<QuorumResult, QuorumError>(spec_evaluate(&g.proposals[id])),
{
}

/// The total eligible weight counts every registered voter once: it is 0
/// when nobody is registered, registering a fresh voter (any id, 0
/// included) raises it by exactly that voter's weight, and re-registering a
/// voter replaces the old weight by the new one.
pub proof fn total_eligible_weight_counts_every_voter(
    before: Governance,
    after: Governance,
    voter: VoterId,
    weight: u128,
)
    requires
        after@.registered_weight == before@.registered_weight.insert(voter, weight),
    ensures
        before@.registered_weight == Map::<VoterId, u128>::empty() ==> before.spec_total_eligible_weight() == 0,
        !before@.registered_weight.contains_key(voter)
            ==> after.spec_total_eligible_weight() == before.spec_total_eligible_weight() + weight,
        before@.registered_weight.contains_key(voter)
            ==> after.spec_total_eligible_weight()
                == before.spec_total_eligible_weight() - before@.registered_weight[voter] + weight,
{
    let m = before@.registered_weight;
    lemma_weight_sum_empty();
    assert(m.dom().finite());
    if !m.contains_key(voter) {
        lemma_weight_sum_insert(m, voter, weight);
    } else {
        lemma_weight_sum_remove(m, voter);
        lemma_weight_sum_insert(m.remove(voter), voter, weight);
        assert(m.remove(voter).insert(voter, weight) =~= m.insert(voter, weight));
    }
}

/// A larger snapshot or a higher threshold never lowers the weight required
/// for quorum.
pub proof fn required_weight_is_monotonic(t1: u128, b1: u16, t2: u128, b2: u16)
    requires
        t1 <= t2,
        b1 <= b2,
    ensures
        spec_required_weight(t1, b1) <= spec_required_weight(t2, b2),
{
    let n1 = quorum_numerator(t1, b1);
    let n2 = quorum_numerator(t2, b2);
    assert(t1 * b1 <= t2 * b2) by (nonlinear_arith)
        requires
            0 <= t1 <= t2,
            0 <= b1 <= b2,
    ;
    assert(0 <= n1 <= n2);
    let r1 = spec_required_weight(t1, b1);
    let r2 = spec_required_weight(t2, b2);
    assert(r1 <= r2) by (nonlinear_arith)
        requires
            0 <= n1 <= n2,
            r1 == (if n1 % 10_000 == 0 { n1 / 10_000 } else { n1 / 10_000 + 1 }),
            r2 == (if n2 % 10_000 == 0 { n2 / 10_000 } else { n2 / 10_000 + 1 }),
    ;
}

/// Votes only accumulate: a vote, accepted or refused, never lowers the cast
/// weight and never drops a recorded ballot.
pub proof fn votes_only_accumulate(
    before: Proposal,
    after: Proposal,
    voter: VoterId,
    weight: u128,
    result: Result<(), ProposalError>,
)
    requires
        vote_outcome(before, after, voter, weight, result),
    ensures
        after.votes_cast >= before.votes_cast,
        forall|v: VoterId| #[trigger] before.votes@.contains_key(v)
            ==> after.votes@.contains_key(v) && after.votes@[v] == before.votes@[v],
{
}

/// Each voter counts once: after a voter's vote has been recorded, any
/// further vote by the same voter is refused with `AlreadyVoted` and changes
/// nothing, whether or not voting has closed since.
pub proof fn second_vote_is_refused(
    p1: Proposal,
    p2: Proposal,
    voter: VoterId,
    weight: u128,
    result: Result<(), ProposalError>,
)
    requires
        p1.votes@.contains_key(voter),
        vote_outcome(p1, p2, voter, weight, result),
    ensures
        result == Err::<(), ProposalError>(ProposalError::AlreadyVoted),
        p2 == p1,
{
}

/// An accepted vote adds exactly its weight to the cast weight, stopping at
/// `u128::MAX`, and records the voter with that weight; it is accepted
/// exactly when the voter has not voted and voting is open.
pub proof fn accepted_vote_adds_its_weight(
    before: Proposal,
    after: Proposal,
    voter: VoterId,
    weight: u128,
    result: Result<(), ProposalError>,
)
    requires
        vote_outcome(before, after, voter, weight, result),
    ensures
        result is Ok <==> (!before.votes@.contains_key(voter) && before.status == ProposalStatus::Open),
        result is Ok ==> {
            &&& after.votes_cast as int == if before.votes_cast + weight > u128::MAX {
                u128::MAX as int
            } else {
                before.votes_cast + weight
            }
            &&& after.votes@.contains_key(voter)
            &&& after.votes@[voter] == weight
        },
        result is Err ==> after == before,
{
}

/// An accepted vote records the voter, so the voter's next vote is refused.
pub proof fn accepted_vote_records_voter(
    p0: Proposal,
    p1: Proposal,
    voter: VoterId,
    weight: u128,
    result: Result<(), ProposalError>,
)
    requires
        vote_outcome(p0, p1, voter, weight, result),
        result is Ok,
    ensures
        p1.votes@.contains_key(voter),
{
}

/// A finalized proposal is closed: whatever quorum it reached, a vote by a
/// voter who has not voted is refused with `VotingClosed`, a repeat voter is
/// refused with `AlreadyVoted`, and neither changes anything.
pub proof fn finalized_proposal_takes_no_votes(
    before: Proposal,
    closed: Proposal,
    after: Proposal,
    voter: VoterId,
    weight: u128,
    result: Result<(), ProposalError>,
)
    requires
        closed.status == status_for(spec_evaluate(&before)),
        vote_outcome(closed, after, voter, weight, result),
    ensures
        !closed.votes@.contains_key(voter) ==> result == Err::<(), ProposalError>(ProposalError::VotingClosed),
        closed.votes@.contains_key(voter) ==> result == Err::<(), ProposalError>(ProposalError::AlreadyVoted),
        after == closed,
{
}

/// Every unit of weight is counted exactly once: if `votes_cast` was the
/// (saturated) sum of the recorded ballots before a vote, it still is after.
pub proof fn vote_keeps_tally_consistent(
    before: Proposal,
    after: Proposal,
    voter: VoterId,
    weight: u128,
    result: Result<(), ProposalError>,
)
    requires
        vote_outcome(before, after, voter, weight, result),
        before.tally_consistent(),
    ensures
        after.tally_consistent(),
{
    if !before.votes@.contains_key(voter) {
        lemma_weight_sum_insert(before.votes@, voter, weight);
    }
}

/// A call on a `Governance`, as far as proposal ids are concerned:
/// `create_proposal` returning `id`, or any other mutating call
/// (`register_weight`, `vote`, `proposal_mut`).
pub ghost enum GovernanceCall {
    Create { id: ProposalId },
    Other,
}

/// What a call does to the id counter, as the calls' contracts say:
/// `create_proposal` returns the next id and moves the counter past it; every
/// other call leaves the counter alone.
pub open spec fn governance_step(before: GovernanceView, after: GovernanceView, call: GovernanceCall) -> bool {
    match call {
        GovernanceCall::Create { id } => {
            &&& id == before.next_proposal_id
            &&& after.next_proposal_id == id + 1
        },
        GovernanceCall::Other => after.next_proposal_id == before.next_proposal_id,
    }
}

/// The governance went through `states`, `calls[i]` taking it from
/// `states[i]` to `states[i + 1]`.
pub open spec fn governance_trace(states: Seq<GovernanceView>, calls: Seq<GovernanceCall>) -> bool {
    &&& states.len() == calls.len() + 1
    &&& forall|i: int| #![trigger calls[i]] 0 <= i < calls.len() ==> governance_step(states[i], states[i + 1], calls[i])
}

/// Whether `create_proposal` returned `id` somewhere in `calls`.
pub open spec fn id_handed_out(calls: Seq<GovernanceCall>, id: ProposalId) -> bool {
    exists|k: int| 0 <= k < calls.len() && #[trigger] calls[k] == (GovernanceCall::Create { id })
}

/// Starting from a new governance (no id handed out yet), the ids below the
/// counter are exactly the ids some `create_proposal` returned; with
/// `proposal`'s contract (`Some` exactly below the counter), a proposal is
/// found exactly for the ids an earlier `create_proposal` returned.
pub proof fn ids_are_exactly_those_created(states: Seq<GovernanceView>, calls: Seq<GovernanceCall>, id: ProposalId)
    requires
        governance_trace(states, calls),
        states[0].next_proposal_id == 0,
    ensures
        id < states.last().next_proposal_id <==> id_handed_out(calls, id),
    decreases calls.len(),
{
    let n = calls.len() as int;
    if n > 0 {
        let prefix = states.drop_last();
        let earlier = calls.drop_last();
        assert forall|i: int| #![trigger earlier[i]] 0 <= i < earlier.len()
            implies governance_step(prefix[i], prefix[i + 1], earlier[i]) by {
            assert(calls[i] == earlier[i]);
        }
        ids_are_exactly_those_created(prefix, earlier, id);
        assert(calls[n - 1] == calls[n - 1]);
        assert(prefix.last() == states[n - 1]);
        if id_handed_out(earlier, id) {
            let k = choose|k: int| 0 <= k < earlier.len() && #[trigger] earlier[k] == (GovernanceCall::Create { id });
            assert(calls[k] == earlier[k]);
        }
        if id_handed_out(calls, id) {
            let k = choose|k: int| 0 <= k < calls.len() && #[trigger] calls[k] == (GovernanceCall::Create { id });
            if k < n - 1 {
                assert(earlier[k] == calls[k]);
            }
        }
        if calls[n - 1] == (GovernanceCall::Create { id }) {
            assert(id_handed_out(calls, id));
        }
    }
}

} // verus!
