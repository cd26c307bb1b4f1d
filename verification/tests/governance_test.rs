use governance_contracts::governance::quorum::{evaluate, finalize};
use governance_contracts::governance::{
    Governance, Proposal, ProposalError, ProposalStatus, QuorumError, QuorumResult,
};
use governance_contracts::governance_voting::{DelegationError, VoteTally};

#[test]
fn quorum_uses_snapshot_taken_at_creation() {
    let mut gov = Governance::new();
    gov.register_weight(1, 600);
    gov.register_weight(2, 400);
    assert_eq!(gov.total_eligible_weight(), 1_000);
    let id = gov.create_proposal(5_000);
    assert_eq!(id, 0);
    // Late registration does not move the denominator of an existing proposal.
    gov.register_weight(3, 9_000);
    assert_eq!(gov.total_eligible_weight(), 10_000);
    assert_eq!(gov.proposal(id).unwrap().total_eligible_weight, 1_000);
    gov.vote(id, 1, 600).unwrap();
    assert_eq!(
        gov.check_quorum(id),
        Ok(QuorumResult { votes_cast: 600, total_eligible_weight: 1_000, required_weight: 500, met: true })
    );
    // A proposal created afterwards snapshots the new total.
    let id2 = gov.create_proposal(5_000);
    assert_eq!(id2, 1);
    gov.vote(id2, 1, 600).unwrap();
    assert_eq!(
        gov.check_quorum(id2),
        Ok(QuorumResult { votes_cast: 600, total_eligible_weight: 10_000, required_weight: 5_000, met: false })
    );
}

#[test]
fn register_weight_replaces_previous_weight() {
    let mut gov = Governance::new();
    gov.register_weight(7, 100);
    gov.register_weight(7, 30);
    assert_eq!(gov.total_eligible_weight(), 30);
}

#[test]
fn required_weight_rounds_up() {
    let mut p = Proposal::new(0, 3, 3_333);
    // 3 * 3333 = 9999 -> ceil(9999 / 10000) = 1
    assert_eq!(evaluate(&p).unwrap().required_weight, 1);
    assert!(!evaluate(&p).unwrap().met);
    p.cast_vote(1, 1).unwrap();
    assert!(evaluate(&p).unwrap().met);
    let exact = Proposal::new(1, 20_000, 5_000);
    assert_eq!(evaluate(&exact).unwrap().required_weight, 10_000);
    let zero = Proposal::new(2, 0, 5_000);
    let r = evaluate(&zero).unwrap();
    assert_eq!(r.required_weight, 0);
    assert!(r.met);
}

#[test]
fn required_weight_saturates_on_overflow() {
    let p = Proposal::new(0, u128::MAX, 10_000);
    // u128::MAX * 10_000 saturates to u128::MAX, then rounds up.
    let expected = u128::MAX / 10_000 + 1;
    assert_eq!(evaluate(&p).unwrap().required_weight, expected);
}

#[test]
fn duplicate_vote_is_rejected() {
    let mut gov = Governance::new();
    gov.register_weight(1, 10);
    let id = gov.create_proposal(1_000);
    assert_eq!(gov.vote(id, 1, 10), Ok(()));
    assert_eq!(gov.vote(id, 1, 10), Err(ProposalError::AlreadyVoted));
    assert_eq!(gov.proposal(id).unwrap().votes_cast, 10);
    assert_eq!(gov.proposal(id).unwrap().votes.len(), 1);
}

#[test]
fn unknown_proposal_errors() {
    let mut gov = Governance::new();
    assert_eq!(gov.vote(42, 1, 1), Err(ProposalError::UnknownProposal));
    assert_eq!(gov.check_quorum(42), Err(QuorumError::UnknownProposal));
    assert!(gov.proposal(42).is_none());
    assert!(gov.proposal_mut(42).is_none());
}

#[test]
fn votes_cast_saturates() {
    let mut p = Proposal::new(0, 10, 1);
    p.cast_vote(1, u128::MAX - 1).unwrap();
    p.cast_vote(2, 5).unwrap();
    assert_eq!(p.votes_cast, u128::MAX);
}

#[test]
fn finalize_sets_status() {
    let mut met = Proposal::new(0, 100, 5_000);
    met.cast_vote(1, 50).unwrap();
    let r = finalize(&mut met).unwrap();
    assert!(r.met);
    assert_eq!(met.status, ProposalStatus::QuorumMet);
    let mut not_met = Proposal::new(1, 100, 5_000);
    not_met.cast_vote(1, 49).unwrap();
    let r = finalize(&mut not_met).unwrap();
    assert!(!r.met);
    assert_eq!(not_met.status, ProposalStatus::QuorumNotMet);
    assert_eq!(not_met.votes_cast, 49);
}

#[test]
fn finalized_proposal_refuses_votes() {
    let mut gov = Governance::new();
    gov.register_weight(1, 10);
    gov.register_weight(2, 10);
    let id = gov.create_proposal(5_000);
    gov.vote(id, 1, 10).unwrap();
    let r = finalize(gov.proposal_mut(id).unwrap()).unwrap();
    assert!(r.met);
    assert_eq!(gov.vote(id, 2, 10), Err(ProposalError::VotingClosed));
    // A repeat voter is still told that they already voted.
    assert_eq!(gov.vote(id, 1, 10), Err(ProposalError::AlreadyVoted));
    let p = gov.proposal(id).unwrap();
    assert_eq!(p.votes_cast, 10);
    assert_eq!(p.votes.len(), 1);
    assert_eq!(p.status, ProposalStatus::QuorumMet);
    let mut closed = Proposal::new(3, 100, 5_000);
    finalize(&mut closed).unwrap();
    assert_eq!(closed.status, ProposalStatus::QuorumNotMet);
    assert_eq!(closed.cast_vote(1, 60), Err(ProposalError::VotingClosed));
    let mut voted = Proposal::new(4, 100, 5_000);
    voted.cast_vote(7, 60).unwrap();
    finalize(&mut voted).unwrap();
    assert_eq!(voted.cast_vote(7, 1), Err(ProposalError::AlreadyVoted));
    assert_eq!(voted.votes_cast, 60);
    assert_eq!(closed.votes_cast, 0);
}

#[test]
fn proposal_ids_are_sequential() {
    let mut gov = Governance::new();
    assert!(gov.proposal(0).is_none());
    assert_eq!(gov.create_proposal(1), 0);
    assert_eq!(gov.create_proposal(1), 1);
    assert_eq!(gov.proposal(1).unwrap().id, 1);
    assert!(gov.proposal(2).is_none());
}

#[test]
fn proposal_mut_writes_back() {
    let mut gov = Governance::new();
    let id = gov.create_proposal(2_500);
    {
        let p = gov.proposal_mut(id).unwrap();
        assert_eq!(p.status, ProposalStatus::Open);
        p.status = ProposalStatus::QuorumNotMet;
    }
    assert_eq!(gov.proposal(id).unwrap().status, ProposalStatus::QuorumNotMet);
    assert_eq!(gov.proposal(id).unwrap().quorum_bps, 2_500);
}

#[test]
fn new_proposal_starts_open_and_empty() {
    let p = Proposal::new(9, 77, 123);
    assert_eq!(p.id, 9);
    assert_eq!(p.total_eligible_weight, 77);
    assert_eq!(p.quorum_bps, 123);
    assert!(p.votes.is_empty());
    assert_eq!(p.votes_cast, 0);
    assert_eq!(p.status, ProposalStatus::Open);
}

#[test]
fn tally_counts_each_voter_once() {
    let mut tally = VoteTally::new();
    assert_eq!(tally.total(), 0);
    assert_eq!(tally.record(1, 5), Ok(()));
    assert_eq!(tally.record(2, 7), Ok(()));
    assert_eq!(tally.record(1, 100), Err(DelegationError::AlreadyVotedDirectly));
    assert_eq!(tally.total(), 12);
}

#[test]
fn tally_total_saturates() {
    let mut tally = VoteTally::new();
    tally.record(1, u128::MAX).unwrap();
    tally.record(2, 1).unwrap();
    assert_eq!(tally.total(), u128::MAX);
}
