//! Quorum evaluation.
//!
//! The denominator is always the total eligible voting weight snapshotted at
//! proposal-creation time. It is never the number of votes actually cast.

use vstd::prelude::*;

use crate::governance::proposal::{Proposal, ProposalStatus};

verus! {

/// Errors returned when evaluating quorum.
#[derive(Debug, Clone, Copy, PartialEq, Eq, Structural)]
pub enum QuorumError {
    /// No proposal exists for the given id.
    UnknownProposal,
}

/// Result of a quorum evaluation.
#[derive(Debug, Clone, Copy, PartialEq, Eq, Structural)]
pub struct QuorumResult {
    /// Weight cast in favour of the proposal.
    pub votes_cast: u128,
    /// Total eligible weight snapshotted at proposal-creation time.
    pub total_eligible_weight: u128,
    /// Weight required to meet quorum.
    pub required_weight: u128,
    /// Whether quorum was met.
    pub met: bool,
}

/// Basis points in one whole.
pub const BPS_DENOMINATOR: u128 = 10_000;

/// `total_eligible_weight * quorum_bps`, saturated at `u128::MAX`.
pub open spec fn quorum_numerator(total_eligible_weight: u128, quorum_bps: u16) -> int {
    let product = total_eligible_weight * quorum_bps;
    if product > u128::MAX { u128::MAX as int } else { product }
}

/// The smallest weight `w` with `w * 10_000 >= quorum_numerator(..)`.
pub open spec fn spec_required_weight(total_eligible_weight: u128, quorum_bps: u16) -> int {
    let n = quorum_numerator(total_eligible_weight, quorum_bps);
    if n % 10_000 == 0 { n / 10_000 } else { n / 10_000 + 1 }
}

/// Compute the weight required to meet quorum: the snapshotted weight times
/// the threshold in basis points, divided by 10_000 and rounded up, so that a
/// threshold is never met by rounding down.
fn required_weight(total_eligible_weight: u128, quorum_bps: u16) -> (required: u128)
    ensures
        required == spec_required_weight(total_eligible_weight, quorum_bps),
        required * 10_000 >= quorum_numerator(total_eligible_weight, quorum_bps),
        required == 0 || (required - 1) * 10_000 < quorum_numerator(total_eligible_weight, quorum_bps),
{
    let bps = quorum_bps as u128;
    let numerator = match total_eligible_weight.checked_mul(bps) {
        Some(product) => product,
        None => u128::MAX,
    };
    let quotient = numerator / BPS_DENOMINATOR;
    if numerator % BPS_DENOMINATOR == 0 {
        quotient
    } else {
        quotient + 1
    }
}

/// The quorum evaluation of a proposal: determined by its cast weight, its
/// snapshotted eligible weight and its threshold, and by nothing else.
pub open spec fn spec_evaluate(proposal: &Proposal) -> QuorumResult {
    let required = spec_required_weight(proposal.total_eligible_weight, proposal.quorum_bps);
    QuorumResult {
        votes_cast: proposal.votes_cast,
        total_eligible_weight: proposal.total_eligible_weight,
        required_weight: required as u128,
        met: proposal.votes_cast >= required,
    }
}

/// The status a proposal takes when it is finalized with a given evaluation.
pub open spec fn status_for(result: QuorumResult) -> ProposalStatus {
    if result.met { ProposalStatus::QuorumMet } else { ProposalStatus::QuorumNotMet }
}

/// Evaluate quorum for a proposal.
///
/// The denominator is `proposal.total_eligible_weight`, snapshotted at
/// proposal-creation time. Votes actually cast are only the numerator.
pub fn evaluate(proposal: &Proposal) -> (result: Result<QuorumResult, QuorumError>)
    ensures
        result == Ok::<QuorumResult, QuorumError>(spec_evaluate(proposal)),
        result matches Ok(r) && ({
            let product = proposal.total_eligible_weight * proposal.quorum_bps;
            let share: int = if product > u128::MAX { u128::MAX as int } else { product };
            &&& r.votes_cast == proposal.votes_cast
            &&& r.total_eligible_weight == proposal.total_eligible_weight
            &&& r.required_weight * 10_000 >= share
            &&& (r.required_weight == 0 || (r.required_weight - 1) * 10_000 < share)
            &&& (r.met <==> proposal.votes_cast >= r.required_weight)
        }),
{
    proof {
        crate::governance::laws::quorum_met_iff_threshold_reached(*proposal);
    }
    let total_eligible_weight = proposal.total_eligible_weight;
    let required = required_weight(total_eligible_weight, proposal.quorum_bps);
    let met = proposal.votes_cast >= required;
    Ok(QuorumResult {
        votes_cast: proposal.votes_cast,
        total_eligible_weight,
        required_weight: required,
        met,
    })
}

/// Finalize a proposal's status based on quorum.
///
/// The denominator remains the snapshotted total eligible weight; only the
/// status changes.
pub fn finalize(proposal: &mut Proposal) -> (result: Result<QuorumResult, QuorumError>)
    ensures
        result == Ok::<QuorumResult, QuorumError>(spec_evaluate(old(proposal))),
        final(proposal).status == status_for(spec_evaluate(old(proposal))),
        result matches Ok(r) && (final(proposal).status == ProposalStatus::QuorumMet <==> r.met),
        result matches Ok(r) && (final(proposal).status == ProposalStatus::QuorumNotMet <==> !r.met),
        final(proposal).id == old(proposal).id,
        final(proposal).total_eligible_weight == old(proposal).total_eligible_weight,
        final(proposal).quorum_bps == old(proposal).quorum_bps,
        final(proposal).votes@ == old(proposal).votes@,
        final(proposal).votes_cast == old(proposal).votes_cast,
{
    let result = evaluate(proposal)?;
    proposal.status = if result.met {
        ProposalStatus::QuorumMet
    } else {
        ProposalStatus::QuorumNotMet
    };
    Ok(result)
}

} // verus!
