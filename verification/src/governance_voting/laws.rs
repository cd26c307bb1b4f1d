//! Properties of the tally over sequences of votes.

use vstd::prelude::*;

use crate::governance_voting::VoterId;
use crate::weight_sum::{lemma_weight_sum_empty, lemma_weight_sum_insert, weight_sum};

verus! {

/// What `record(voter, weight)` does to the ballots: a voter already
/// recorded leaves them as they are; anyone else is added with `weight`.
pub open spec fn record_step(ballots: Map<VoterId, u128>, voter: VoterId, weight: u128) -> Map<VoterId, u128> {
    if ballots.contains_key(voter) { ballots } else { ballots.insert(voter, weight) }
}

/// The ballots after `record` has been called with each `(voter, weight)`
/// of `calls`, in order, starting from `ballots`.
pub open spec fn apply_records(ballots: Map<VoterId, u128>, calls: Seq<(VoterId, u128)>) -> Map<VoterId, u128>
    decreases calls.len(),
{
    if calls.len() == 0 {
        ballots
    } else {
        apply_records(record_step(ballots, calls[0].0, calls[0].1), calls.drop_first())
    }
}

/// The total weight of the calls in `calls` that `record` accepts, starting
/// from `ballots`: a call counts when its voter has no ballot yet.
pub open spec fn accepted_weight(ballots: Map<VoterId, u128>, calls: Seq<(VoterId, u128)>) -> int
    decreases calls.len(),
{
    if calls.len() == 0 {
        0
    } else {
        (if ballots.contains_key(calls[0].0) { 0 } else { calls[0].1 as int })
            + accepted_weight(record_step(ballots, calls[0].0, calls[0].1), calls.drop_first())
    }
}

/// Each voter's weight is counted exactly once, whatever the order of the
/// calls: after any sequence of `record` calls the ballots sum to what they
/// summed to before plus the weight of the accepted calls.
pub proof fn ballots_sum_accepted_weight(ballots: Map<VoterId, u128>, calls: Seq<(VoterId, u128)>)
    requires
        ballots.dom().finite(),
    ensures
        apply_records(ballots, calls).dom().finite(),
        weight_sum(apply_records(ballots, calls)) == weight_sum(ballots) + accepted_weight(ballots, calls),
    decreases calls.len(),
{
    if calls.len() > 0 {
        let (voter, weight) = calls[0];
        if !ballots.contains_key(voter) {
            lemma_weight_sum_insert(ballots, voter, weight);
        }
        ballots_sum_accepted_weight(record_step(ballots, voter, weight), calls.drop_first());
    }
}

/// Starting from an empty tally, the total after any sequence of `record`
/// calls is the saturated sum of the weights of the calls that were accepted.
pub proof fn tally_total_is_accepted_weight(calls: Seq<(VoterId, u128)>)
    ensures
        weight_sum(apply_records(Map::empty(), calls)) == accepted_weight(Map::empty(), calls),
{
    lemma_weight_sum_empty();
    ballots_sum_accepted_weight(Map::empty(), calls);
}

/// The tally went through the ballot maps `states`, the `i`-th `record`
/// call, with `calls[i]`, taking it from `states[i]` to `states[i + 1]` as
/// `record`'s contract says.
pub open spec fn record_trace(states: Seq<Map<VoterId, u128>>, calls: Seq<(VoterId, u128)>) -> bool {
    &&& states.len() == calls.len() + 1
    &&& forall|i: int| #![trigger calls[i]] 0 <= i < calls.len()
        ==> states[i + 1] == record_step(states[i], calls[i].0, calls[i].1)
}

/// Any executed sequence of `record` calls ends with the ballots that
/// applying the calls in order gives, and, starting from an empty tally,
/// with ballots that sum to the weight of exactly the accepted calls: each
/// voter's weight counted once, whatever the order of the calls.
pub proof fn recorded_tally_counts_accepted_weight(
    states: Seq<Map<VoterId, u128>>,
    calls: Seq<(VoterId, u128)>,
)
    requires
        record_trace(states, calls),
        states[0].dom().finite(),
    ensures
        states.last() == apply_records(states[0], calls),
        weight_sum(states.last()) == weight_sum(states[0]) + accepted_weight(states[0], calls),
        states[0] == Map::<VoterId, u128>::empty() ==> weight_sum(states.last()) == accepted_weight(states[0], calls),
    decreases calls.len(),
{
    if calls.len() > 0 {
        let rest_states = states.drop_first();
        let rest_calls = calls.drop_first();
        assert(calls[0] == calls[0]);
        assert forall|i: int| #![trigger rest_calls[i]] 0 <= i < rest_calls.len()
            implies rest_states[i + 1] == record_step(rest_states[i], rest_calls[i].0, rest_calls[i].1) by {
            assert(calls[i + 1] == rest_calls[i]);
        }
        let (voter, weight) = calls[0];
        if !states[0].contains_key(voter) {
            lemma_weight_sum_insert(states[0], voter, weight);
        }
        recorded_tally_counts_accepted_weight(rest_states, rest_calls);
        assert(rest_states.last() == states.last());
    }
    ballots_sum_accepted_weight(states[0], calls);
    if states[0] == Map::<VoterId, u128>::empty() {
        lemma_weight_sum_empty();
    }
}

} // verus!
