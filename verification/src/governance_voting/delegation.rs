//! Errors of the voting tally.

use vstd::prelude::*;

verus! {

/// Errors returned when recording a vote.
#[derive(Debug, Clone, Copy, PartialEq, Eq, Structural)]
pub enum DelegationError {
    /// The voter has already cast a vote directly.
    AlreadyVotedDirectly,
}

} // verus!
