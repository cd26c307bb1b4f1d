//! Role-based access control and weighted governance voting.
//!
//! * [`access_control`]: the shared role registry. Every role check reads the
//!   current registry state; nothing is cached, so a revocation is visible to
//!   the very next check.
//! * [`governance`]: proposals whose quorum is measured against the total
//!   eligible weight snapshotted when the proposal is created.
//! * [`governance_voting`]: a weighted tally that counts each voter once.

pub mod access_control;
pub mod governance;
pub mod governance_voting;
pub mod weight_sum;
