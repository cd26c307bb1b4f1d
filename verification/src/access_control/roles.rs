//! Role definitions and live role-check helpers for the shared access-control
//! contract.
//!
//! Every check reads the current membership state; a role check result is
//! never stored and reused, so a revocation is visible to the next check.

use vstd::prelude::*;

use crate::access_control::env::{Address, Env, EnvView};

verus! {

/// The roles an account can hold.
#[derive(Debug, Clone, Copy, PartialEq, Eq, Structural)]
pub enum Role {
    /// May grant and revoke roles.
    Admin,
    /// May create governance proposals.
    Governor,
    /// May cast governance votes.
    Voter,
}

/// Returns the current revocation epoch.
///
/// Dependents that cache an authorization must record the epoch observed at
/// cache time and re-check it live before trusting the cached value. A change
/// in epoch means a grant or revocation happened and the cache is invalid.
pub fn revocation_epoch(env: &Env) -> (epoch: u64)
    ensures
        epoch == env@.revocation_epoch,
{
    env.stored_revocation_epoch()
}

/// Bumps the revocation epoch by one and returns the new value. Called on
/// every grant and revoke. The epoch must not already be `u64::MAX`.
pub fn bump_revocation_epoch(env: &mut Env) -> (next: u64)
    requires
        old(env)@.revocation_epoch < u64::MAX,
    ensures
        next == old(env)@.revocation_epoch + 1,
        final(env)@ == (EnvView { revocation_epoch: next, ..old(env)@ }),
{
    let next = revocation_epoch(env) + 1;
    env.store_revocation_epoch(next);
    next
}

/// Live role check. Reads current membership on every call.
///
/// This is the only sanctioned way to answer "does `account` hold `role`?".
/// It never consults a cache.
pub fn has_role(env: &Env, role: &Role, account: &Address) -> (held: bool)
    ensures
        held == env@.holds(*role, account@),
        held == (env@.members.contains_key((*role, account@)) && env@.members[(*role, account@)]),
{
    env.member_flag(*role, account)
}

/// Live role check that may only be reached when the account holds the role:
/// the contract traps on any other call, so callers must have checked.
pub fn require_role(env: &Env, role: &Role, account: &Address)
    requires
        env@.holds(*role, account@),
{
    let held = has_role(env, role, account);
    assert(held);
}

/// Writes membership for `(role, account)` and bumps the revocation epoch so
/// any dependent cache is provably invalidated.
pub fn set_role(env: &mut Env, role: &Role, account: &Address, member: bool)
    requires
        old(env)@.revocation_epoch < u64::MAX,
    ensures
        final(env)@ == (EnvView {
            members: old(env)@.members.insert((*role, account@), member),
            revocation_epoch: (old(env)@.revocation_epoch + 1) as u64,
            ..old(env)@
        }),
{
    env.store_member_flag(*role, account, member);
    bump_revocation_epoch(env);
}

} // verus!
