//! # Access control
//!
//! The shared role/permission source of truth for the other contracts.
//!
//! Authorization is always checked live, never cached: every role check reads
//! the current membership state, so a revocation is observable immediately by
//! any dependent that re-checks. A dependent that does cache must compare the
//! revocation nonce (or epoch) it observed when filling the cache with the
//! current one.

pub mod env;
pub mod grant_revoke;
pub mod laws;
pub mod roles;

use vstd::prelude::*;

pub use env::{Address, Env};
pub use grant_revoke::{grant_role, revoke_role};
pub use roles::{has_role, require_role, Role};

use env::{EnvView, EventRecord};
use grant_revoke::{grant_outcome, grant_changes_state, revoke_changes_state, revoke_outcome, RoleGranted};

verus! {

/// Errors surfaced by the access-control contract.
#[derive(Clone, Copy, Debug, Eq, PartialEq, Structural)]
pub enum AccessControlError {
    /// The caller does not hold the required role.
    Unauthorized,
    /// The role symbol was empty or otherwise invalid.
    InvalidRole,
}

/// What `AccessControl::initialize` does: the first call installs `admin` as
/// holder of the admin role (bumping the epoch and publishing `RoleGranted`);
/// every later call is refused and changes nothing.
pub open spec fn initialize_outcome(
    before: EnvView,
    after: EnvView,
    admin: Seq<u8>,
    result: Result<(), AccessControlError>,
) -> bool {
    if before.initialized {
        result == Err::<(), AccessControlError>(AccessControlError::Unauthorized) && after == before
    } else {
        &&& result == Ok::<(), AccessControlError>(())
        &&& after == (EnvView {
            members: before.members.insert((Role::Admin, admin), true),
            revocation_epoch: (before.revocation_epoch + 1) as u64,
            initialized: true,
            events: before.events.push(EventRecord::Granted { role: Role::Admin, account: admin }),
            ..before
        })
    }
}

/// What `AccessControl::revoke` does: what `revoke_role` does, and on success
/// the revocation nonce is bumped by one; a refused request changes nothing.
pub open spec fn contract_revoke_outcome(
    before: EnvView,
    after: EnvView,
    admin: Seq<u8>,
    account: Seq<u8>,
    role: Role,
    result: Result<(), grant_revoke::AccessControlError>,
) -> bool {
    &&& revoke_outcome(before, EnvView { revocation_nonce: before.revocation_nonce, ..after }, admin, account, role, result)
    &&& after.revocation_nonce == if result is Ok { before.revocation_nonce + 1 } else { before.revocation_nonce as int }
}

/// The access-control contract's entry points.
pub struct AccessControl;

impl AccessControl {
    /// Install `admin` as the first holder of the admin role. Only the first
    /// call succeeds; any later call is refused with `Unauthorized`.
    pub fn initialize(env: &mut Env, admin: Address) -> (result: Result<(), AccessControlError>)
        requires
            !old(env)@.initialized ==> old(env)@.revocation_epoch < u64::MAX,
        ensures
            initialize_outcome(old(env)@, final(env)@, admin@, result),
    {
        if env.is_initialized() {
            return Err(AccessControlError::Unauthorized);
        }
        roles::set_role(env, &Role::Admin, &admin, true);
        env.mark_initialized();
        RoleGranted { role: Role::Admin, account: admin }.publish(env);
        Ok(())
    }

    /// Grant `role` to `account`. Only an existing admin may grant roles.
    pub fn grant(env: &mut Env, admin: Address, account: Address, role: Role) -> (result: Result<(), grant_revoke::AccessControlError>)
        requires
            grant_changes_state(old(env)@, admin@, account@, role) ==> old(env)@.revocation_epoch < u64::MAX,
        ensures
            grant_outcome(old(env)@, final(env)@, admin@, account@, role, result),
            !old(env)@.holds(Role::Admin, admin@) ==> {
                &&& result == Err::<(), grant_revoke::AccessControlError>(grant_revoke::AccessControlError::Unauthorized)
                &&& final(env)@ == old(env)@
            },
    {
        grant_revoke::grant_role(env, &admin, &account, role)
    }

    /// Revoke `role` from `account`. Only an existing admin may revoke roles.
    ///
    /// Revocation bumps the revocation nonce so that any dependent contract
    /// holding a cache can detect that its cached authorization is stale.
    pub fn revoke(env: &mut Env, admin: Address, account: Address, role: Role) -> (result: Result<(), grant_revoke::AccessControlError>)
        requires
            revoke_changes_state(old(env)@, admin@, account@, role) ==> {
                &&& old(env)@.revocation_epoch < u64::MAX
                &&& old(env)@.revocation_nonce < u64::MAX
            },
        ensures
            contract_revoke_outcome(old(env)@, final(env)@, admin@, account@, role, result),
            !old(env)@.holds(Role::Admin, admin@) ==> {
                &&& result == Err::<(), grant_revoke::AccessControlError>(grant_revoke::AccessControlError::Unauthorized)
                &&& final(env)@ == old(env)@
            },
    {
        let result = grant_revoke::revoke_role(env, &admin, &account, role);
        if result.is_ok() {
            let nonce = env.stored_revocation_nonce();
            env.store_revocation_nonce(nonce + 1);
        }
        result
    }

    /// Live role check. Reads current state on every call; never cached.
    pub fn has_role(env: &Env, account: Address, role: Role) -> (held: bool)
        ensures
            held == env@.holds(role, account@),
            held == (env@.members.contains_key((role, account@)) && env@.members[(role, account@)]),
    {
        roles::has_role(env, &role, &account)
    }

    /// Live role check that fails with `Unauthorized` when the account lacks
    /// the role.
    pub fn require_role(env: &Env, account: Address, role: Role) -> (result: Result<(), AccessControlError>)
        ensures
            env@.holds(role, account@) ==> result == Ok::<(), AccessControlError>(()),
            !env@.holds(role, account@) ==> result == Err::<(), AccessControlError>(AccessControlError::Unauthorized),
    {
        if roles::has_role(env, &role, &account) {
            Ok(())
        } else {
            Err(AccessControlError::Unauthorized)
        }
    }

    /// Current revocation nonce. Dependent contracts that cache authorization
    /// must compare this value against the nonce observed when the cache was
    /// populated and treat any difference as a cache miss.
    pub fn revocation_nonce(env: &Env) -> (nonce: u64)
        ensures
            nonce == env@.revocation_nonce,
    {
        env.stored_revocation_nonce()
    }
}

} // verus!
