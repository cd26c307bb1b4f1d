//! Grant and revoke entry points for the access-control contract.
//!
//! # Live authorization rule
//!
//! Every privileged entry point of a dependent contract must call
//! [`has_role`](crate::access_control::roles::has_role) (or [`require_role`])
//! on every invocation. Authorization results must not be cached across
//! calls: a cached `true` would outlive a revocation performed here and keep a
//! revoked principal privileged. A dependent that caches must invalidate on
//! the revocation event emitted by [`revoke_role`].

use vstd::prelude::*;

use crate::access_control::env::{Address, Env, EnvView, EventRecord, PublishedEvent};
use crate::access_control::roles::{self, Role};

verus! {

/// Errors returned by the grant/revoke surface.
#[derive(Copy, Clone, Debug, Eq, PartialEq, PartialOrd, Ord, Structural)]
pub enum AccessControlError {
    /// The caller is not authorized to grant or revoke roles.
    Unauthorized,
    /// The target already holds the role being granted.
    RoleAlreadyGranted,
    /// The target does not hold the role being revoked.
    RoleNotGranted,
}

/// Emitted whenever a role is granted. Dependents that cache authorization
/// must treat this as an invalidation signal.
#[derive(Debug)]
pub struct RoleGranted {
    pub role: Role,
    pub account: Address,
}

/// Emitted whenever a role is revoked. Dependents that cache authorization
/// must invalidate the affected entry on this event; a cache that can outlive
/// this event is a security bug.
#[derive(Debug)]
pub struct RoleRevoked {
    pub role: Role,
    pub account: Address,
}

impl RoleGranted {
    /// Publish this event from the contract.
    pub fn publish(self, env: &mut Env)
        ensures
            final(env)@ == (EnvView {
                events: old(env)@.events.push(EventRecord::Granted { role: self.role, account: self.account@ }),
                ..old(env)@
            }),
    {
        env.publish_event(PublishedEvent::RoleGranted(self));
    }
}

impl RoleRevoked {
    /// Publish this event from the contract.
    pub fn publish(self, env: &mut Env)
        ensures
            final(env)@ == (EnvView {
                events: old(env)@.events.push(EventRecord::Revoked { role: self.role, account: self.account@ }),
                ..old(env)@
            }),
    {
        env.publish_event(PublishedEvent::RoleRevoked(self));
    }
}

/// Whether a grant or revoke requested by `caller` passes the admin check.
pub open spec fn is_admin(env: EnvView, caller: Seq<u8>) -> bool {
    env.holds(Role::Admin, caller)
}

/// Whether granting `role` to `account` at `caller`'s request changes state.
pub open spec fn grant_changes_state(env: EnvView, caller: Seq<u8>, account: Seq<u8>, role: Role) -> bool {
    is_admin(env, caller) && !env.holds(role, account)
}

/// Whether revoking `role` from `account` at `caller`'s request changes state.
pub open spec fn revoke_changes_state(env: EnvView, caller: Seq<u8>, account: Seq<u8>, role: Role) -> bool {
    is_admin(env, caller) && env.holds(role, account)
}

/// What `grant_role` does: a caller without the admin role is refused; an
/// account that already holds the role is refused; otherwise the membership is
/// stored, the revocation epoch bumped and a `RoleGranted` event published.
/// A refused request changes nothing.
pub open spec fn grant_outcome(
    before: EnvView,
    after: EnvView,
    caller: Seq<u8>,
    account: Seq<u8>,
    role: Role,
    result: Result<(), AccessControlError>,
) -> bool {
    if !is_admin(before, caller) {
        result == Err::<(), AccessControlError>(AccessControlError::Unauthorized) && after == before
    } else if before.holds(role, account) {
        result == Err::<(), AccessControlError>(AccessControlError::RoleAlreadyGranted) && after == before
    } else {
        &&& result == Ok::<(), AccessControlError>(())
        &&& after == (EnvView {
            members: before.members.insert((role, account), true),
            revocation_epoch: (before.revocation_epoch + 1) as u64,
            events: before.events.push(EventRecord::Granted { role, account }),
            ..before
        })
    }
}

/// What `revoke_role` does: a caller without the admin role is refused; an
/// account that does not hold the role is refused; otherwise the membership is
/// cleared, the revocation epoch bumped and a `RoleRevoked` event published.
/// A refused request changes nothing.
pub open spec fn revoke_outcome(
    before: EnvView,
    after: EnvView,
    caller: Seq<u8>,
    account: Seq<u8>,
    role: Role,
    result: Result<(), AccessControlError>,
) -> bool {
    if !is_admin(before, caller) {
        result == Err::<(), AccessControlError>(AccessControlError::Unauthorized) && after == before
    } else if !before.holds(role, account) {
        result == Err::<(), AccessControlError>(AccessControlError::RoleNotGranted) && after == before
    } else {
        &&& result == Ok::<(), AccessControlError>(())
        &&& after == (EnvView {
            members: before.members.insert((role, account), false),
            revocation_epoch: (before.revocation_epoch + 1) as u64,
            events: before.events.push(EventRecord::Revoked { role, account }),
            ..before
        })
    }
}

/// Grant `role` to `account`.
///
/// Only an account already holding the admin role may grant roles. Granting a
/// role the account already holds is rejected so that the emitted
/// [`RoleGranted`] event is always a real state transition. The caller's
/// signature is checked by the host before this runs.
pub fn grant_role(env: &mut Env, caller: &Address, account: &Address, role: Role) -> (result: Result<(), AccessControlError>)
    requires
        grant_changes_state(old(env)@, caller@, account@, role) ==> old(env)@.revocation_epoch < u64::MAX,
    ensures
        grant_outcome(old(env)@, final(env)@, caller@, account@, role, result),
        !old(env)@.holds(Role::Admin, caller@) ==> {
            &&& result == Err::<(), AccessControlError>(AccessControlError::Unauthorized)
            &&& final(env)@ == old(env)@
        },
        old(env)@.holds(Role::Admin, caller@) ==> result != Err::<(), AccessControlError>(AccessControlError::Unauthorized),
{
    if !roles::has_role(env, &Role::Admin, caller) {
        return Err(AccessControlError::Unauthorized);
    }

    if roles::has_role(env, &role, account) {
        return Err(AccessControlError::RoleAlreadyGranted);
    }

    roles::set_role(env, &role, account, true);
    RoleGranted { role, account: account.duplicate() }.publish(env);

    Ok(())
}

/// Revoke `role` from `account`.
///
/// Only an account already holding the admin role may revoke roles. Revoking a
/// role the account does not hold is rejected so that the emitted
/// [`RoleRevoked`] event is always a real state transition. Dependents that
/// cache authorization must invalidate on this event.
pub fn revoke_role(env: &mut Env, caller: &Address, account: &Address, role: Role) -> (result: Result<(), AccessControlError>)
    requires
        revoke_changes_state(old(env)@, caller@, account@, role) ==> old(env)@.revocation_epoch < u64::MAX,
    ensures
        revoke_outcome(old(env)@, final(env)@, caller@, account@, role, result),
        !old(env)@.holds(Role::Admin, caller@) ==> {
            &&& result == Err::<(), AccessControlError>(AccessControlError::Unauthorized)
            &&& final(env)@ == old(env)@
        },
        old(env)@.holds(Role::Admin, caller@) ==> result != Err::<(), AccessControlError>(AccessControlError::Unauthorized),
{
    if !roles::has_role(env, &Role::Admin, caller) {
        return Err(AccessControlError::Unauthorized);
    }

    if !roles::has_role(env, &role, account) {
        return Err(AccessControlError::RoleNotGranted);
    }

    roles::set_role(env, &role, account, false);
    RoleRevoked { role, account: account.duplicate() }.publish(env);

    Ok(())
}

/// Live authorization check for dependent contracts.
///
/// It reads current state directly and never consults a cache, so a
/// revocation performed via [`revoke_role`] takes effect on the very next call.
pub fn require_role(env: &Env, account: &Address, role: Role) -> (result: Result<(), AccessControlError>)
    ensures
        env@.holds(role, account@) ==> result == Ok::<(), AccessControlError>(()),
        !env@.holds(role, account@) ==> result == Err::<(), AccessControlError>(AccessControlError::Unauthorized),
{
    if roles::has_role(env, &role, account) {
        Ok(())
    } else {
        Err(AccessControlError::Unauthorized)
    }
}

} // verus!
