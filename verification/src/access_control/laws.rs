//! Properties of the role registry that span several calls.

use vstd::prelude::*;

use crate::access_control::env::{EnvView, EventRecord};
use crate::access_control::grant_revoke::{
    grant_changes_state, grant_outcome, revoke_changes_state, revoke_outcome,
    AccessControlError,
};
use crate::access_control::roles::Role;
use crate::access_control::{contract_revoke_outcome, initialize_outcome};

verus! {

/// Revocation is live: once `revoke_role` has succeeded, the very next role
/// check on the new state reports that the account no longer holds the role.
pub proof fn revocation_is_immediately_visible(
    before: EnvView,
    after: EnvView,
    caller: Seq<u8>,
    account: Seq<u8>,
    role: Role,
    result: Result<(), AccessControlError>,
)
    requires
        revoke_outcome(before, after, caller, account, role, result),
        result is Ok,
    ensures
        before.holds(role, account),
        !after.holds(role, account),
        after.members.contains_key((role, account)) && !after.members[(role, account)],
{
}

/// A granted role is held from the very next check on.
pub proof fn grant_is_immediately_visible(
    before: EnvView,
    after: EnvView,
    caller: Seq<u8>,
    account: Seq<u8>,
    role: Role,
    result: Result<(), AccessControlError>,
)
    requires
        grant_outcome(before, after, caller, account, role, result),
        result is Ok,
    ensures
        !before.holds(role, account),
        after.holds(role, account),
        after.members.contains_key((role, account)) && after.members[(role, account)],
{
}

/// A refused grant or revoke leaves the registry, its counters and the event
/// log exactly as they were.
pub proof fn refused_requests_change_nothing(
    before: EnvView,
    after_grant: EnvView,
    after_revoke: EnvView,
    caller: Seq<u8>,
    account: Seq<u8>,
    role: Role,
    grant_result: Result<(), AccessControlError>,
    revoke_result: Result<(), AccessControlError>,
)
    requires
        grant_outcome(before, after_grant, caller, account, role, grant_result),
        revoke_outcome(before, after_revoke, caller, account, role, revoke_result),
    ensures
        grant_result is Err ==> after_grant == before,
        revoke_result is Err ==> after_revoke == before,
{
}

/// Only an account holding the admin role can change any role: a request
/// from anyone else, whatever other roles it holds, is answered
/// `Unauthorized` and changes nothing; an admin's request is never refused
/// as unauthorized.
pub proof fn only_admins_change_roles(
    before: EnvView,
    after_grant: EnvView,
    after_revoke: EnvView,
    caller: Seq<u8>,
    account: Seq<u8>,
    role: Role,
    grant_result: Result<(), AccessControlError>,
    revoke_result: Result<(), AccessControlError>,
)
    requires
        !before.holds(Role::Admin, caller),
        grant_outcome(before, after_grant, caller, account, role, grant_result),
        revoke_outcome(before, after_revoke, caller, account, role, revoke_result),
    ensures
        grant_result == Err::<(), AccessControlError>(AccessControlError::Unauthorized),
        revoke_result == Err::<(), AccessControlError>(AccessControlError::Unauthorized),
        after_grant == before,
        after_revoke == before,
{
}

/// An account holding the admin role is never answered `Unauthorized` by a
/// grant or a revoke.
pub proof fn admins_are_authorized(
    before: EnvView,
    after_grant: EnvView,
    after_revoke: EnvView,
    caller: Seq<u8>,
    account: Seq<u8>,
    role: Role,
    grant_result: Result<(), AccessControlError>,
    revoke_result: Result<(), AccessControlError>,
)
    requires
        before.holds(Role::Admin, caller),
        grant_outcome(before, after_grant, caller, account, role, grant_result),
        revoke_outcome(before, after_revoke, caller, account, role, revoke_result),
    ensures
        grant_result != Err::<(), AccessControlError>(AccessControlError::Unauthorized),
        revoke_result != Err::<(), AccessControlError>(AccessControlError::Unauthorized),
{
}

/// The revocation epoch never decreases, and it moves (by exactly one) on
/// every grant or revoke that changes a membership, so a cache keyed by the
/// epoch always notices the change.
pub proof fn epoch_tracks_every_change(
    before: EnvView,
    after_grant: EnvView,
    after_revoke: EnvView,
    caller: Seq<u8>,
    account: Seq<u8>,
    role: Role,
    grant_result: Result<(), AccessControlError>,
    revoke_result: Result<(), AccessControlError>,
)
    requires
        grant_changes_state(before, caller, account, role) ==> before.revocation_epoch < u64::MAX,
        revoke_changes_state(before, caller, account, role) ==> before.revocation_epoch < u64::MAX,
        grant_outcome(before, after_grant, caller, account, role, grant_result),
        revoke_outcome(before, after_revoke, caller, account, role, revoke_result),
    ensures
        after_grant.revocation_epoch >= before.revocation_epoch,
        after_revoke.revocation_epoch >= before.revocation_epoch,
        grant_result is Ok <==> after_grant.revocation_epoch == before.revocation_epoch + 1,
        revoke_result is Ok <==> after_revoke.revocation_epoch == before.revocation_epoch + 1,
        after_grant.members != before.members ==> grant_result is Ok,
        after_revoke.members != before.members ==> revoke_result is Ok,
{
}

/// Every published event is a real state transition: a `RoleGranted` event
/// is published exactly when the account did not hold the role before and
/// holds it after, and a `RoleRevoked` event exactly when it held the role
/// before and no longer does.
pub proof fn events_are_real_transitions(
    before: EnvView,
    after_grant: EnvView,
    after_revoke: EnvView,
    caller: Seq<u8>,
    account: Seq<u8>,
    role: Role,
    grant_result: Result<(), AccessControlError>,
    revoke_result: Result<(), AccessControlError>,
)
    requires
        grant_outcome(before, after_grant, caller, account, role, grant_result),
        revoke_outcome(before, after_revoke, caller, account, role, revoke_result),
    ensures
        after_grant.events.len() > before.events.len() <==> grant_result is Ok,
        grant_result is Ok ==> {
            &&& after_grant.events == before.events.push(EventRecord::Granted { role, account })
            &&& !before.holds(role, account)
            &&& after_grant.holds(role, account)
        },
        after_revoke.events.len() > before.events.len() <==> revoke_result is Ok,
        revoke_result is Ok ==> {
            &&& after_revoke.events == before.events.push(EventRecord::Revoked { role, account })
            &&& before.holds(role, account)
            &&& !after_revoke.holds(role, account)
        },
{
}

/// A grant or revoke touches only its own `(role, account)` pair: every other
/// pair holds exactly what it held before.
pub proof fn other_roles_are_untouched(
    before: EnvView,
    after_grant: EnvView,
    after_revoke: EnvView,
    caller: Seq<u8>,
    account: Seq<u8>,
    role: Role,
    grant_result: Result<(), AccessControlError>,
    revoke_result: Result<(), AccessControlError>,
    other_role: Role,
    other_account: Seq<u8>,
)
    requires
        grant_outcome(before, after_grant, caller, account, role, grant_result),
        revoke_outcome(before, after_revoke, caller, account, role, revoke_result),
        (other_role, other_account) != (role, account),
    ensures
        after_grant.holds(other_role, other_account) == before.holds(other_role, other_account),
        after_revoke.holds(other_role, other_account) == before.holds(other_role, other_account),
{
}

/// A grant can always be undone by the admin who made it: revoking right
/// after a successful grant succeeds and every role check answers again as it
/// did before the grant; the epoch moves by two (when it has room to).
pub proof fn grant_then_revoke_restores(
    s0: EnvView,
    s1: EnvView,
    s2: EnvView,
    caller: Seq<u8>,
    account: Seq<u8>,
    role: Role,
    grant_result: Result<(), AccessControlError>,
    revoke_result: Result<(), AccessControlError>,
    other_role: Role,
    other_account: Seq<u8>,
)
    requires
        grant_outcome(s0, s1, caller, account, role, grant_result),
        grant_result is Ok,
        revoke_outcome(s1, s2, caller, account, role, revoke_result),
    ensures
        revoke_result is Ok,
        !s2.holds(role, account),
        s2.holds(other_role, other_account) == s0.holds(other_role, other_account),
        s0.revocation_epoch + 2 <= u64::MAX ==> s2.revocation_epoch == s0.revocation_epoch + 2,
        s2.events == s0.events.push(EventRecord::Granted { role, account }).push(
            EventRecord::Revoked { role, account },
        ),
{
    if (Role::Admin, caller) != (role, account) {
        assert(s1.holds(Role::Admin, caller));
    }
}

/// A state-changing call on the role registry: an entry point of the
/// contract, or one of the storage helpers `roles::set_role` and
/// `roles::bump_revocation_epoch`. The read-only calls (`has_role`,
/// `require_role`, `revocation_epoch`, `revocation_nonce`) change nothing.
pub ghost enum RegistryCall {
    Initialize { admin: Seq<u8> },
    Grant { caller: Seq<u8>, account: Seq<u8>, role: Role },
    Revoke { caller: Seq<u8>, account: Seq<u8>, role: Role },
    SetRole { role: Role, account: Seq<u8>, member: bool },
    BumpEpoch,
}

/// `call` was made on a ledger in state `before`, with its precondition met,
/// and returned (with any result), leaving the ledger in state `after`.
pub open spec fn registry_step(before: EnvView, after: EnvView, call: RegistryCall) -> bool {
    match call {
        RegistryCall::Initialize { admin } => {
            &&& !before.initialized ==> before.revocation_epoch < u64::MAX
            &&& exists|r: Result<(), crate::access_control::AccessControlError>|
                #[trigger] initialize_outcome(before, after, admin, r)
        },
        RegistryCall::Grant { caller, account, role } => {
            &&& grant_changes_state(before, caller, account, role) ==> before.revocation_epoch < u64::MAX
            &&& exists|r: Result<(), AccessControlError>|
                #[trigger] grant_outcome(before, after, caller, account, role, r)
        },
        RegistryCall::Revoke { caller, account, role } => {
            &&& revoke_changes_state(before, caller, account, role) ==> {
                &&& before.revocation_epoch < u64::MAX
                &&& before.revocation_nonce < u64::MAX
            }
            &&& exists|r: Result<(), AccessControlError>|
                #[trigger] contract_revoke_outcome(before, after, caller, account, role, r)
        },
        RegistryCall::SetRole { role, account, member } => {
            &&& before.revocation_epoch < u64::MAX
            &&& after == (EnvView {
                members: before.members.insert((role, account), member),
                revocation_epoch: (before.revocation_epoch + 1) as u64,
                ..before
            })
        },
        RegistryCall::BumpEpoch => {
            &&& before.revocation_epoch < u64::MAX
            &&& after == (EnvView { revocation_epoch: (before.revocation_epoch + 1) as u64, ..before })
        },
    }
}

/// The ledger went through `states`, `calls[i]` taking it from `states[i]`
/// to `states[i + 1]`.
pub open spec fn registry_trace(states: Seq<EnvView>, calls: Seq<RegistryCall>) -> bool {
    &&& states.len() == calls.len() + 1
    &&& forall|i: int| #![trigger calls[i]] 0 <= i < calls.len() ==> registry_step(states[i], states[i + 1], calls[i])
}

/// Whether `call` is one that can give `account` the role `role`.
pub open spec fn call_grants(call: RegistryCall, role: Role, account: Seq<u8>) -> bool {
    match call {
        RegistryCall::Initialize { admin } => role == Role::Admin && admin == account,
        RegistryCall::Grant { caller: _, account: a, role: r } => r == role && a == account,
        RegistryCall::SetRole { role: r, account: a, member } => member && r == role && a == account,
        _ => false,
    }
}

/// Whether `call` is a revocation of `role` from `account`.
pub open spec fn call_revokes(call: RegistryCall, role: Role, account: Seq<u8>) -> bool {
    match call {
        RegistryCall::Revoke { caller: _, account: a, role: r } => r == role && a == account,
        _ => false,
    }
}

/// What one call does to the counters, the event log and the memberships.
proof fn lemma_registry_step(before: EnvView, after: EnvView, call: RegistryCall)
    requires
        registry_step(before, after, call),
    ensures
        before.revocation_epoch <= after.revocation_epoch,
        before.revocation_nonce <= after.revocation_nonce,
        after.revocation_epoch - before.revocation_epoch >= after.events.len() - before.events.len(),
        after.events.len() >= before.events.len(),
        (call is SetRole || call is BumpEpoch || after.events.len() > before.events.len())
            ==> after.revocation_epoch == before.revocation_epoch + 1,
        (call is Revoke && after.events.len() > before.events.len())
            ==> after.revocation_nonce == before.revocation_nonce + 1,
        forall|role: Role, account: Seq<u8>| #[trigger] after.holds(role, account) && !before.holds(role, account)
            ==> call_grants(call, role, account),
        forall|role: Role, account: Seq<u8>| call_revokes(call, role, account) && after.events.len() > before.events.len()
            ==> !#[trigger] after.holds(role, account),
{
    match call {
        RegistryCall::Initialize { admin } => {
            let r = choose|r: Result<(), crate::access_control::AccessControlError>|
                #[trigger] initialize_outcome(before, after, admin, r);
        },
        RegistryCall::Grant { caller, account, role } => {
            let r = choose|r: Result<(), AccessControlError>|
                #[trigger] grant_outcome(before, after, caller, account, role, r);
        },
        RegistryCall::Revoke { caller, account, role } => {
            let r = choose|r: Result<(), AccessControlError>|
                #[trigger] contract_revoke_outcome(before, after, caller, account, role, r);
        },
        _ => {},
    }
}

/// Along any sequence of calls the revocation epoch and the revocation nonce
/// never go backwards. The epoch moves by at least the number of events
/// published, and it has moved once the sequence held a `set_role`, an epoch
/// bump or a successful initialize, grant or revoke; the nonce has moved once
/// a revocation succeeded.
pub proof fn counters_never_go_backwards(states: Seq<EnvView>, calls: Seq<RegistryCall>)
    requires
        registry_trace(states, calls),
    ensures
        forall|i: int, j: int| 0 <= i <= j < states.len() ==> {
            &&& (#[trigger] states[i]).revocation_epoch <= (#[trigger] states[j]).revocation_epoch
            &&& states[i].revocation_nonce <= states[j].revocation_nonce
        },
        states.last().revocation_epoch - states[0].revocation_epoch
            >= states.last().events.len() - states[0].events.len(),
        forall|k: int| #![trigger calls[k]]
            0 <= k < calls.len() && (calls[k] is SetRole || calls[k] is BumpEpoch
                || states[k + 1].events.len() > states[k].events.len())
            ==> states.last().revocation_epoch > states[0].revocation_epoch,
        forall|k: int| #![trigger calls[k]]
            0 <= k < calls.len() && calls[k] is Revoke && states[k + 1].events.len() > states[k].events.len()
            ==> states.last().revocation_nonce > states[0].revocation_nonce,
    decreases calls.len(),
{
    let n = calls.len() as int;
    if n > 0 {
        let prefix = states.drop_last();
        let earlier = calls.drop_last();
        assert forall|i: int| #![trigger earlier[i]] 0 <= i < earlier.len()
            implies registry_step(prefix[i], prefix[i + 1], earlier[i]) by {
            assert(calls[i] == earlier[i]);
        }
        counters_never_go_backwards(prefix, earlier);
        assert(calls[n - 1] == calls[n - 1]);
        lemma_registry_step(states[n - 1], states[n], calls[n - 1]);
        assert forall|i: int, j: int| 0 <= i <= j < states.len() implies {
            &&& (#[trigger] states[i]).revocation_epoch <= (#[trigger] states[j]).revocation_epoch
            &&& states[i].revocation_nonce <= states[j].revocation_nonce
        } by {
            if j < n {
                assert(prefix[i] == states[i] && prefix[j] == states[j]);
            } else if i < n {
                assert(prefix[i] == states[i] && prefix[n - 1] == states[n - 1]);
            }
        }
        assert forall|k: int| #![trigger calls[k]]
            0 <= k < calls.len() && (calls[k] is SetRole || calls[k] is BumpEpoch
                || states[k + 1].events.len() > states[k].events.len())
            implies states.last().revocation_epoch > states[0].revocation_epoch by {
            if k < n - 1 {
                assert(earlier[k] == calls[k]);
                assert(prefix[k] == states[k] && prefix[k + 1] == states[k + 1]);
            } else {
                assert(prefix[0] == states[0] && prefix[n - 1] == states[n - 1]);
            }
        }
        assert forall|k: int| #![trigger calls[k]]
            0 <= k < calls.len() && calls[k] is Revoke && states[k + 1].events.len() > states[k].events.len()
            implies states.last().revocation_nonce > states[0].revocation_nonce by {
            if k < n - 1 {
                assert(earlier[k] == calls[k]);
                assert(prefix[k] == states[k] && prefix[k + 1] == states[k + 1]);
            } else {
                assert(prefix[0] == states[0] && prefix[n - 1] == states[n - 1]);
            }
        }
    }
}

/// No authorization outlives its revocation: once a revocation of `role`
/// from `account` has succeeded, every later state of the ledger reports that
/// the account does not hold the role, until a call that grants exactly that
/// role to exactly that account.
pub proof fn revocation_outlives_later_calls(
    states: Seq<EnvView>,
    calls: Seq<RegistryCall>,
    k: int,
    role: Role,
    account: Seq<u8>,
)
    requires
        registry_trace(states, calls),
        0 <= k < calls.len(),
        call_revokes(calls[k], role, account),
        states[k + 1].events.len() > states[k].events.len(),
        forall|j: int| #![trigger calls[j]] k < j < calls.len() ==> !call_grants(calls[j], role, account),
    ensures
        forall|j: int| k < j < states.len() ==> !(#[trigger] states[j]).holds(role, account),
{
    assert(calls[k] == calls[k]);
    lemma_registry_step(states[k], states[k + 1], calls[k]);
    assert forall|j: int| k < j < states.len() implies !(#[trigger] states[j]).holds(role, account) by {
        lemma_still_revoked(states, calls, k, role, account, j);
    }
}

proof fn lemma_still_revoked(
    states: Seq<EnvView>,
    calls: Seq<RegistryCall>,
    k: int,
    role: Role,
    account: Seq<u8>,
    j: int,
)
    requires
        registry_trace(states, calls),
        0 <= k < calls.len(),
        !states[k + 1].holds(role, account),
        forall|i: int| #![trigger calls[i]] k < i < calls.len() ==> !call_grants(calls[i], role, account),
        k < j < states.len(),
    ensures
        !states[j].holds(role, account),
    decreases j,
{
    if j > k + 1 {
        lemma_still_revoked(states, calls, k, role, account, j - 1);
        assert(calls[j - 1] == calls[j - 1]);
        lemma_registry_step(states[j - 1], states[j], calls[j - 1]);
    }
}

} // verus!
