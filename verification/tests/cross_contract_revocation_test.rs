//! Grant a role, use it, revoke it, and immediately retry the same
//! privileged call: the retry must fail because every check is live.

use governance_contracts::access_control::{AccessControl, Address, Env, Role};
use governance_contracts::governance::Governance;
use governance_contracts::governance_voting::VoteTally;

fn address(strkey: &str) -> Address {
    Address { strkey: strkey.as_bytes().to_vec() }
}

/// Governance dependent: privileged proposal creation, checked live.
fn governance_privileged_action(env: &Env, governance: &mut Governance, caller: &Address) -> Result<(), ()> {
    if !AccessControl::has_role(env, caller.duplicate(), Role::Governor) {
        return Err(());
    }
    governance.create_proposal(5_000);
    Ok(())
}

/// Governance-voting dependent: privileged vote casting, checked live.
fn voting_privileged_action(env: &Env, tally: &mut VoteTally, caller: &Address, voter: u64) -> Result<(), ()> {
    if !AccessControl::has_role(env, caller.duplicate(), Role::Voter) {
        return Err(());
    }
    tally.record(voter, 1).map_err(|_| ())
}

#[test]
fn governance_revocation_is_live() {
    let mut env = Env::new();
    let admin = address("GADMIN");
    let user = address("GUSER");
    AccessControl::initialize(&mut env, admin.duplicate()).unwrap();
    let mut governance = Governance::new();

    // 1. Grant the role.
    AccessControl::grant(&mut env, admin.duplicate(), user.duplicate(), Role::Governor).unwrap();
    assert!(AccessControl::has_role(&env, user.duplicate(), Role::Governor), "role should be granted");

    // 2. Use it successfully.
    assert!(
        governance_privileged_action(&env, &mut governance, &user).is_ok(),
        "privileged action should succeed while role is held"
    );

    // 3. Revoke it.
    AccessControl::revoke(&mut env, admin.duplicate(), user.duplicate(), Role::Governor).unwrap();
    assert!(!AccessControl::has_role(&env, user.duplicate(), Role::Governor), "role should be revoked");

    // 4. Immediately retry: must fail because the check is live, not cached.
    assert!(
        governance_privileged_action(&env, &mut governance, &user).is_err(),
        "privileged action must fail immediately after revocation (no cached authorization)"
    );
}

#[test]
fn governance_voting_revocation_is_live() {
    let mut env = Env::new();
    let admin = address("GADMIN");
    let user = address("GUSER");
    AccessControl::initialize(&mut env, admin.duplicate()).unwrap();
    let mut tally = VoteTally::new();

    AccessControl::grant(&mut env, admin.duplicate(), user.duplicate(), Role::Voter).unwrap();
    assert!(AccessControl::has_role(&env, user.duplicate(), Role::Voter), "role should be granted");

    assert!(
        voting_privileged_action(&env, &mut tally, &user, 1).is_ok(),
        "privileged action should succeed while role is held"
    );

    AccessControl::revoke(&mut env, admin.duplicate(), user.duplicate(), Role::Voter).unwrap();
    assert!(!AccessControl::has_role(&env, user.duplicate(), Role::Voter), "role should be revoked");

    assert!(
        voting_privileged_action(&env, &mut tally, &user, 2).is_err(),
        "privileged action must fail immediately after revocation (no cached authorization)"
    );
}
