use governance_contracts::access_control::env::{Address, Env, PublishedEvent};
use governance_contracts::access_control::grant_revoke::{self, AccessControlError as GrantError};
use governance_contracts::access_control::roles::{self, Role};
use governance_contracts::access_control::{AccessControl, AccessControlError};

fn address(strkey: &str) -> Address {
    Address { strkey: strkey.as_bytes().to_vec() }
}

fn initialized(admin: &Address) -> Env {
    let mut env = Env::new();
    AccessControl::initialize(&mut env, admin.duplicate()).unwrap();
    env
}

#[test]
fn initialize_installs_first_admin_once() {
    let admin = address("GADMIN");
    let other = address("GOTHER");
    let mut env = Env::new();
    assert!(!AccessControl::has_role(&env, admin.duplicate(), Role::Admin));
    assert_eq!(AccessControl::initialize(&mut env, admin.duplicate()), Ok(()));
    assert!(AccessControl::has_role(&env, admin.duplicate(), Role::Admin));
    assert_eq!(roles::revocation_epoch(&env), 1);
    assert_eq!(
        AccessControl::initialize(&mut env, other.duplicate()),
        Err(AccessControlError::Unauthorized)
    );
    assert!(!AccessControl::has_role(&env, other.duplicate(), Role::Admin));
    assert_eq!(roles::revocation_epoch(&env), 1);
}

#[test]
fn non_admin_cannot_grant_or_revoke() {
    let admin = address("GADMIN");
    let mallory = address("GMALLORY");
    let user = address("GUSER");
    let mut env = initialized(&admin);
    assert_eq!(
        AccessControl::grant(&mut env, mallory.duplicate(), user.duplicate(), Role::Voter),
        Err(GrantError::Unauthorized)
    );
    assert!(!AccessControl::has_role(&env, user.duplicate(), Role::Voter));
    AccessControl::grant(&mut env, admin.duplicate(), user.duplicate(), Role::Voter).unwrap();
    assert_eq!(
        AccessControl::revoke(&mut env, mallory.duplicate(), user.duplicate(), Role::Voter),
        Err(GrantError::Unauthorized)
    );
    assert!(AccessControl::has_role(&env, user.duplicate(), Role::Voter));
}

#[test]
fn granting_twice_is_rejected() {
    let admin = address("GADMIN");
    let user = address("GUSER");
    let mut env = initialized(&admin);
    assert_eq!(grant_revoke::grant_role(&mut env, &admin, &user, Role::Governor), Ok(()));
    let epoch = roles::revocation_epoch(&env);
    let events = env.events().len();
    assert_eq!(
        grant_revoke::grant_role(&mut env, &admin, &user, Role::Governor),
        Err(GrantError::RoleAlreadyGranted)
    );
    assert_eq!(roles::revocation_epoch(&env), epoch);
    assert_eq!(env.events().len(), events);
}

#[test]
fn revoking_an_absent_role_is_rejected() {
    let admin = address("GADMIN");
    let user = address("GUSER");
    let mut env = initialized(&admin);
    assert_eq!(
        grant_revoke::revoke_role(&mut env, &admin, &user, Role::Voter),
        Err(GrantError::RoleNotGranted)
    );
    assert_eq!(AccessControl::revocation_nonce(&env), 0);
}

#[test]
fn require_role_answers_live() {
    let admin = address("GADMIN");
    let user = address("GUSER");
    let mut env = initialized(&admin);
    assert_eq!(
        AccessControl::require_role(&env, user.duplicate(), Role::Governor),
        Err(AccessControlError::Unauthorized)
    );
    assert_eq!(grant_revoke::require_role(&env, &user, Role::Governor), Err(GrantError::Unauthorized));
    AccessControl::grant(&mut env, admin.duplicate(), user.duplicate(), Role::Governor).unwrap();
    assert_eq!(AccessControl::require_role(&env, user.duplicate(), Role::Governor), Ok(()));
    assert_eq!(grant_revoke::require_role(&env, &user, Role::Governor), Ok(()));
    roles::require_role(&env, &Role::Governor, &user);
    AccessControl::revoke(&mut env, admin.duplicate(), user.duplicate(), Role::Governor).unwrap();
    assert_eq!(
        AccessControl::require_role(&env, user.duplicate(), Role::Governor),
        Err(AccessControlError::Unauthorized)
    );
}

#[test]
fn epoch_and_nonce_track_changes() {
    let admin = address("GADMIN");
    let user = address("GUSER");
    let mut env = initialized(&admin);
    assert_eq!(roles::revocation_epoch(&env), 1);
    assert_eq!(AccessControl::revocation_nonce(&env), 0);
    AccessControl::grant(&mut env, admin.duplicate(), user.duplicate(), Role::Voter).unwrap();
    assert_eq!(roles::revocation_epoch(&env), 2);
    assert_eq!(AccessControl::revocation_nonce(&env), 0);
    AccessControl::revoke(&mut env, admin.duplicate(), user.duplicate(), Role::Voter).unwrap();
    assert_eq!(roles::revocation_epoch(&env), 3);
    assert_eq!(AccessControl::revocation_nonce(&env), 1);
    assert_eq!(roles::bump_revocation_epoch(&mut env), 4);
    assert_eq!(roles::revocation_epoch(&env), 4);
}

#[test]
fn roles_are_independent_per_pair() {
    let admin = address("GADMIN");
    let alice = address("GALICE");
    let bob = address("GBOB");
    let mut env = initialized(&admin);
    roles::set_role(&mut env, &Role::Voter, &alice, true);
    assert!(roles::has_role(&env, &Role::Voter, &alice));
    assert!(!roles::has_role(&env, &Role::Governor, &alice));
    assert!(!roles::has_role(&env, &Role::Voter, &bob));
    roles::set_role(&mut env, &Role::Voter, &alice, false);
    assert!(!roles::has_role(&env, &Role::Voter, &alice));
    assert!(roles::has_role(&env, &Role::Admin, &admin));
}

#[test]
fn events_record_each_transition() {
    let admin = address("GADMIN");
    let user = address("GUSER");
    let mut env = initialized(&admin);
    AccessControl::grant(&mut env, admin.duplicate(), user.duplicate(), Role::Governor).unwrap();
    AccessControl::revoke(&mut env, admin.duplicate(), user.duplicate(), Role::Governor).unwrap();
    let events = env.events();
    assert_eq!(events.len(), 3);
    match &events[0] {
        PublishedEvent::RoleGranted(e) => {
            assert_eq!(e.role, Role::Admin);
            assert_eq!(e.account.strkey, b"GADMIN".to_vec());
        }
        other => panic!("unexpected event {:?}", other),
    }
    match &events[1] {
        PublishedEvent::RoleGranted(e) => {
            assert_eq!(e.role, Role::Governor);
            assert_eq!(e.account.strkey, b"GUSER".to_vec());
        }
        other => panic!("unexpected event {:?}", other),
    }
    match &events[2] {
        PublishedEvent::RoleRevoked(e) => {
            assert_eq!(e.role, Role::Governor);
            assert_eq!(e.account.strkey, b"GUSER".to_vec());
        }
        other => panic!("unexpected event {:?}", other),
    }
}

#[test]
fn addresses_compare_by_strkey() {
    let a = address("GABC");
    assert!(a.same_as(&address("GABC")));
    assert!(!a.same_as(&address("GABD")));
    assert!(!a.same_as(&address("GAB")));
    assert_eq!(a.duplicate().strkey, b"GABC".to_vec());
}
