use lab_inventory::audit::AuditEvent;
use lab_inventory::auth::{
    assistant_account, hash_password, login_decision, password_matches_hash, seed_account,
};
use lab_inventory::models::Role;

#[test]
fn hash_accepts_its_password_only() {
    let h = hash_password("secret").unwrap();
    assert_eq!(h.len(), 60);
    assert!(password_matches_hash("secret", &h));
    assert!(!password_matches_hash("Secret", &h));
    assert!(!password_matches_hash("", &h));
}

#[test]
fn malformed_hash_accepts_nothing() {
    assert!(!password_matches_hash("secret", "not a hash"));
    assert!(!password_matches_hash("", ""));
}

#[test]
fn assistant_accounts() {
    let u = assistant_account("kim", "pw1").unwrap();
    assert_eq!(u.username, "kim");
    assert_eq!(u.role, Role::Assistant);
    assert!(password_matches_hash("pw1", &u.password_hash));
}

#[test]
fn seed_only_when_no_users() {
    assert!(seed_account(1).is_none());
    assert!(seed_account(-1).is_none());
    let u = seed_account(0).unwrap().unwrap();
    assert_eq!(u.username, "pushnyavka");
    assert_eq!(u.role, Role::LabManager);
    assert!(password_matches_hash("pushnyavka", &u.password_hash));
}

#[test]
fn login_with_right_password() {
    let h = hash_password("pw").unwrap();
    let out = login_decision::<()>("ann", "pw", Ok(Some((7, h, Role::LabManager))));
    let user = out.user.unwrap();
    assert_eq!(user.id, 7);
    assert_eq!(user.username, "ann");
    assert_eq!(user.role, Role::LabManager);
    match out.audit {
        Some((7, AuditEvent::UserLogin { username })) => assert_eq!(username, "ann"),
        _ => panic!("expected a login event"),
    }
}

#[test]
fn login_with_wrong_password() {
    let h = hash_password("pw").unwrap();
    let out = login_decision::<()>("ann", "nope", Ok(Some((7, h, Role::Assistant))));
    assert!(out.user.is_none());
    match out.audit {
        Some((7, AuditEvent::UserLoginFail { username })) => assert_eq!(username, "ann"),
        _ => panic!("expected a failed login event"),
    }
}

#[test]
fn login_unknown_user_or_failed_lookup() {
    let out = login_decision::<()>("ghost", "pw", Ok(None));
    assert!(out.user.is_none());
    assert!(out.audit.is_none());
    let out = login_decision::<&str>("ann", "pw", Err("db down"));
    assert!(out.user.is_none());
    assert!(out.audit.is_none());
}

#[test]
fn login_against_malformed_hash_fails() {
    let out = login_decision::<()>("ann", "pw", Ok(Some((3, "garbage".to_string(), Role::Assistant))));
    assert!(out.user.is_none());
    assert!(matches!(out.audit, Some((3, AuditEvent::UserLoginFail { .. }))));
}
