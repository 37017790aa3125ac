use coresettings::UsersError;
use coresettings::users::{AdminLoginStatus, SigningKey, SystemState, UserAccount};

fn acct(name: &str, password: &str, admin: bool) -> UserAccount {
    UserAccount { name: String::from(name), password: String::from(password), admin }
}

fn mounted_state_with(accounts: Vec<UserAccount>) -> SystemState {
    let mut state = SystemState::new();
    state.overlay_mounted = true;
    state.accounts = accounts;
    state
}

#[test]
fn change_password_then_change_again_succeeds() {
    let mut state = mounted_state_with(vec![acct("bob", "old1", false)]);
    let first = state.change_user_password(None, "bob", "old1", Some("new1"), "tmp-a");
    assert_eq!(first, Ok(()));
    let second = state.change_user_password(None, "bob", "new1", Some("newer2"), "tmp-b");
    assert_eq!(second, Ok(()));
    assert_eq!(state.accounts[0].password, "newer2");
    // only the final password authenticates: the old ones are refused
    let with_old = state.change_user_password(None, "bob", "new1", Some("probe"), "tmp-c");
    assert_eq!(with_old, Err(UsersError::AuthorizationFailed));
    let with_newer = state.change_user_password(None, "bob", "newer2", Some("probe"), "tmp-d");
    assert_eq!(with_newer, Ok(()));
    assert_eq!(state.accounts[0].password, "probe");
}

#[test]
fn change_password_mounts_and_tears_down_with_key() {
    let mut state = mounted_state_with(vec![acct("bob", "old1", false)]);
    state.overlay_mounted = false;
    let key = SigningKey {};
    let r = state.change_user_password(Some(&key), "bob", "old1", Some("new1"), "tmp");
    assert_eq!(r, Ok(()));
    // the call established the mount, so it tore it down again
    assert!(!state.overlay_mounted);
    assert_eq!(state.accounts[0].password, "new1");
}

#[test]
fn change_password_without_key_or_mount_fails() {
    let mut state = mounted_state_with(vec![acct("bob", "old1", false)]);
    state.overlay_mounted = false;
    let r = state.change_user_password(None, "bob", "old1", Some("new1"), "tmp");
    assert_eq!(r, Err(UsersError::MissingSigningKey));
    assert_eq!(state.accounts[0].password, "old1");
}

#[test]
fn wrong_old_password_is_refused_and_password_unchanged() {
    let mut state = mounted_state_with(vec![acct("bob", "real1", false)]);
    let r = state.change_user_password(None, "bob", "wrong", Some("new1"), "tmp-a");
    assert_eq!(r, Err(UsersError::AuthorizationFailed));
    assert_eq!(state.accounts[0].password, "real1");
    // verifiable via a subsequent successful change with the real password
    let probe = state.change_user_password(None, "bob", "real1", Some("probe"), "tmp-b");
    assert_eq!(probe, Ok(()));
}

#[test]
fn change_password_for_unknown_user_is_refused() {
    let mut state = mounted_state_with(vec![acct("bob", "real1", false)]);
    let r = state.change_user_password(None, "nobody", "real1", Some("new1"), "tmp");
    assert_eq!(r, Err(UsersError::AuthorizationFailed));
    assert_eq!(state.accounts.len(), 1);
    assert_eq!(state.accounts[0].password, "real1");
}

#[test]
fn verify_only_mode_leaves_password_unchanged() {
    let mut state = mounted_state_with(vec![acct("bob", "real1", false)]);
    let ok = state.change_user_password(None, "bob", "real1", None, "tmp-a");
    assert_eq!(ok, Ok(()));
    assert_eq!(state.accounts[0].password, "real1");
    let bad = state.change_user_password(None, "bob", "wrong", None, "tmp-b");
    assert_eq!(bad, Err(UsersError::AuthorizationFailed));
    assert_eq!(state.accounts[0].password, "real1");
}

#[test]
fn admin_login_verify_success_is_a_no_op_on_state() {
    let mut state = mounted_state_with(vec![acct("root1", "s3cret", true), acct("bob", "x", false)]);
    let status = state.admin_login_verify("root1", "s3cret", "tmp");
    assert_eq!(status, AdminLoginStatus::Success);
    assert!(state.overlay_mounted);
    assert_eq!(state.accounts.len(), 2);
    assert_eq!(state.accounts[0].name, "root1");
    assert_eq!(state.accounts[0].password, "s3cret");
    assert!(state.accounts[0].admin);
    assert_eq!(state.accounts[1].name, "bob");
    assert_eq!(state.accounts[1].password, "x");
}

#[test]
fn admin_login_verify_failure_is_a_no_op_on_state() {
    let mut state = mounted_state_with(vec![acct("root1", "s3cret", true)]);
    let status = state.admin_login_verify("root1", "wrong", "tmp");
    assert_eq!(status, AdminLoginStatus::Failure);
    assert_eq!(state.accounts.len(), 1);
    assert_eq!(state.accounts[0].password, "s3cret");
}

#[test]
fn admin_login_verify_rejects_non_admin_without_touching_state() {
    let mut state = mounted_state_with(vec![acct("bob", "x", false)]);
    let status = state.admin_login_verify("bob", "x", "tmp");
    assert_eq!(status, AdminLoginStatus::NotAdmin);
    assert_eq!(state.accounts[0].password, "x");
    let unknown = state.admin_login_verify("nobody", "x", "tmp");
    assert_eq!(unknown, AdminLoginStatus::NotAdmin);
}
