use coresettings::UsersError;
use coresettings::users::{
    AdminDemotion, SystemState, UserAccount, sufficient_number_of_admin_users_remaining,
};

fn member(name: &str, admin: bool) -> UserAccount {
    UserAccount { name: String::from(name), password: String::from("pw"), admin }
}

fn mounted_with(accounts: Vec<UserAccount>) -> SystemState {
    let mut state = SystemState::new();
    state.overlay_mounted = true;
    state.accounts = accounts;
    state
}

#[test]
fn demoting_second_to_last_admin_leaves_exactly_one() {
    let mut state = mounted_with(vec![member("root1", true), member("root2", true)]);
    let r = state.remove_admin("root2");
    assert_eq!(r, Ok(AdminDemotion::Demoted));
    assert_eq!(state.count_admin_users(), Ok(1));
    assert!(!state.accounts[1].admin);
    assert!(state.accounts[0].admin);
}

#[test]
fn demoting_last_admin_is_refused_and_admin_set_unchanged() {
    let mut state = mounted_with(vec![member("root1", true), member("bob", false)]);
    let r = state.remove_admin("root1");
    assert_eq!(r, Ok(AdminDemotion::Refused));
    assert_eq!(state.count_admin_users(), Ok(1));
    assert!(state.accounts[0].admin);
}

#[test]
fn remove_admin_fails_for_unknown_user() {
    let mut state = mounted_with(vec![member("root1", true), member("root2", true)]);
    let r = state.remove_admin("nobody");
    assert_eq!(r, Err(UsersError::ExecutionFailed));
    assert_eq!(state.count_admin_users(), Ok(2));
}

#[test]
fn remove_admin_fails_when_overlay_not_mounted() {
    let mut state = mounted_with(vec![member("root1", true), member("root2", true)]);
    state.overlay_mounted = false;
    let r = state.remove_admin("root2");
    assert_eq!(r, Err(UsersError::ExecutionFailed));
    assert!(state.accounts[1].admin);
}

#[test]
fn make_admin_promotes_a_member() {
    let mut state = mounted_with(vec![member("root1", true), member("bob", false)]);
    assert_eq!(state.make_admin("bob"), Ok(()));
    assert!(state.accounts[1].admin);
    assert_eq!(state.count_admin_users(), Ok(2));
    assert_eq!(state.make_admin("nobody"), Err(UsersError::ExecutionFailed));
}

#[test]
fn is_admin_checks_membership_and_fails_closed() {
    let mut state = mounted_with(vec![member("root1", true), member("bob", false)]);
    assert!(state.is_admin("root1"));
    assert!(!state.is_admin("bob"));
    assert!(!state.is_admin("nobody"));
    // an execution error while checking means "not admin"
    state.overlay_mounted = false;
    assert!(!state.is_admin("root1"));
}

#[test]
fn count_admin_users_needs_the_overlay() {
    let mut state = mounted_with(vec![member("root1", true), member("bob", false)]);
    assert_eq!(state.count_admin_users(), Ok(1));
    state.overlay_mounted = false;
    assert_eq!(state.count_admin_users(), Err(UsersError::ExecutionFailed));
}

#[test]
fn sufficient_admins_means_at_least_two() {
    assert!(!sufficient_number_of_admin_users_remaining(0));
    assert!(!sufficient_number_of_admin_users_remaining(1));
    assert!(sufficient_number_of_admin_users_remaining(2));
    assert!(sufficient_number_of_admin_users_remaining(3));
}
