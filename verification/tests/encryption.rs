use coresettings::UsersError;
use coresettings::panel;
use coresettings::users::{HomeDir, SystemState, UserAccount, disabled_mode_password};

fn volume_home(user: &str, password: &str) -> HomeDir {
    HomeDir {
        user: String::from(user),
        plain_dir: true,
        encrypted_dir: true,
        initialized: true,
        volume_password: String::from(password),
        disabled_marker: false,
        mounted: false,
        encrypted_key: String::from("k3y-material"),
        salt: String::from("s4lt"),
    }
}

fn state_with_volume(user: &str, password: &str) -> SystemState {
    let mut state = SystemState::new();
    state.overlay_mounted = true;
    state.accounts.push(UserAccount {
        name: String::from(user),
        password: String::from(password),
        admin: false,
    });
    state.homes.push(volume_home(user, password));
    state
}

#[test]
fn disable_then_details_report_disabled_and_marker_until_reenabled() {
    let mut state = state_with_volume("dana", "Secret1");
    assert_eq!(state.disable_encryption("dana", "Secret1"), Ok(()));

    // the volume's password is now the reserved sentinel and the marker exists
    assert_eq!(state.homes[0].volume_password, disabled_mode_password());
    assert!(state.homes[0].disabled_marker);
    let details = state.get_encryption_user_details("dana").unwrap();
    assert!(!details.encryption_enabled);

    // changing from the sentinel to a genuinely new password removes the marker
    let sentinel = disabled_mode_password();
    let r = state.change_encryption_password("dana", sentinel.as_str(), "Fresh2");
    assert_eq!(r, Ok(()));
    assert!(!state.homes[0].disabled_marker);
    assert_eq!(state.homes[0].volume_password, "Fresh2");
    let details = state.get_encryption_user_details("dana").unwrap();
    assert!(details.encryption_enabled);
}

#[test]
fn change_encryption_password_rejects_wrong_old_password() {
    let mut state = state_with_volume("dana", "Secret1");
    let r = state.change_encryption_password("dana", "wrong", "Fresh2");
    assert_eq!(r, Err(UsersError::StorageError));
    assert_eq!(state.homes[0].volume_password, "Secret1");
}

#[test]
fn change_encryption_password_fails_without_volume() {
    let mut state = SystemState::new();
    let r = state.change_encryption_password("nobody", "a", "b");
    assert_eq!(r, Err(UsersError::StorageError));
}

#[test]
fn change_encryption_password_to_sentinel_keeps_marker() {
    let mut state = state_with_volume("dana", "Secret1");
    assert_eq!(state.disable_encryption("dana", "Secret1"), Ok(()));
    // setting the sentinel again (no-op change) must not remove the marker
    let sentinel = disabled_mode_password();
    let r = state.change_encryption_password("dana", sentinel.as_str(), sentinel.as_str());
    assert_eq!(r, Ok(()));
    assert!(state.homes[0].disabled_marker);
}

#[test]
fn details_fail_without_initialized_volume() {
    let mut state = state_with_volume("dana", "Secret1");
    state.homes[0].initialized = false;
    assert_eq!(
        state.get_encryption_user_details("dana").err(),
        Some(UsersError::StorageError)
    );
}

#[test]
fn user_details_pass_key_material_through() {
    let state = state_with_volume("dana", "Secret1");
    let user = state.get_user_details("dana");
    assert_eq!(user.name, "dana");
    assert!(user.encryption);
    assert_eq!(user.encrypted_key, "k3y-material");
    assert_eq!(user.salt, "s4lt");
    assert!(!user.admin);
}

#[test]
fn user_details_default_to_disabled_when_volume_missing() {
    let state = SystemState::new();
    let user = state.get_user_details("ghost");
    assert_eq!(user.name, "ghost");
    assert!(!user.encryption);
    assert_eq!(user.encrypted_key, "");
    assert_eq!(user.salt, "");
    assert!(!user.admin);
}

#[test]
fn get_users_lists_initialized_volumes_in_order() {
    let mut state = state_with_volume("dana", "a");
    state.homes.push(volume_home("erin", "b"));
    let mut bare = volume_home("frank", "c");
    bare.initialized = false;
    state.homes.push(bare);
    assert_eq!(state.get_users(), vec![String::from("dana"), String::from("erin")]);
}

#[test]
fn mount_storage_checks_password_and_mount_state() {
    let mut state = state_with_volume("dana", "Secret1");
    assert_eq!(state.mount_storage("dana", "wrong"), Err(UsersError::StorageError));
    assert_eq!(state.mount_storage("dana", "Secret1"), Ok(()));
    assert!(state.homes[0].mounted);
    assert_eq!(state.mount_storage("dana", "Secret1"), Err(UsersError::StorageError));
    assert_eq!(state.unmount_storage("dana"), Ok(()));
    assert!(!state.homes[0].mounted);
    assert_eq!(state.unmount_storage("dana"), Err(UsersError::StorageError));
}

#[test]
fn panel_disable_storage_encryption_sets_sentinel_everywhere() {
    let mut state = state_with_volume("dana", "Secret1");
    let (unix, storage) = panel::disable_storage_encryption(&mut state, "dana", "Secret1", "tmp");
    assert_eq!(unix, Ok(()));
    assert_eq!(storage, Ok(()));
    assert_eq!(state.accounts[0].password, disabled_mode_password());
    assert_eq!(state.homes[0].volume_password, disabled_mode_password());
    assert!(state.homes[0].disabled_marker);
}

#[test]
fn panel_disable_storage_runs_second_step_after_first_fails() {
    let mut state = state_with_volume("dana", "Secret1");
    state.accounts[0].password = String::from("different");
    let (unix, storage) = panel::disable_storage_encryption(&mut state, "dana", "Secret1", "tmp");
    assert_eq!(unix, Err(UsersError::AuthorizationFailed));
    // the storage step still ran, as the panel does
    assert_eq!(storage, Ok(()));
    assert!(state.homes[0].disabled_marker);
    assert_eq!(state.accounts[0].password, "different");
}

#[test]
fn panel_change_password_uses_sentinel_when_storage_was_disabled() {
    let mut state = state_with_volume("dana", "Secret1");
    let (unix, storage) = panel::disable_storage_encryption(&mut state, "dana", "Secret1", "t1");
    assert_eq!((unix, storage), (Ok(()), Ok(())));
    // the user types anything as the old password; the sentinel stands in
    let r = panel::change_user_password(&mut state, "dana", "typed-old", "Fresh2", true, "t2");
    assert_eq!(r, Ok(()));
    assert_eq!(state.accounts[0].password, "Fresh2");
    assert_eq!(state.homes[0].volume_password, "Fresh2");
    // the marker is gone: encryption is back in effect
    assert!(!state.homes[0].disabled_marker);
}

#[test]
fn panel_change_password_changes_account_and_volume() {
    let mut state = state_with_volume("dana", "Secret1");
    let r = panel::change_user_password(&mut state, "dana", "Secret1", "Next3", false, "tmp");
    assert_eq!(r, Ok(()));
    assert_eq!(state.accounts[0].password, "Next3");
    assert_eq!(state.homes[0].volume_password, "Next3");
}

#[test]
fn panel_change_password_stops_after_wrong_old_password() {
    let mut state = state_with_volume("dana", "Secret1");
    let r = panel::change_user_password(&mut state, "dana", "wrong", "Next3", false, "tmp");
    assert_eq!(r, Err(UsersError::AuthorizationFailed));
    assert_eq!(state.accounts[0].password, "Secret1");
    assert_eq!(state.homes[0].volume_password, "Secret1");
}
