use coresettings::UsersError;
use coresettings::boot_config::{
    BootConfig, default_user_label, final_boot_config, set_default, set_default_user,
};
use coresettings::commands;
use coresettings::toast::{
    DialogType, TOAST_DURATION_MILLIS, TOAST_GC_DELAY, ToastState, toast_timer_loop_check,
};

#[test]
fn password_change_command_in_verify_mode() {
    let argv =
        commands::change_user_password_chroot_command("/mnt/overlay", "bob", Some("old"), "new", true)
            .unwrap();
    assert_eq!(
        argv,
        vec![
            String::from("/usr/sbin/chroot"),
            String::from("/mnt/overlay"),
            String::from("/bin/su"),
            String::from("-s"),
            String::from("/bin/sh"),
            String::from("-c"),
            String::from("printf 'old\nnew\nnew' | /usr/bin/passwd bob"),
            String::from("bob"),
        ]
    );
}

#[test]
fn password_change_command_in_privileged_mode() {
    let argv =
        commands::change_user_password_chroot_command("/mnt/overlay", "bob", None, "new", false)
            .unwrap();
    assert_eq!(
        argv,
        vec![
            String::from("/usr/sbin/chroot"),
            String::from("/mnt/overlay"),
            String::from("/bin/sh"),
            String::from("-c"),
            String::from("printf 'new\nnew' | /usr/bin/passwd bob"),
        ]
    );
}

#[test]
fn password_change_command_needs_old_password_in_verify_mode() {
    let r = commands::change_user_password_chroot_command("/mnt/overlay", "bob", None, "new", true);
    assert_eq!(r, Err(UsersError::MissingOldPassword));
}

#[test]
fn useradd_command_joins_admin_group_at_creation() {
    let with_admin = commands::create_user_chroot_command("/mnt/overlay", "alice", true);
    assert_eq!(
        with_admin,
        vec![
            String::from("/usr/sbin/chroot"),
            String::from("/mnt/overlay"),
            String::from("/usr/sbin/useradd"),
            String::from("-M"),
            String::from("-G"),
            String::from("wheel"),
            String::from("alice"),
        ]
    );
    let plain = commands::create_user_chroot_command("/mnt/overlay", "alice", false);
    assert_eq!(
        plain,
        vec![
            String::from("/usr/sbin/chroot"),
            String::from("/mnt/overlay"),
            String::from("/usr/sbin/useradd"),
            String::from("-M"),
            String::from("alice"),
        ]
    );
}

#[test]
fn userdel_command_forces_home_removal() {
    assert_eq!(
        commands::delete_user_chroot_command("alice"),
        vec![
            String::from("/usr/sbin/userdel"),
            String::from("-f"),
            String::from("-r"),
            String::from("alice"),
        ]
    );
}

#[test]
fn group_membership_command_greps_quietly() {
    assert_eq!(
        commands::is_admin_chroot_command("alice"),
        vec![
            String::from("/bin/sh"),
            String::from("-c"),
            String::from("/usr/sbin/groups 'alice' | /usr/sbin/grep -q 'wheel'"),
        ]
    );
}

#[test]
fn volume_tool_commands_feed_passwords_on_stdin() {
    assert_eq!(
        commands::initialize_encrypted_storage_command("/usr/bin/gocryptfs", "/data/home/.u", "pw"),
        vec![
            String::from("/bin/sh"),
            String::from("-c"),
            String::from("printf 'pw\npw' | /usr/bin/gocryptfs -init /data/home/.u"),
        ]
    );
    assert_eq!(
        commands::change_encryption_password_command("/usr/bin/gocryptfs", "/data/home/.u", "a", "b"),
        vec![
            String::from("/bin/sh"),
            String::from("-c"),
            String::from("printf 'a\nb' | /usr/bin/gocryptfs -passwd /data/home/.u"),
        ]
    );
}

#[test]
fn home_seeding_commands_target_the_new_home() {
    assert_eq!(
        commands::copy_skeleton_chroot_command("home", "alice"),
        vec![
            String::from("/bin/sh"),
            String::from("-c"),
            String::from("/bin/cp -r /etc/skel/.* /home/alice"),
        ]
    );
    assert_eq!(
        commands::chown_home_chroot_command("home", "alice"),
        vec![
            String::from("/usr/sbin/chown"),
            String::from("-R"),
            String::from("alice:alice"),
            String::from("/home/alice"),
        ]
    );
}

#[test]
fn storage_paths_follow_the_hidden_sibling_convention() {
    assert_eq!(commands::home_dir_path("/mnt/main", "home", "alice"), "/mnt/main/home/alice");
    assert_eq!(
        commands::encrypted_home_dir_path("/mnt/main", "home", "alice"),
        "/mnt/main/home/.alice"
    );
    assert_eq!(
        commands::encryption_disabled_file_path("/mnt/main", "home", "alice", "plain_mode"),
        "/mnt/main/home/.alice/plain_mode"
    );
}

#[test]
fn default_user_can_be_set_and_cleared() {
    let mut config = BootConfig { default_user: None, first_boot_done: false };
    set_default_user("alice", &mut config);
    assert_eq!(config.default_user.as_deref(), Some("alice"));
    assert_eq!(default_user_label(&config), "alice");
    set_default(None, &mut config);
    assert!(config.default_user.is_none());
    assert_eq!(default_user_label(&config), "");
    set_default(Some("bob"), &mut config);
    assert_eq!(config.default_user.as_deref(), Some("bob"));
    assert!(!config.first_boot_done);
}

#[test]
fn shutdown_writes_config_only_when_changed() {
    let original = BootConfig { default_user: None, first_boot_done: true };
    let unchanged = BootConfig { default_user: None, first_boot_done: false };
    // raising the first-boot flag reproduces what was read: nothing to write
    assert!(final_boot_config(&original, &unchanged).is_none());

    let changed = BootConfig { default_user: Some(String::from("alice")), first_boot_done: true };
    let to_write = final_boot_config(&original, &changed).unwrap();
    assert_eq!(to_write.default_user.as_deref(), Some("alice"));
    assert!(to_write.first_boot_done);

    // on true first boot the flag flip itself forces a write
    let first = BootConfig { default_user: None, first_boot_done: false };
    let written = final_boot_config(&first, &first).unwrap();
    assert!(written.first_boot_done);
    assert!(written.default_user.is_none());
}

#[test]
fn toast_countdown_accumulates_and_dismisses() {
    let mut state = ToastState {
        dialog: DialogType::Toast,
        sticky_toast: false,
        dialog_millis_count: 0,
    };
    toast_timer_loop_check(&mut state);
    assert_eq!(state.dialog, DialogType::Toast);
    assert_eq!(state.dialog_millis_count, TOAST_GC_DELAY);

    state.dialog_millis_count = TOAST_DURATION_MILLIS - TOAST_GC_DELAY;
    toast_timer_loop_check(&mut state);
    assert_eq!(state.dialog, DialogType::Toast);
    assert_eq!(state.dialog_millis_count, TOAST_DURATION_MILLIS);

    toast_timer_loop_check(&mut state);
    assert_eq!(state.dialog, DialogType::Hidden);
    assert_eq!(state.dialog_millis_count, 0);
}

#[test]
fn sticky_or_hidden_toasts_are_left_alone() {
    let mut sticky = ToastState {
        dialog: DialogType::Toast,
        sticky_toast: true,
        dialog_millis_count: 400,
    };
    toast_timer_loop_check(&mut sticky);
    assert_eq!(sticky.dialog, DialogType::Toast);
    assert_eq!(sticky.dialog_millis_count, 400);

    let mut hidden = ToastState {
        dialog: DialogType::Hidden,
        sticky_toast: false,
        dialog_millis_count: 0,
    };
    toast_timer_loop_check(&mut hidden);
    assert_eq!(hidden.dialog, DialogType::Hidden);
    assert_eq!(hidden.dialog_millis_count, 0);
}
