//! Orchestration entry points behind the settings panel: the sequences the
//! presentation layer triggers for one button press, composed from the
//! operations of [`crate::users`].
//!
//! Each sequence mirrors what the deferred callback behind the panel does;
//! the presentation layer itself (dialogs, toasts, timers) stays outside
//! the library.
use vstd::prelude::*;

use crate::UsersError;
use crate::users::{
    SystemState, accounts_with_password, disabled_home, disabled_mode_password, sentinel,
    updated_volume_password,
};

verus! {

/// The old password actually used for a password change: when the user's
/// encrypted storage was administratively disabled, the account's real old
/// password is the reserved sentinel, not what the user typed.
pub open spec fn effective_old_password(typed: Seq<char>, storage_was_disabled: bool) -> Seq<
    char,
> {
    if storage_was_disabled {
        sentinel()
    } else {
        typed
    }
}

/// Change a user's password: first the UNIX account password through the
/// two-phase protocol, then — only if that succeeded — the encrypted
/// volume's password. When the encrypted storage was disabled, the
/// reserved sentinel stands in for the old password.
pub fn change_user_password(
    state: &mut SystemState,
    user: &str,
    old_password: &str,
    new_password: &str,
    encrypted_storage_was_disabled: bool,
    temporary_password: &str,
) -> (r: Result<(), UsersError>)
    requires
        old(state).wf(),
    ensures
        final(state).wf(),
        final(state).overlay_mounted == old(state).overlay_mounted,
        final(state).boot_config == old(state).boot_config,
        r == Err::<(), UsersError>(UsersError::MissingSigningKey) <==> !old(state).overlay_mounted,
        r == Err::<(), UsersError>(UsersError::AuthorizationFailed) <==> old(state).overlay_mounted
            && !old(state).authenticates(
            user@,
            effective_old_password(old_password@, encrypted_storage_was_disabled),
        ),
        (r == Err::<(), UsersError>(UsersError::MissingSigningKey) || r == Err::<
            (),
            UsersError,
        >(UsersError::AuthorizationFailed)) ==> final(state).accounts@ == old(state).accounts@
            && final(state).homes@ == old(state).homes@,
        old(state).overlay_mounted && old(state).authenticates(
            user@,
            effective_old_password(old_password@, encrypted_storage_was_disabled),
        ) ==> accounts_with_password(
            old(state).accounts@,
            final(state).accounts@,
            user@,
            new_password@,
        ),
        r == Err::<(), UsersError>(UsersError::StorageError) <==> old(state).overlay_mounted && old(
            state,
        ).authenticates(
            user@,
            effective_old_password(old_password@, encrypted_storage_was_disabled),
        ) && !(old(state).volume_initialized(user@) && old(state).home_of(user@).volume_password@
            == effective_old_password(old_password@, encrypted_storage_was_disabled)),
        r == Err::<(), UsersError>(UsersError::StorageError) ==> final(state).homes@ == old(
            state,
        ).homes@,
        r is Ok <==> old(state).overlay_mounted && old(state).authenticates(
            user@,
            effective_old_password(old_password@, encrypted_storage_was_disabled),
        ) && old(state).volume_initialized(user@) && old(state).home_of(user@).volume_password@
            == effective_old_password(old_password@, encrypted_storage_was_disabled),
        r is Ok ==> final(state).homes@.len() == old(state).homes@.len() && forall|i: int|
            0 <= i < old(state).homes@.len() ==> {
                if old(state).homes@[i].user@ == user@ {
                    updated_volume_password(
                        old(state).homes@[i],
                        #[trigger] final(state).homes@[i],
                        new_password@,
                    )
                } else {
                    final(state).homes@[i] == old(state).homes@[i]
                }
            },
{
    let effective_old: String = if encrypted_storage_was_disabled {
        disabled_mode_password()
    } else {
        old_password.to_owned()
    };

    match state.change_user_password(
        None,
        user,
        effective_old.as_str(),
        Some(new_password),
        temporary_password,
    ) {
        Ok(()) => {},
        Err(e) => {
            return Err(e);
        },
    }
    match state.change_encryption_password(user, effective_old.as_str(), new_password) {
        Ok(()) => Ok(()),
        Err(e) => Err(e),
    }
}

/// Disable a user's encrypted storage: set the UNIX account password to
/// the reserved sentinel, then set the volume's password to the sentinel
/// and create the disabled-marker file. The second step runs whether or
/// not the first succeeded, as the panel does; both outcomes are returned.
pub fn disable_storage_encryption(
    state: &mut SystemState,
    user: &str,
    password: &str,
    temporary_password: &str,
) -> (r: (Result<(), UsersError>, Result<(), UsersError>))
    requires
        old(state).wf(),
    ensures
        final(state).wf(),
        final(state).overlay_mounted == old(state).overlay_mounted,
        final(state).boot_config == old(state).boot_config,
        r.0 == Err::<(), UsersError>(UsersError::MissingSigningKey) <==> !old(
            state,
        ).overlay_mounted,
        r.0 == Err::<(), UsersError>(UsersError::AuthorizationFailed) <==> old(
            state,
        ).overlay_mounted && !old(state).authenticates(user@, password@),
        r.0 is Ok <==> old(state).overlay_mounted && old(state).authenticates(user@, password@),
        r.0 is Ok ==> accounts_with_password(
            old(state).accounts@,
            final(state).accounts@,
            user@,
            sentinel(),
        ),
        r.0 is Err ==> final(state).accounts@ == old(state).accounts@,
        r.1 is Ok <==> old(state).volume_initialized(user@) && old(state).home_of(
            user@,
        ).volume_password@ == password@,
        r.1 is Err ==> final(state).homes@ == old(state).homes@ && r.1 == Err::<
            (),
            UsersError,
        >(UsersError::StorageError),
        r.1 is Ok ==> final(state).homes@.len() == old(state).homes@.len() && forall|i: int|
            0 <= i < old(state).homes@.len() ==> {
                if old(state).homes@[i].user@ == user@ {
                    disabled_home(old(state).homes@[i], #[trigger] final(state).homes@[i])
                } else {
                    final(state).homes@[i] == old(state).homes@[i]
                }
            },
{
    let sentinel_password = disabled_mode_password();
    let unix_outcome = state.change_user_password(
        None,
        user,
        password,
        Some(sentinel_password.as_str()),
        temporary_password,
    );
    let storage_outcome = state.disable_encryption(user, password);
    (unix_outcome, storage_outcome)
}

} // verus!
