//! Verified core of a local account and encrypted-home-storage manager.
//!
//! The library models the privileged state that the manager acts on (the
//! account database inside an overlay root, per-user encrypted home volumes,
//! and a small persisted boot configuration) and implements the lifecycle
//! operations against that model: the two-phase password-change protocol,
//! encrypted-storage enable/disable, account creation and deletion, and the
//! admin-membership policy with its lockout-prevention rule.
//!
//! Everything that touches the real machine (spawning commands, mounting,
//! filesystem access) stays outside the library; the companion binary builds
//! the command lines with the helpers in [`commands`] and mirrors the model's
//! transitions onto the running system.
use vstd::prelude::*;

pub mod boot_config;
pub mod commands;
pub mod laws;
pub mod panel;
pub mod toast;
pub mod users;

verus! {

/// Errors surfaced by the account and storage operations.
///
/// Validation errors are raised before any mutation; authorization failures
/// come from the verify phase of the password-change protocol; execution and
/// storage failures stand for a privileged command or the encrypted-volume
/// tool reporting failure.
#[derive(Clone, Copy, Debug, PartialEq, Eq, Structural)]
pub enum UsersError {
    /// The requested username contains a forbidden character (`.` or `/`).
    ForbiddenUsername,
    /// An empty username was handed to an operation that needs one.
    MissingUsername,
    /// The overlay root is not mounted and no signing key was supplied.
    MissingSigningKey,
    /// A verify-mode password change was requested without the old password.
    MissingOldPassword,
    /// The claimed old password did not authenticate the account.
    AuthorizationFailed,
    /// A privileged command (chroot account tool) failed.
    ExecutionFailed,
    /// The encrypted-volume tool failed.
    StorageError,
    /// A filesystem operation (directory or marker create/remove) failed.
    IoError,
}

} // verus!
