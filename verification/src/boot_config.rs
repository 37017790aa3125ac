//! The small persisted boot configuration: the designated default login
//! user and the first-boot flag.
//!
//! The configuration is read once at process start and written back once at
//! shutdown, and only if its value changed; [`final_boot_config`] is that
//! shutdown decision.
use vstd::prelude::*;

verus! {

/// The persisted boot configuration mutated by this core.
pub struct BootConfig {
    /// The designated default login user, if any.
    pub default_user: Option<String>,
    /// Whether first boot has been completed.
    pub first_boot_done: bool,
}

/// The two configurations hold the same values.
pub open spec fn boot_config_same(a: BootConfig, b: BootConfig) -> bool {
    &&& a.first_boot_done == b.first_boot_done
    &&& match (a.default_user, b.default_user) {
        (Some(x), Some(y)) => x@ == y@,
        (None, None) => true,
        _ => false,
    }
}

/// Record this user as the default login user.
pub fn set_default_user(user: &str, boot_config: &mut BootConfig)
    ensures
        final(boot_config).default_user matches Some(u) && u@ == user@,
        final(boot_config).first_boot_done == old(boot_config).first_boot_done,
{
    boot_config.default_user = Some(user.to_owned());
}

/// Record or clear the default login user; `None` clears it.
pub fn set_default(user: Option<&str>, boot_config: &mut BootConfig)
    ensures
        match user {
            Some(name) => final(boot_config).default_user matches Some(u) && u@ == name@,
            None => final(boot_config).default_user is None,
        },
        final(boot_config).first_boot_done == old(boot_config).first_boot_done,
{
    match user {
        Some(name) => boot_config.default_user = Some(name.to_owned()),
        None => boot_config.default_user = None,
    }
}

/// The default-user label shown by the presentation layer: the default
/// user's name, or empty when none is set.
pub fn default_user_label(boot_config: &BootConfig) -> (r: String)
    ensures
        match boot_config.default_user {
            Some(u) => r@ == u@,
            None => r@ == Seq::<char>::empty(),
        },
{
    match &boot_config.default_user {
        Some(user) => user.clone(),
        None => String::new(),
    }
}

/// The shutdown decision: the configuration to persist, with the first-boot
/// flag raised, or `None` when the result equals what was read at startup
/// (in which case nothing is written back).
pub fn final_boot_config(original: &BootConfig, current: &BootConfig) -> (r: Option<BootConfig>)
    ensures
        match r {
            Some(updated) => {
                &&& updated.first_boot_done
                &&& match (updated.default_user, current.default_user) {
                    (Some(x), Some(y)) => x@ == y@,
                    (None, None) => true,
                    _ => false,
                }
                &&& !boot_config_same(updated, *original)
            },
            None => boot_config_same(
                BootConfig { default_user: current.default_user, first_boot_done: true },
                *original,
            ),
        },
{
    let updated = BootConfig {
        default_user: match &current.default_user {
            Some(user) => Some(user.clone()),
            None => None,
        },
        first_boot_done: true,
    };
    let same: bool = updated.first_boot_done == original.first_boot_done && match (
        &updated.default_user,
        &original.default_user,
    ) {
        (Some(x), Some(y)) => x.clone() == y.clone(),
        (None, None) => true,
        _ => false,
    };
    if same {
        None
    } else {
        Some(updated)
    }
}

} // verus!
