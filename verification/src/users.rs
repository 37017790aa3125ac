//! The account and encrypted-storage lifecycle manager, verified against a
//! model of the privileged state it acts on.
//!
//! [`SystemState`] models everything the manager reads or mutates: the
//! shadow-password database and admin-group membership inside the overlay
//! root, the per-user home directories with their encrypted backing volumes,
//! whether the overlay root is currently mounted, and the persisted boot
//! configuration. The lifecycle operations are implemented as transitions on
//! this state, with contracts that pin down exactly which inputs succeed and
//! what the state looks like afterwards. The companion binary mirrors each
//! transition onto the running system with the command lines built by
//! [`crate::commands`].
use vstd::prelude::*;

use crate::UsersError;
use crate::boot_config::BootConfig;

verus! {

/// Outcome of checking an administrator's credentials.
#[derive(Clone, Copy, Debug, PartialEq, Eq, Structural)]
pub enum AdminLoginStatus {
    /// The user is an admin and the password authenticated.
    Success,
    /// The user is an admin but the check failed.
    Failure,
    /// The user is not a member of the admin group.
    NotAdmin,
}

/// Outcome of asking to demote an admin.
#[derive(Clone, Copy, Debug, PartialEq, Eq, Structural)]
pub enum AdminDemotion {
    /// The membership change was applied.
    Demoted,
    /// The change was refused: it would leave fewer than one admin.
    Refused,
}

/// An opaque signing key handle; the operations only ever test its presence,
/// the key material itself belongs to the unverified surroundings.
pub struct SigningKey {}

/// One account of the shadow-password database, together with its
/// admin-group membership.
pub struct UserAccount {
    /// The account name.
    pub name: String,
    /// The account's current password.
    pub password: String,
    /// Whether the account is a member of the admin group.
    pub admin: bool,
}

/// A user's home storage: the plaintext home directory, the hidden encrypted
/// backing directory, and the state of the encrypted volume inside it.
pub struct HomeDir {
    /// The owning user's name.
    pub user: String,
    /// The plaintext home directory exists.
    pub plain_dir: bool,
    /// The hidden encrypted backing directory exists.
    pub encrypted_dir: bool,
    /// The encrypted volume has been initialized inside the backing directory.
    pub initialized: bool,
    /// The encrypted volume's current password.
    pub volume_password: String,
    /// The encryption-disabled marker file exists in the backing directory.
    pub disabled_marker: bool,
    /// The volume is currently mounted over the plaintext directory.
    pub mounted: bool,
    /// Key material as reported by the encrypted-volume tool (opaque).
    pub encrypted_key: String,
    /// Salt as reported by the encrypted-volume tool (opaque).
    pub salt: String,
}

/// What the encrypted-volume tool reports about one user's volume.
pub struct EncryptionUserDetails {
    /// Whether encryption is in effect (no disabled marker).
    pub encryption_enabled: bool,
    /// Opaque key material.
    pub encrypted_key: String,
    /// Opaque salt.
    pub salt: String,
}

/// A per-user summary assembled for the presentation layer.
pub struct SystemUser {
    /// The account name.
    pub name: String,
    /// Admin-group membership.
    pub admin: bool,
    /// Whether the user's encrypted storage is in effect.
    pub encryption: bool,
    /// Opaque key material, empty when the details could not be read.
    pub encrypted_key: String,
    /// Opaque salt, empty when the details could not be read.
    pub salt: String,
}

/// The privileged state the manager acts on.
pub struct SystemState {
    /// The shadow-password database with admin-group membership.
    pub accounts: Vec<UserAccount>,
    /// Per-user home storage records.
    pub homes: Vec<HomeDir>,
    /// Whether the overlay root is currently mounted (chroot-able).
    pub overlay_mounted: bool,
    /// The persisted boot configuration.
    pub boot_config: BootConfig,
}

/// The reserved password value that signals "encryption disabled"; it is a
/// fixed constant and never secret.
pub open spec fn sentinel() -> Seq<char> {
    "encryption-disabled"@
}

/// The reserved "encryption disabled" password value.
pub fn disabled_mode_password() -> (r: String)
    ensures
        r@ == sentinel(),
{
    "encryption-disabled".to_owned()
}

impl SystemState {
    /// Account names and home records are unique per user.
    pub open spec fn wf(self) -> bool {
        &&& forall|i: int, j: int|
            0 <= i < j < self.accounts@.len() ==> (#[trigger] self.accounts@[i]).name@ != (
            #[trigger] self.accounts@[j]).name@
        &&& forall|i: int, j: int|
            0 <= i < j < self.homes@.len() ==> (#[trigger] self.homes@[i]).user@ != (
            #[trigger] self.homes@[j]).user@
    }

    /// An account with this name exists.
    pub open spec fn has_user(self, name: Seq<char>) -> bool {
        exists|i: int|
            0 <= i < self.accounts@.len() && (#[trigger] self.accounts@[i]).name@ == name
    }

    /// The index of the account with this name.
    pub open spec fn user_index(self, name: Seq<char>) -> int {
        choose|i: int|
            0 <= i < self.accounts@.len() && (#[trigger] self.accounts@[i]).name@ == name
    }

    /// This password authenticates this account.
    pub open spec fn authenticates(self, name: Seq<char>, password: Seq<char>) -> bool {
        exists|i: int|
            0 <= i < self.accounts@.len() && (#[trigger] self.accounts@[i]).name@ == name
                && self.accounts@[i].password@ == password
    }

    /// The named user is a member of the admin group.
    pub open spec fn user_admin(self, name: Seq<char>) -> bool {
        exists|i: int|
            0 <= i < self.accounts@.len() && (#[trigger] self.accounts@[i]).name@ == name
                && self.accounts@[i].admin
    }

    /// A home record for this user exists.
    pub open spec fn has_home(self, name: Seq<char>) -> bool {
        exists|i: int| 0 <= i < self.homes@.len() && (#[trigger] self.homes@[i]).user@ == name
    }

    /// The index of this user's home record.
    pub open spec fn home_index(self, name: Seq<char>) -> int {
        choose|i: int| 0 <= i < self.homes@.len() && (#[trigger] self.homes@[i]).user@ == name
    }

    /// This user's home record.
    pub open spec fn home_of(self, name: Seq<char>) -> HomeDir {
        self.homes@[self.home_index(name)]
    }

    /// This user's encrypted volume exists and is initialized.
    pub open spec fn volume_initialized(self, name: Seq<char>) -> bool {
        self.has_home(name) && self.home_of(name).initialized
    }
}

/// Number of admin accounts among the first `n` entries.
pub open spec fn admin_count_to(accounts: Seq<UserAccount>, n: int) -> nat
    decreases n,
{
    if n <= 0 {
        0
    } else {
        admin_count_to(accounts, n - 1) + (if accounts[n - 1].admin {
            1nat
        } else {
            0nat
        })
    }
}

/// Number of admin accounts.
pub open spec fn admin_count(accounts: Seq<UserAccount>) -> nat {
    admin_count_to(accounts, accounts.len() as int)
}

/// The account database after setting `user`'s password to `password`:
/// every entry is unchanged except that the matching entry carries the new
/// password.
pub open spec fn accounts_with_password(
    pre: Seq<UserAccount>,
    post: Seq<UserAccount>,
    user: Seq<char>,
    password: Seq<char>,
) -> bool {
    &&& post.len() == pre.len()
    &&& forall|i: int|
        0 <= i < pre.len() ==> {
            if pre[i].name@ == user {
                (#[trigger] post[i]).name == pre[i].name && post[i].password@ == password
                    && post[i].admin == pre[i].admin
            } else {
                post[i] == pre[i]
            }
        }
}

/// A home record with the volume password changed and the disabled marker
/// kept only when the new password is still the sentinel; everything else
/// unchanged.
pub open spec fn updated_volume_password(pre: HomeDir, post: HomeDir, password: Seq<char>) -> bool {
    &&& post.user == pre.user
    &&& post.plain_dir == pre.plain_dir
    &&& post.encrypted_dir == pre.encrypted_dir
    &&& post.initialized == pre.initialized
    &&& post.volume_password@ == password
    &&& post.disabled_marker == (pre.disabled_marker && password == sentinel())
    &&& post.mounted == pre.mounted
    &&& post.encrypted_key == pre.encrypted_key
    &&& post.salt == pre.salt
}

/// A home record after encryption was disabled: the volume password is the
/// sentinel and the disabled marker is present; everything else unchanged.
pub open spec fn disabled_home(pre: HomeDir, post: HomeDir) -> bool {
    &&& post.user == pre.user
    &&& post.plain_dir == pre.plain_dir
    &&& post.encrypted_dir == pre.encrypted_dir
    &&& post.initialized == pre.initialized
    &&& post.volume_password@ == sentinel()
    &&& post.disabled_marker
    &&& post.mounted == pre.mounted
    &&& post.encrypted_key == pre.encrypted_key
    &&& post.salt == pre.salt
}

/// The account database after setting `user`'s admin flag: every entry is
/// unchanged except that the matching entry carries the new flag.
pub open spec fn accounts_with_admin(
    pre: Seq<UserAccount>,
    post: Seq<UserAccount>,
    user: Seq<char>,
    admin: bool,
) -> bool {
    &&& post.len() == pre.len()
    &&& forall|i: int|
        0 <= i < pre.len() ==> {
            if pre[i].name@ == user {
                (#[trigger] post[i]).name == pre[i].name && post[i].password == pre[i].password
                    && post[i].admin == admin
            } else {
                post[i] == pre[i]
            }
        }
}

/// A username is valid when it contains neither `.` nor `/` (rejecting
/// path-traversal-shaped names).
pub open spec fn valid_username(name: Seq<char>) -> bool {
    !name.contains('.') && !name.contains('/')
}

/// Nothing changed between the two states.
pub open spec fn same_state(pre: SystemState, post: SystemState) -> bool {
    &&& post.accounts@ == pre.accounts@
    &&& post.homes@ == pre.homes@
    &&& post.overlay_mounted == pre.overlay_mounted
    &&& post.boot_config == pre.boot_config
}

/// The account database after creating a new account: the old entries are
/// unchanged and one entry was appended with this name, password and
/// admin-group membership.
pub open spec fn accounts_created(
    pre: Seq<UserAccount>,
    post: Seq<UserAccount>,
    user: Seq<char>,
    password: Seq<char>,
    admin: bool,
) -> bool {
    &&& post.len() == pre.len() + 1
    &&& forall|i: int| 0 <= i < pre.len() ==> post[i] == pre[i]
    &&& post[pre.len() as int].name@ == user
    &&& post[pre.len() as int].password@ == password
    &&& post[pre.len() as int].admin == admin
}

/// A freshly created home: both directories exist, the volume is
/// initialized with this password, no disabled marker, not mounted.
pub open spec fn fresh_home(post: HomeDir, user: Seq<char>, password: Seq<char>) -> bool {
    &&& post.user@ == user
    &&& post.plain_dir
    &&& post.encrypted_dir
    &&& post.initialized
    &&& post.volume_password@ == password
    &&& !post.disabled_marker
    &&& !post.mounted
}

/// A home record after the two `create_dir_all` steps: both directory
/// flags raised, everything else unchanged.
pub open spec fn dirs_ensured(pre: HomeDir, post: HomeDir) -> bool {
    &&& post.user == pre.user
    &&& post.plain_dir
    &&& post.encrypted_dir
    &&& post.initialized == pre.initialized
    &&& post.volume_password == pre.volume_password
    &&& post.disabled_marker == pre.disabled_marker
    &&& post.mounted == pre.mounted
    &&& post.encrypted_key == pre.encrypted_key
    &&& post.salt == pre.salt
}

/// A home record with only the mounted flag changed.
pub open spec fn remounted_home(pre: HomeDir, post: HomeDir, mounted: bool) -> bool {
    &&& post.user == pre.user
    &&& post.plain_dir == pre.plain_dir
    &&& post.encrypted_dir == pre.encrypted_dir
    &&& post.initialized == pre.initialized
    &&& post.volume_password == pre.volume_password
    &&& post.disabled_marker == pre.disabled_marker
    &&& post.mounted == mounted
    &&& post.encrypted_key == pre.encrypted_key
    &&& post.salt == pre.salt
}

/// A home record after its plaintext directory was removed: only that flag
/// is lowered, everything else unchanged.
pub open spec fn plain_dir_removed(pre: HomeDir, post: HomeDir) -> bool {
    &&& post.user == pre.user
    &&& !post.plain_dir
    &&& post.encrypted_dir == pre.encrypted_dir
    &&& post.initialized == pre.initialized
    &&& post.volume_password == pre.volume_password
    &&& post.disabled_marker == pre.disabled_marker
    &&& post.mounted == pre.mounted
    &&& post.encrypted_key == pre.encrypted_key
    &&& post.salt == pre.salt
}

/// A stale home record that blocks initializing a fresh encrypted volume:
/// the backing directory is not pristine.
pub open spec fn create_blocked_by_stale(s: SystemState, user: Seq<char>) -> bool {
    s.has_home(user) && (s.home_of(user).initialized || s.home_of(user).disabled_marker
        || s.home_of(user).mounted)
}

/// Names of the users whose encrypted volume is initialized, among the
/// first `n` home records, in record order.
pub open spec fn encrypted_users_to(homes: Seq<HomeDir>, n: int) -> Seq<Seq<char>>
    decreases n,
{
    if n <= 0 {
        Seq::empty()
    } else {
        encrypted_users_to(homes, n - 1) + (if homes[n - 1].initialized {
            seq![homes[n - 1].user@]
        } else {
            Seq::empty()
        })
    }
}

/// In a well-formed state, an index holding this account name is the unique
/// index the name resolves to.
pub proof fn lemma_account_index(s: SystemState, name: Seq<char>, i: int)
    requires
        s.wf(),
        0 <= i < s.accounts@.len(),
        s.accounts@[i].name@ == name,
    ensures
        s.has_user(name),
        s.user_index(name) == i,
{
    assert(s.has_user(name));
    let j = s.user_index(name);
    if i < j {
        assert(s.accounts@[i].name@ != s.accounts@[j].name@);
    } else if j < i {
        assert(s.accounts@[j].name@ != s.accounts@[i].name@);
    }
}

/// In a well-formed state, an index holding this home record's user is the
/// unique index the user resolves to.
pub proof fn lemma_home_index(s: SystemState, name: Seq<char>, i: int)
    requires
        s.wf(),
        0 <= i < s.homes@.len(),
        s.homes@[i].user@ == name,
    ensures
        s.has_home(name),
        s.home_index(name) == i,
{
    assert(s.has_home(name));
    let j = s.home_index(name);
    if i < j {
        assert(s.homes@[i].user@ != s.homes@[j].user@);
    } else if j < i {
        assert(s.homes@[j].user@ != s.homes@[i].user@);
    }
}

/// Changing the admin flag of a single entry shifts the admin count by
/// exactly the difference at that entry.
pub proof fn lemma_admin_count_update(
    pre: Seq<UserAccount>,
    post: Seq<UserAccount>,
    j: int,
    n: int,
)
    requires
        pre.len() == post.len(),
        0 <= j < pre.len(),
        n <= pre.len(),
        forall|i: int| 0 <= i < pre.len() && i != j ==> post[i].admin == pre[i].admin,
    ensures
        j < n ==> admin_count_to(post, n) + (if pre[j].admin {
            1nat
        } else {
            0nat
        }) == admin_count_to(pre, n) + (if post[j].admin {
            1nat
        } else {
            0nat
        }),
        n <= j ==> admin_count_to(post, n) == admin_count_to(pre, n),
    decreases n,
{
    if n > 0 {
        lemma_admin_count_update(pre, post, j, n - 1);
    }
}

/// String comparison by character content.
fn str_eq(a: &str, b: &str) -> (r: bool)
    ensures
        r == (a@ == b@),
{
    let owned_a: String = a.to_owned();
    let owned_b: String = b.to_owned();
    owned_a == owned_b
}

/// Whether the string contains the character.
pub fn contains_char(s: &str, c: char) -> (r: bool)
    ensures
        r == s@.contains(c),
{
    let n = s.unicode_len();
    let mut i: usize = 0;
    while i < n
        invariant
            n == s@.len(),
            i <= n,
            forall|j: int| 0 <= j < i ==> s@[j] != c,
        decreases n - i,
    {
        if s.get_char(i) == c {
            return true;
        }
        i += 1;
    }
    false
}

impl UserAccount {
    /// A field-for-field copy.
    fn duplicate(&self) -> (r: UserAccount)
        ensures
            r == *self,
    {
        UserAccount {
            name: self.name.clone(),
            password: self.password.clone(),
            admin: self.admin,
        }
    }
}

impl SystemState {
    /// An empty system: no accounts, no home records, overlay unmounted,
    /// pristine boot configuration.
    pub fn new() -> (r: SystemState)
        ensures
            r.wf(),
            r.accounts@.len() == 0,
            r.homes@.len() == 0,
            !r.overlay_mounted,
            r.boot_config.default_user is None,
            !r.boot_config.first_boot_done,
    {
        SystemState {
            accounts: Vec::new(),
            homes: Vec::new(),
            overlay_mounted: false,
            boot_config: BootConfig { default_user: None, first_boot_done: false },
        }
    }

    /// Index of the account with this name, if any.
    fn find_account(&self, name: &str) -> (r: Option<usize>)
        ensures
            match r {
                Some(i) => i < self.accounts@.len() && self.accounts@[i as int].name@ == name@,
                None => !self.has_user(name@),
            },
    {
        let n = self.accounts.len();
        let mut i: usize = 0;
        while i < n
            invariant
                n == self.accounts@.len(),
                i <= n,
                forall|j: int| 0 <= j < i ==> (#[trigger] self.accounts@[j]).name@ != name@,
            decreases n - i,
        {
            if str_eq(self.accounts[i].name.as_str(), name) {
                return Some(i);
            }
            i += 1;
        }
        None
    }

    /// Index of the home record for this user, if any.
    fn find_home(&self, name: &str) -> (r: Option<usize>)
        ensures
            match r {
                Some(i) => i < self.homes@.len() && self.homes@[i as int].user@ == name@,
                None => !self.has_home(name@),
            },
    {
        let n = self.homes.len();
        let mut i: usize = 0;
        while i < n
            invariant
                n == self.homes@.len(),
                i <= n,
                forall|j: int| 0 <= j < i ==> (#[trigger] self.homes@[j]).user@ != name@,
            decreases n - i,
        {
            if str_eq(self.homes[i].user.as_str(), name) {
                return Some(i);
            }
            i += 1;
        }
        None
    }

    /// A field-for-field copy of the shadow database, taken before a
    /// verify-only password change so it can be restored afterwards.
    fn snapshot_accounts(&self) -> (snap: Vec<UserAccount>)
        ensures
            snap@ == self.accounts@,
    {
        let n = self.accounts.len();
        let mut snap: Vec<UserAccount> = Vec::new();
        let mut i: usize = 0;
        while i < n
            invariant
                n == self.accounts@.len(),
                i <= n,
                snap@.len() == i,
                forall|j: int| 0 <= j < i ==> snap@[j] == self.accounts@[j],
            decreases n - i,
        {
            snap.push(self.accounts[i].duplicate());
            i += 1;
        }
        proof {
            assert(snap@ =~= self.accounts@);
        }
        snap
    }

    /// Change the password of a user's encrypted volume.
    ///
    /// Models one invocation of the encrypted-volume tool's password-change
    /// command: it succeeds exactly when the volume exists, is initialized,
    /// and the old password matches. When the new password is a genuinely
    /// new (non-sentinel) value and the disabled marker was present, the
    /// marker is removed, re-enabling encryption semantics.
    pub fn change_encryption_password(
        &mut self,
        user: &str,
        old_password: &str,
        new_password: &str,
    ) -> (r: Result<(), UsersError>)
        requires
            old(self).wf(),
        ensures
            final(self).wf(),
            final(self).accounts@ == old(self).accounts@,
            final(self).overlay_mounted == old(self).overlay_mounted,
            final(self).boot_config == old(self).boot_config,
            r is Ok <==> old(self).volume_initialized(user@) && old(self).home_of(
                user@,
            ).volume_password@ == old_password@,
            r is Err ==> final(self).homes@ == old(self).homes@ && r == Err::<
                (),
                UsersError,
            >(UsersError::StorageError),
            r is Ok ==> {
                &&& final(self).homes@.len() == old(self).homes@.len()
                &&& forall|i: int|
                    0 <= i < old(self).homes@.len() ==> {
                        if old(self).homes@[i].user@ == user@ {
                            updated_volume_password(
                                old(self).homes@[i],
                                #[trigger] final(self).homes@[i],
                                new_password@,
                            )
                        } else {
                            final(self).homes@[i] == old(self).homes@[i]
                        }
                    }
                &&& final(self).has_home(user@)
                &&& updated_volume_password(
                    old(self).home_of(user@),
                    final(self).home_of(user@),
                    new_password@,
                )
            },
    {
        let idx = match self.find_home(user) {
            Some(i) => i,
            None => {
                return Err(UsersError::StorageError);
            },
        };
        proof {
            lemma_home_index(*self, user@, idx as int);
        }
        if !self.homes[idx].initialized {
            return Err(UsersError::StorageError);
        }
        if !str_eq(self.homes[idx].volume_password.as_str(), old_password) {
            return Err(UsersError::StorageError);
        }
        self.homes[idx].volume_password = new_password.to_owned();
        let keeps_sentinel = str_eq(new_password, disabled_mode_password().as_str());
        if !keeps_sentinel && self.homes[idx].disabled_marker {
            self.homes[idx].disabled_marker = false;
        }
        proof {
            lemma_home_index(*self, user@, idx as int);
        }
        Ok(())
    }

    /// Disable encryption for a user: set the volume password to the
    /// reserved sentinel value, then create the disabled-marker file.
    ///
    /// The underlying ciphertext is retained; "disabled" is a restorable
    /// state, not a destructive one.
    pub fn disable_encryption(&mut self, user: &str, password: &str) -> (r: Result<
        (),
        UsersError,
    >)
        requires
            old(self).wf(),
        ensures
            final(self).wf(),
            final(self).accounts@ == old(self).accounts@,
            final(self).overlay_mounted == old(self).overlay_mounted,
            final(self).boot_config == old(self).boot_config,
            r is Ok <==> old(self).volume_initialized(user@) && old(self).home_of(
                user@,
            ).volume_password@ == password@,
            r is Err ==> final(self).homes@ == old(self).homes@ && r == Err::<
                (),
                UsersError,
            >(UsersError::StorageError),
            r is Ok ==> {
                &&& final(self).homes@.len() == old(self).homes@.len()
                &&& forall|i: int|
                    0 <= i < old(self).homes@.len() ==> {
                        if old(self).homes@[i].user@ == user@ {
                            disabled_home(old(self).homes@[i], #[trigger] final(self).homes@[i])
                        } else {
                            final(self).homes@[i] == old(self).homes@[i]
                        }
                    }
                &&& final(self).has_home(user@)
                &&& disabled_home(old(self).home_of(user@), final(self).home_of(user@))
            },
    {
        let sentinel_password = disabled_mode_password();
        match self.change_encryption_password(user, password, sentinel_password.as_str()) {
            Ok(()) => {},
            Err(e) => {
                return Err(e);
            },
        }
        match self.find_home(user) {
            Some(idx) => {
                proof {
                    lemma_home_index(*self, user@, idx as int);
                }
                self.homes[idx].disabled_marker = true;
                proof {
                    lemma_home_index(*self, user@, idx as int);
                }
                Ok(())
            },
            None => {
                // The password change above succeeded, so the home record
                // exists; this branch is unreachable.
                proof {
                    let j = old(self).home_index(user@);
                    assert(self.homes@[j].user@ == user@);
                    assert(self.has_home(user@));
                }
                Err(UsersError::StorageError)
            },
        }
    }

    /// The encrypted-volume tool's per-user report: whether encryption is in
    /// effect (no disabled marker) and the stored key material.
    pub fn get_encryption_user_details(&self, user: &str) -> (r: Result<
        EncryptionUserDetails,
        UsersError,
    >)
        requires
            self.wf(),
        ensures
            r is Ok <==> self.volume_initialized(user@),
            r matches Ok(d) ==> {
                &&& d.encryption_enabled == !self.home_of(user@).disabled_marker
                &&& d.encrypted_key@ == self.home_of(user@).encrypted_key@
                &&& d.salt@ == self.home_of(user@).salt@
            },
            r is Err ==> r == Err::<EncryptionUserDetails, UsersError>(UsersError::StorageError),
    {
        match self.find_home(user) {
            Some(idx) => {
                proof {
                    lemma_home_index(*self, user@, idx as int);
                }
                if self.homes[idx].initialized {
                    Ok(
                        EncryptionUserDetails {
                            encryption_enabled: !self.homes[idx].disabled_marker,
                            encrypted_key: self.homes[idx].encrypted_key.clone(),
                            salt: self.homes[idx].salt.clone(),
                        },
                    )
                } else {
                    Err(UsersError::StorageError)
                }
            },
            None => Err(UsersError::StorageError),
        }
    }

    /// The users whose encrypted storage is initialized, in record order.
    pub fn get_users(&self) -> (r: Vec<String>)
        ensures
            r.deep_view() == encrypted_users_to(self.homes@, self.homes@.len() as int),
    {
        let n = self.homes.len();
        let mut r: Vec<String> = Vec::new();
        let mut i: usize = 0;
        while i < n
            invariant
                n == self.homes@.len(),
                i <= n,
                r.deep_view() == encrypted_users_to(self.homes@, i as int),
            decreases n - i,
        {
            let ghost prev = r.deep_view();
            if self.homes[i].initialized {
                r.push(self.homes[i].user.clone());
                proof {
                    assert(r.deep_view() =~= prev + seq![self.homes@[i as int].user@]);
                }
            } else {
                proof {
                    assert(r.deep_view() =~= prev + Seq::<Seq<char>>::empty());
                }
            }
            i += 1;
        }
        r
    }

    /// Assemble the per-user summary shown by the presentation layer.
    /// When the encrypted-volume tool cannot report details (no initialized
    /// volume), encryption defaults to "off" with empty key material; the
    /// admin flag is looked up either way.
    pub fn get_user_details(&self, user: &str) -> (r: SystemUser)
        requires
            self.wf(),
        ensures
            r.name@ == user@,
            r.admin == (self.overlay_mounted && self.user_admin(user@)),
            self.volume_initialized(user@) ==> {
                &&& r.encryption == !self.home_of(user@).disabled_marker
                &&& r.encrypted_key@ == self.home_of(user@).encrypted_key@
                &&& r.salt@ == self.home_of(user@).salt@
            },
            !self.volume_initialized(user@) ==> !r.encryption && r.encrypted_key@ == Seq::<
                char,
            >::empty() && r.salt@ == Seq::<char>::empty(),
    {
        let admin = self.is_admin(user);
        match self.get_encryption_user_details(user) {
            Ok(details) => SystemUser {
                name: user.to_owned(),
                admin,
                encryption: details.encryption_enabled,
                encrypted_key: details.encrypted_key,
                salt: details.salt,
            },
            Err(_) => SystemUser {
                name: user.to_owned(),
                admin,
                encryption: false,
                encrypted_key: String::new(),
                salt: String::new(),
            },
        }
    }

    /// Admin-group membership test; an execution failure (overlay root not
    /// chroot-able) is treated as "not admin", failing closed.
    pub fn is_admin(&self, user: &str) -> (r: bool)
        requires
            self.wf(),
        ensures
            r == (self.overlay_mounted && self.user_admin(user@)),
    {
        if !self.overlay_mounted {
            return false;
        }
        match self.find_account(user) {
            Some(i) => {
                proof {
                    lemma_account_index(*self, user@, i as int);
                }
                self.accounts[i].admin
            },
            None => false,
        }
    }

    /// Count the members of the admin group; fails when the overlay root is
    /// not chroot-able.
    pub fn count_admin_users(&self) -> (r: Result<usize, UsersError>)
        ensures
            self.overlay_mounted ==> (r matches Ok(c) && c == admin_count(self.accounts@)),
            !self.overlay_mounted ==> r == Err::<usize, UsersError>(UsersError::ExecutionFailed),
    {
        if !self.overlay_mounted {
            return Err(UsersError::ExecutionFailed);
        }
        let n = self.accounts.len();
        let mut count: usize = 0;
        let mut i: usize = 0;
        while i < n
            invariant
                n == self.accounts@.len(),
                i <= n,
                count <= i,
                count == admin_count_to(self.accounts@, i as int),
            decreases n - i,
        {
            if self.accounts[i].admin {
                count += 1;
            }
            i += 1;
        }
        Ok(count)
    }

    /// Add the user to or remove the user from the admin group.
    pub fn change_admin_status(&mut self, user: &str, admin: bool) -> (r: Result<(), UsersError>)
        requires
            old(self).wf(),
        ensures
            final(self).wf(),
            final(self).homes@ == old(self).homes@,
            final(self).overlay_mounted == old(self).overlay_mounted,
            final(self).boot_config == old(self).boot_config,
            r is Ok <==> old(self).overlay_mounted && old(self).has_user(user@),
            r is Err ==> final(self).accounts@ == old(self).accounts@ && r == Err::<
                (),
                UsersError,
            >(UsersError::ExecutionFailed),
            r is Ok ==> accounts_with_admin(old(self).accounts@, final(self).accounts@, user@, admin),
    {
        if !self.overlay_mounted {
            return Err(UsersError::ExecutionFailed);
        }
        match self.find_account(user) {
            Some(i) => {
                proof {
                    lemma_account_index(*self, user@, i as int);
                }
                self.accounts[i].admin = admin;
                Ok(())
            },
            None => Err(UsersError::ExecutionFailed),
        }
    }

    /// Promote the user to the admin group.
    pub fn make_admin(&mut self, user: &str) -> (r: Result<(), UsersError>)
        requires
            old(self).wf(),
        ensures
            final(self).wf(),
            final(self).homes@ == old(self).homes@,
            final(self).overlay_mounted == old(self).overlay_mounted,
            final(self).boot_config == old(self).boot_config,
            r is Ok <==> old(self).overlay_mounted && old(self).has_user(user@),
            r is Err ==> final(self).accounts@ == old(self).accounts@ && r == Err::<
                (),
                UsersError,
            >(UsersError::ExecutionFailed),
            r is Ok ==> accounts_with_admin(old(self).accounts@, final(self).accounts@, user@, true),
    {
        self.change_admin_status(user, true)
    }

    /// Demote the user from the admin group, refusing the change when it
    /// would leave fewer than one admin: the demotion is only executed when
    /// at least two admins exist beforehand.
    pub fn remove_admin(&mut self, user: &str) -> (r: Result<AdminDemotion, UsersError>)
        requires
            old(self).wf(),
        ensures
            final(self).wf(),
            final(self).homes@ == old(self).homes@,
            final(self).overlay_mounted == old(self).overlay_mounted,
            final(self).boot_config == old(self).boot_config,
            r is Err ==> final(self).accounts@ == old(self).accounts@ && r == Err::<
                AdminDemotion,
                UsersError,
            >(UsersError::ExecutionFailed),
            r is Err <==> !old(self).overlay_mounted || (admin_count(old(self).accounts@) >= 2
                && !old(self).has_user(user@)),
            r == Ok::<AdminDemotion, UsersError>(AdminDemotion::Refused) <==> old(
                self,
            ).overlay_mounted && admin_count(old(self).accounts@) < 2,
            r == Ok::<AdminDemotion, UsersError>(AdminDemotion::Refused) ==> final(self).accounts@
                == old(self).accounts@,
            r == Ok::<AdminDemotion, UsersError>(AdminDemotion::Demoted) <==> old(
                self,
            ).overlay_mounted && admin_count(old(self).accounts@) >= 2 && old(self).has_user(user@),
            r == Ok::<AdminDemotion, UsersError>(AdminDemotion::Demoted) ==> accounts_with_admin(
                old(self).accounts@,
                final(self).accounts@,
                user@,
                false,
            ) && admin_count(final(self).accounts@) + (if old(self).user_admin(user@) {
                1nat
            } else {
                0nat
            }) == admin_count(old(self).accounts@),
    {
        let count = match self.count_admin_users() {
            Ok(c) => c,
            Err(e) => {
                return Err(e);
            },
        };
        if !sufficient_number_of_admin_users_remaining(count) {
            return Ok(AdminDemotion::Refused);
        }
        match self.change_admin_status(user, false) {
            Ok(()) => {
                proof {
                    let pre = old(self).accounts@;
                    let post = self.accounts@;
                    let j = old(self).user_index(user@);
                    assert(0 <= j < pre.len() && pre[j].name@ == user@) by {
                        let k = choose|k: int|
                            0 <= k < pre.len() && (#[trigger] pre[k]).name@ == user@;
                        lemma_account_index(*old(self), user@, k);
                    }
                    assert forall|i: int|
                        0 <= i < pre.len() && i != j implies post[i].admin == pre[i].admin by {
                        if pre[i].name@ == user@ {
                            lemma_account_index(*old(self), user@, i);
                        }
                    }
                    lemma_admin_count_update(pre, post, j, pre.len() as int);
                    if old(self).user_admin(user@) {
                        let k = choose|k: int|
                            0 <= k < pre.len() && (#[trigger] pre[k]).name@ == user@ && pre[k].admin;
                        lemma_account_index(*old(self), user@, k);
                    }
                }
                Ok(AdminDemotion::Demoted)
            },
            Err(e) => Err(e),
        }
    }

    /// Phase A of the password-change protocol: inside the chroot,
    /// authenticate as the target user with the claimed old password and set
    /// the password to `new_password`. Models the interactive password tool
    /// run under `su` as the target user: it succeeds exactly when the
    /// overlay root is chroot-able and the claimed old password is the
    /// account's current one.
    fn run_passwd_authenticated(
        &mut self,
        user: &str,
        old_password: &str,
        new_password: &str,
    ) -> (r: Result<(), UsersError>)
        requires
            old(self).wf(),
        ensures
            final(self).wf(),
            final(self).homes@ == old(self).homes@,
            final(self).overlay_mounted == old(self).overlay_mounted,
            final(self).boot_config == old(self).boot_config,
            r is Ok <==> old(self).overlay_mounted && old(self).authenticates(
                user@,
                old_password@,
            ),
            r is Err ==> final(self).accounts@ == old(self).accounts@,
            r is Err && old(self).overlay_mounted ==> r == Err::<
                (),
                UsersError,
            >(UsersError::AuthorizationFailed),
            r is Err && !old(self).overlay_mounted ==> r == Err::<
                (),
                UsersError,
            >(UsersError::ExecutionFailed),
            r is Ok ==> accounts_with_password(
                old(self).accounts@,
                final(self).accounts@,
                user@,
                new_password@,
            ),
    {
        if !self.overlay_mounted {
            return Err(UsersError::ExecutionFailed);
        }
        match self.find_account(user) {
            Some(i) => {
                proof {
                    lemma_account_index(*self, user@, i as int);
                }
                if str_eq(self.accounts[i].password.as_str(), old_password) {
                    self.accounts[i].password = new_password.to_owned();
                    Ok(())
                } else {
                    proof {
                        if self.authenticates(user@, old_password@) {
                            let k = choose|k: int|
                                0 <= k < self.accounts@.len() && (#[trigger] self.accounts@[k]).name@
                                    == user@ && self.accounts@[k].password@ == old_password@;
                            lemma_account_index(*self, user@, k);
                        }
                    }
                    Err(UsersError::AuthorizationFailed)
                }
            },
            None => Err(UsersError::AuthorizationFailed),
        }
    }

    /// Phase B of the password-change protocol: inside the chroot, set the
    /// user's password as a privileged actor, with no authentication.
    /// Models the non-interactive password tool run as root: it succeeds
    /// exactly when the overlay root is chroot-able and the account exists.
    fn run_passwd_root(&mut self, user: &str, new_password: &str) -> (r: Result<(), UsersError>)
        requires
            old(self).wf(),
        ensures
            final(self).wf(),
            final(self).homes@ == old(self).homes@,
            final(self).overlay_mounted == old(self).overlay_mounted,
            final(self).boot_config == old(self).boot_config,
            r is Ok <==> old(self).overlay_mounted && old(self).has_user(user@),
            r is Err ==> final(self).accounts@ == old(self).accounts@ && r == Err::<
                (),
                UsersError,
            >(UsersError::ExecutionFailed),
            r is Ok ==> accounts_with_password(
                old(self).accounts@,
                final(self).accounts@,
                user@,
                new_password@,
            ),
    {
        if !self.overlay_mounted {
            return Err(UsersError::ExecutionFailed);
        }
        match self.find_account(user) {
            Some(i) => {
                proof {
                    lemma_account_index(*self, user@, i as int);
                }
                self.accounts[i].password = new_password.to_owned();
                Ok(())
            },
            None => Err(UsersError::ExecutionFailed),
        }
    }

    /// Change a user's password through the two-phase protocol, or, when no
    /// new password is supplied ("verify-only" mode), check the old password
    /// while leaving the shadow database byte-identical.
    ///
    /// When the overlay root is not mounted, a signing key is required to
    /// establish it; the mount is torn down afterwards exactly when this
    /// call established it, so the overlay mount state is always left as it
    /// was found. Phase A authenticates with the claimed old password while
    /// setting the freshly generated temporary password; phase B then
    /// commits the requested new value (or the original one in verify-only
    /// mode) as a privileged actor. In verify-only mode the shadow database
    /// is snapshotted before phase A and restored afterwards, success or
    /// failure. The caller supplies the temporary password because its
    /// generation is a source of outside randomness.
    pub fn change_user_password(
        &mut self,
        pubkey: Option<&SigningKey>,
        user: &str,
        old_password: &str,
        new_password: Option<&str>,
        temporary_password: &str,
    ) -> (r: Result<(), UsersError>)
        requires
            old(self).wf(),
        ensures
            final(self).wf(),
            final(self).homes@ == old(self).homes@,
            final(self).overlay_mounted == old(self).overlay_mounted,
            final(self).boot_config == old(self).boot_config,
            r == Err::<(), UsersError>(UsersError::MissingSigningKey) <==> !old(
                self,
            ).overlay_mounted && pubkey is None,
            r == Err::<(), UsersError>(UsersError::AuthorizationFailed) <==> (old(
                self,
            ).overlay_mounted || pubkey is Some) && !old(self).authenticates(user@, old_password@),
            r is Ok <==> (old(self).overlay_mounted || pubkey is Some) && old(self).authenticates(
                user@,
                old_password@,
            ),
            r is Err ==> final(self).accounts@ == old(self).accounts@,
            r is Ok ==> match new_password {
                Some(np) => accounts_with_password(
                    old(self).accounts@,
                    final(self).accounts@,
                    user@,
                    np@,
                ),
                None => final(self).accounts@ == old(self).accounts@,
            },
    {
        let originated_mount: bool;
        if !self.overlay_mounted {
            if pubkey.is_none() {
                return Err(UsersError::MissingSigningKey);
            }
            // Establish the overlay root (verification mode on); this call
            // now owns the mount and must tear it down on every exit path.
            self.overlay_mounted = true;
            originated_mount = true;
        } else {
            originated_mount = false;
        }

        // Verify-only mode: snapshot the shadow database so it can be
        // restored byte-identical, whether or not the phases succeed.
        let shadow_backup: Option<Vec<UserAccount>> = match new_password {
            None => Some(self.snapshot_accounts()),
            Some(_) => None,
        };
        let committed_password: &str = match new_password {
            Some(p) => p,
            None => old_password,
        };

        let mut failure: Option<UsersError> = None;
        match self.run_passwd_authenticated(user, old_password, temporary_password) {
            Ok(()) => {
                proof {
                    let k = choose|k: int|
                        0 <= k < old(self).accounts@.len() && (#[trigger] old(self).accounts@[k]).name@
                            == user@ && old(self).accounts@[k].password@ == old_password@;
                    assert(self.accounts@[k].name@ == user@);
                }
                match self.run_passwd_root(user, committed_password) {
                    Ok(()) => {},
                    Err(e) => {
                        failure = Some(e);
                    },
                }
            },
            Err(e) => {
                failure = Some(e);
            },
        }

        if let Some(backup) = shadow_backup {
            self.accounts = backup;
        }
        if originated_mount {
            self.overlay_mounted = false;
        }
        match failure {
            Some(e) => Err(e),
            None => Ok(()),
        }
    }

    /// Check an administrator's credentials without changing any system
    /// state: a non-admin is reported at once, with no password check; for
    /// an admin the password-change protocol runs in verify-only mode, so
    /// the shadow database is left exactly as it was, success or failure.
    pub fn admin_login_verify(&mut self, username: &str, password: &str, temporary_password: &str)
        -> (r: AdminLoginStatus)
        requires
            old(self).wf(),
        ensures
            final(self).wf(),
            final(self).accounts@ == old(self).accounts@,
            final(self).homes@ == old(self).homes@,
            final(self).overlay_mounted == old(self).overlay_mounted,
            final(self).boot_config == old(self).boot_config,
            r == AdminLoginStatus::NotAdmin <==> !(old(self).overlay_mounted && old(
                self,
            ).user_admin(username@)),
            r == AdminLoginStatus::Success <==> old(self).overlay_mounted && old(self).user_admin(
                username@,
            ) && old(self).authenticates(username@, password@),
            r == AdminLoginStatus::Failure <==> old(self).overlay_mounted && old(self).user_admin(
                username@,
            ) && !old(self).authenticates(username@, password@),
    {
        if !self.is_admin(username) {
            return AdminLoginStatus::NotAdmin;
        }
        match self.change_user_password(None, username, password, None, temporary_password) {
            Ok(()) => AdminLoginStatus::Success,
            Err(_) => AdminLoginStatus::Failure,
        }
    }

    /// Mount a user's encrypted volume over the plaintext home directory.
    /// Models the encrypted-volume tool's mount command: it succeeds exactly
    /// when the volume is initialized, the password matches, and the volume
    /// is not already mounted.
    pub fn mount_storage(&mut self, user: &str, password: &str) -> (r: Result<(), UsersError>)
        requires
            old(self).wf(),
        ensures
            final(self).wf(),
            final(self).accounts@ == old(self).accounts@,
            final(self).overlay_mounted == old(self).overlay_mounted,
            final(self).boot_config == old(self).boot_config,
            r is Ok <==> old(self).volume_initialized(user@) && old(self).home_of(
                user@,
            ).volume_password@ == password@ && !old(self).home_of(user@).mounted,
            r is Err ==> final(self).homes@ == old(self).homes@ && r == Err::<
                (),
                UsersError,
            >(UsersError::StorageError),
            r is Ok ==> final(self).homes@.len() == old(self).homes@.len() && (forall|i: int|
                0 <= i < old(self).homes@.len() ==> {
                    if old(self).homes@[i].user@ == user@ {
                        remounted_home(old(self).homes@[i], #[trigger] final(self).homes@[i], true)
                    } else {
                        final(self).homes@[i] == old(self).homes@[i]
                    }
                }) && final(self).has_home(user@) && remounted_home(
                old(self).home_of(user@),
                final(self).home_of(user@),
                true,
            ),
    {
        match self.find_home(user) {
            Some(idx) => {
                proof {
                    lemma_home_index(*self, user@, idx as int);
                }
                if !self.homes[idx].initialized {
                    return Err(UsersError::StorageError);
                }
                if !str_eq(self.homes[idx].volume_password.as_str(), password) {
                    return Err(UsersError::StorageError);
                }
                if self.homes[idx].mounted {
                    return Err(UsersError::StorageError);
                }
                self.homes[idx].mounted = true;
                proof {
                    lemma_home_index(*self, user@, idx as int);
                }
                Ok(())
            },
            None => Err(UsersError::StorageError),
        }
    }

    /// Unmount a user's encrypted volume. Models the encrypted-volume
    /// tool's unmount command: it succeeds exactly when the volume is
    /// currently mounted.
    pub fn unmount_storage(&mut self, user: &str) -> (r: Result<(), UsersError>)
        requires
            old(self).wf(),
        ensures
            final(self).wf(),
            final(self).accounts@ == old(self).accounts@,
            final(self).overlay_mounted == old(self).overlay_mounted,
            final(self).boot_config == old(self).boot_config,
            r is Ok <==> old(self).has_home(user@) && old(self).home_of(user@).mounted,
            r is Err ==> final(self).homes@ == old(self).homes@ && r == Err::<
                (),
                UsersError,
            >(UsersError::StorageError),
            r is Ok ==> final(self).homes@.len() == old(self).homes@.len() && (forall|i: int|
                0 <= i < old(self).homes@.len() ==> {
                    if old(self).homes@[i].user@ == user@ {
                        remounted_home(old(self).homes@[i], #[trigger] final(self).homes@[i], false)
                    } else {
                        final(self).homes@[i] == old(self).homes@[i]
                    }
                }) && final(self).has_home(user@) && remounted_home(
                old(self).home_of(user@),
                final(self).home_of(user@),
                false,
            ),
    {
        match self.find_home(user) {
            Some(idx) => {
                proof {
                    lemma_home_index(*self, user@, idx as int);
                }
                if !self.homes[idx].mounted {
                    return Err(UsersError::StorageError);
                }
                self.homes[idx].mounted = false;
                proof {
                    lemma_home_index(*self, user@, idx as int);
                }
                Ok(())
            },
            None => Err(UsersError::StorageError),
        }
    }

    /// Create a user account with its encrypted home storage.
    ///
    /// The username is validated first (neither `.` nor `/`); nothing is
    /// mutated on a validation failure. Then, inside the chroot: the
    /// account is created with its admin-group membership, its initial
    /// password is set (privileged, no old password: the fresh account has
    /// none), both home directories are created, the encrypted volume is
    /// initialized with the chosen password and mounted transiently so the
    /// skeleton files can be seeded and handed to the new account, then
    /// unmounted — the volume is not left mounted after creation. On
    /// request the account is recorded as the default login user. A step
    /// that fails aborts the remaining steps, leaving the earlier steps'
    /// state behind.
    pub fn create(&mut self, username: &str, password: &str, admin: bool, make_default: bool) -> (r:
        Result<(), UsersError>)
        requires
            old(self).wf(),
        ensures
            final(self).wf(),
            final(self).overlay_mounted == old(self).overlay_mounted,
            r == Err::<(), UsersError>(UsersError::ForbiddenUsername) <==> !valid_username(
                username@,
            ),
            r == Err::<(), UsersError>(UsersError::ForbiddenUsername) ==> same_state(
                *old(self),
                *final(self),
            ),
            valid_username(username@) && !old(self).overlay_mounted ==> r == Err::<
                (),
                UsersError,
            >(UsersError::ExecutionFailed) && same_state(*old(self), *final(self)),
            valid_username(username@) && old(self).overlay_mounted && old(self).has_user(username@)
                ==> r == Err::<(), UsersError>(UsersError::ExecutionFailed) && same_state(
                *old(self),
                *final(self),
            ),
            r == Err::<(), UsersError>(UsersError::StorageError) <==> valid_username(username@)
                && old(self).overlay_mounted && !old(self).has_user(username@)
                && create_blocked_by_stale(*old(self), username@),
            r is Ok <==> valid_username(username@) && old(self).overlay_mounted && !old(
                self,
            ).has_user(username@) && !create_blocked_by_stale(*old(self), username@),
            r == Err::<(), UsersError>(UsersError::StorageError) || r is Ok ==> accounts_created(
                old(self).accounts@,
                final(self).accounts@,
                username@,
                password@,
                admin,
            ),
            r == Err::<(), UsersError>(UsersError::StorageError) ==> final(self).homes@.len() == old(
                self,
            ).homes@.len() && final(self).boot_config == old(self).boot_config && forall|i: int|
                0 <= i < old(self).homes@.len() ==> {
                    if old(self).homes@[i].user@ == username@ {
                        dirs_ensured(old(self).homes@[i], #[trigger] final(self).homes@[i])
                    } else {
                        final(self).homes@[i] == old(self).homes@[i]
                    }
                },
            r is Ok && old(self).has_home(username@) ==> final(self).homes@.len() == old(
                self,
            ).homes@.len() && forall|i: int|
                0 <= i < old(self).homes@.len() ==> {
                    if old(self).homes@[i].user@ == username@ {
                        fresh_home(#[trigger] final(self).homes@[i], username@, password@)
                    } else {
                        final(self).homes@[i] == old(self).homes@[i]
                    }
                },
            r is Ok && !old(self).has_home(username@) ==> final(self).homes@.len() == old(
                self,
            ).homes@.len() + 1 && (forall|i: int|
                0 <= i < old(self).homes@.len() ==> #[trigger] final(self).homes@[i] == old(
                    self,
                ).homes@[i]) && fresh_home(
                final(self).homes@[old(self).homes@.len() as int],
                username@,
                password@,
            ),
            r is Ok ==> {
                &&& final(self).has_user(username@)
                &&& final(self).authenticates(username@, password@)
                &&& final(self).user_admin(username@) == admin
                &&& final(self).has_home(username@)
                &&& fresh_home(final(self).home_of(username@), username@, password@)
            },
            r is Ok && make_default ==> (final(self).boot_config.default_user matches Some(u) && u@
                == username@) && final(self).boot_config.first_boot_done == old(
                self,
            ).boot_config.first_boot_done,
            !(r is Ok && make_default) ==> final(self).boot_config == old(self).boot_config,
    {
        if contains_char(username, '.') || contains_char(username, '/') {
            return Err(UsersError::ForbiddenUsername);
        }

        // useradd -M [-G admin-group] inside the chroot: fails when the
        // overlay root is not chroot-able or the account already exists.
        if !self.overlay_mounted {
            return Err(UsersError::ExecutionFailed);
        }
        match self.find_account(username) {
            Some(_) => {
                return Err(UsersError::ExecutionFailed);
            },
            None => {},
        }
        self.accounts.push(
            UserAccount { name: username.to_owned(), password: String::new(), admin },
        );
        let ghost s_added = *self;
        proof {
            assert(s_added.wf());
            assert(s_added.has_user(username@)) by {
                assert(s_added.accounts@[s_added.accounts@.len() - 1].name@ == username@);
            }
        }

        // Set the new account's initial password: phase-B only, since the
        // fresh account has no password to authenticate with.
        match self.run_passwd_root(username, password) {
            Ok(()) => {},
            Err(e) => {
                // Unreachable: the overlay is chroot-able and the account
                // was just created.
                return Err(e);
            },
        }
        let ghost s_passwd = *self;
        proof {
            assert(accounts_created(
                old(self).accounts@,
                s_passwd.accounts@,
                username@,
                password@,
                admin,
            )) by {
                assert forall|i: int|
                    0 <= i < old(self).accounts@.len() implies s_passwd.accounts@[i] == old(
                    self,
                ).accounts@[i] by {
                    assert(s_added.accounts@[i] == old(self).accounts@[i]);
                    assert(s_added.accounts@[i].name@ != username@);
                }
                assert(s_added.accounts@[s_added.accounts@.len() - 1].name@ == username@);
            }
        }

        // fs::create_dir_all for the hidden encrypted backing directory and
        // the plaintext home directory (idempotent on existing paths).
        let home_idx: usize;
        match self.find_home(username) {
            Some(i) => {
                proof {
                    lemma_home_index(*self, username@, i as int);
                }
                self.homes[i].encrypted_dir = true;
                self.homes[i].plain_dir = true;
                home_idx = i;
            },
            None => {
                self.homes.push(
                    HomeDir {
                        user: username.to_owned(),
                        plain_dir: true,
                        encrypted_dir: true,
                        initialized: false,
                        volume_password: String::new(),
                        disabled_marker: false,
                        mounted: false,
                        encrypted_key: String::new(),
                        salt: String::new(),
                    },
                );
                home_idx = self.homes.len() - 1;
            },
        }
        let ghost s_dirs = *self;
        proof {
            assert(s_dirs.wf());
            assert(s_dirs.homes@[home_idx as int].user@ == username@);
            lemma_home_index(s_dirs, username@, home_idx as int);
        }

        // Initialize the encrypted volume with the chosen password (fed
        // twice, emulating the confirmation prompt); the tool demands a
        // pristine backing directory.
        if self.homes[home_idx].initialized || self.homes[home_idx].disabled_marker
            || self.homes[home_idx].mounted {
            return Err(UsersError::StorageError);
        }
        self.homes[home_idx].initialized = true;
        self.homes[home_idx].volume_password = password.to_owned();
        let ghost s_init = *self;
        proof {
            assert(s_init.wf());
            lemma_home_index(s_init, username@, home_idx as int);
        }

        // Mount the fresh volume so the new home can be seeded.
        match self.mount_storage(username, password) {
            Ok(()) => {},
            Err(e) => {
                // Unreachable: the volume was just initialized with this
                // password and is not mounted.
                return Err(e);
            },
        }
        let ghost s_mounted = *self;
        proof {
            assert(s_mounted.homes@[home_idx as int].user@ == username@);
            lemma_home_index(s_mounted, username@, home_idx as int);
        }

        // Copy the skeleton dotfiles from the base system into the new home
        // and hand the whole home to the new account (chroot `cp` and
        // `chown -R`); their effect on file contents is below the model's
        // granularity.

        // Unmount: the volume is not left mounted after creation.
        match self.unmount_storage(username) {
            Ok(()) => {},
            Err(e) => {
                // Unreachable: the volume was just mounted.
                return Err(e);
            },
        }
        proof {
            assert(self.homes@[home_idx as int].user@ == username@);
            assert(fresh_home(self.homes@[home_idx as int], username@, password@));
            if old(self).has_home(username@) {
                let j = old(self).home_index(username@);
                assert(old(self).homes@[j].user@ == username@);
                assert(j == home_idx as int);
                assert forall|i: int|
                    0 <= i < old(self).homes@.len() && old(self).homes@[i].user@ != username@
                    implies self.homes@[i] == old(self).homes@[i] by {
                    assert(s_dirs.homes@[i] == old(self).homes@[i]);
                    assert(s_init.homes@[i] == s_dirs.homes@[i]);
                    assert(s_mounted.homes@[i] == s_init.homes@[i]);
                }
            } else {
                assert(home_idx as int == old(self).homes@.len());
                assert forall|i: int| 0 <= i < old(self).homes@.len() implies self.homes@[i] == old(
                    self,
                ).homes@[i] by {
                    assert(s_dirs.homes@[i] == old(self).homes@[i]);
                    assert(s_dirs.homes@[i].user@ != username@);
                    assert(s_init.homes@[i] == s_dirs.homes@[i]);
                    assert(s_mounted.homes@[i] == s_init.homes@[i]);
                }
            }
        }

        // Record the new account as the default login user on request.
        if make_default {
            crate::boot_config::set_default_user(username, &mut self.boot_config);
        }
        proof {
            lemma_home_index(*self, username@, home_idx as int);
            let last = old(self).accounts@.len() as int;
            assert(self.accounts@[last].name@ == username@);
            assert(self.accounts@[last].password@ == password@);
            assert(self.accounts@[last].admin == admin);
            lemma_account_index(*self, username@, last);
            assert(self.authenticates(username@, password@));
            if self.user_admin(username@) {
                let k = choose|k: int|
                    0 <= k < self.accounts@.len() && (#[trigger] self.accounts@[k]).name@
                        == username@ && self.accounts@[k].admin;
                lemma_account_index(*self, username@, k);
            }
        }
        Ok(())
    }

    /// Delete a user account and its home storage.
    ///
    /// An empty username is rejected with no mutation. Both home
    /// directories are removed before the account itself — the account
    /// removal also attempts home cleanup, and must not race with the
    /// explicit directory removal. Removing the plaintext home fails while
    /// the encrypted volume is still mounted over it. No minimum-admin
    /// check applies to deletion, and a stale default login user is left in
    /// the boot configuration.
    pub fn delete(&mut self, user: &str) -> (r: Result<(), UsersError>)
        requires
            old(self).wf(),
        ensures
            final(self).wf(),
            final(self).overlay_mounted == old(self).overlay_mounted,
            final(self).boot_config == old(self).boot_config,
            r == Err::<(), UsersError>(UsersError::MissingUsername) <==> user@.len() == 0,
            r == Err::<(), UsersError>(UsersError::MissingUsername) ==> same_state(
                *old(self),
                *final(self),
            ),
            user@.len() > 0 && !(old(self).has_home(user@) && old(self).home_of(user@).plain_dir
                && !old(self).home_of(user@).mounted) ==> r == Err::<
                (),
                UsersError,
            >(UsersError::IoError) && same_state(*old(self), *final(self)),
            user@.len() > 0 && old(self).has_home(user@) && old(self).home_of(user@).plain_dir
                && !old(self).home_of(user@).mounted && !old(self).home_of(user@).encrypted_dir
                ==> r == Err::<(), UsersError>(UsersError::IoError) && final(self).accounts@ == old(
                self,
            ).accounts@ && final(self).homes@.len() == old(self).homes@.len() && forall|i: int|
                0 <= i < old(self).homes@.len() ==> {
                    if old(self).homes@[i].user@ == user@ {
                        plain_dir_removed(old(self).homes@[i], #[trigger] final(self).homes@[i])
                    } else {
                        final(self).homes@[i] == old(self).homes@[i]
                    }
                },
            user@.len() > 0 && old(self).has_home(user@) && old(self).home_of(user@).plain_dir
                && !old(self).home_of(user@).mounted && old(self).home_of(user@).encrypted_dir ==> {
                &&& final(self).homes@ == old(self).homes@.remove(old(self).home_index(user@))
                &&& (r is Ok || r == Err::<(), UsersError>(UsersError::ExecutionFailed))
            },
            r is Ok <==> user@.len() > 0 && old(self).has_home(user@) && old(self).home_of(
                user@,
            ).plain_dir && !old(self).home_of(user@).mounted && old(self).home_of(
                user@,
            ).encrypted_dir && old(self).overlay_mounted && old(self).has_user(user@),
            r is Ok ==> final(self).accounts@ == old(self).accounts@.remove(
                old(self).user_index(user@),
            ),
            r == Err::<(), UsersError>(UsersError::ExecutionFailed) ==> final(self).accounts@ == old(
                self,
            ).accounts@,
    {
        if user.is_empty() {
            return Err(UsersError::MissingUsername);
        }

        let home_idx = match self.find_home(user) {
            Some(i) => i,
            None => {
                // fs::remove_dir_all on the missing plaintext home fails.
                return Err(UsersError::IoError);
            },
        };
        proof {
            lemma_home_index(*self, user@, home_idx as int);
        }
        // Remove the plaintext home directory; this fails while the
        // encrypted volume is still mounted over it.
        if !self.homes[home_idx].plain_dir || self.homes[home_idx].mounted {
            return Err(UsersError::IoError);
        }
        self.homes[home_idx].plain_dir = false;
        // Remove the hidden encrypted backing directory; with it go the
        // volume, its marker and its key material.
        if !self.homes[home_idx].encrypted_dir {
            return Err(UsersError::IoError);
        }
        self.homes.remove(home_idx);
        proof {
            let pre = old(self).homes@;
            let post = self.homes@;
            assert forall|a: int, b: int| 0 <= a < b < post.len() implies post[a].user@
                != post[b].user@ by {
                let pa: int = if a < home_idx as int {
                    a
                } else {
                    a + 1
                };
                let pb: int = if b < home_idx as int {
                    b
                } else {
                    b + 1
                };
                assert(post[a] == pre[pa]);
                assert(post[b] == pre[pb]);
            }
        }

        // userdel -f -r inside the chroot: fails when the overlay root is
        // not chroot-able or the account does not exist.
        if !self.overlay_mounted {
            return Err(UsersError::ExecutionFailed);
        }
        match self.find_account(user) {
            Some(i) => {
                proof {
                    lemma_account_index(*old(self), user@, i as int);
                }
                self.accounts.remove(i);
                proof {
                    let pre = old(self).accounts@;
                    let post = self.accounts@;
                    assert forall|a: int, b: int| 0 <= a < b < post.len() implies post[a].name@
                        != post[b].name@ by {
                        let pa: int = if a < i as int {
                            a
                        } else {
                            a + 1
                        };
                        let pb: int = if b < i as int {
                            b
                        } else {
                            b + 1
                        };
                        assert(post[a] == pre[pa]);
                        assert(post[b] == pre[pb]);
                    }
                }
                Ok(())
            },
            None => Err(UsersError::ExecutionFailed),
        }
    }
}

/// Whether a demotion may proceed: at least two admins must remain before
/// the change, so that at least one is left afterwards.
pub fn sufficient_number_of_admin_users_remaining(admin_user_count: usize) -> (r: bool)
    ensures
        r == (admin_user_count >= 2),
{
    admin_user_count >= 2
}

} // verus!
