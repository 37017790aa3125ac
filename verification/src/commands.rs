//! Builders for the privileged command lines the manager runs.
//!
//! Each builder returns the exact argument vector for one invocation of
//! the sandboxed command runner (first element the program, the rest its
//! arguments), with a contract pinning every element. The library never
//! spawns anything itself; the unverified executor hands these vectors to
//! the privileged command runner and reports back whether the command
//! exited successfully. Passwords are interpolated into shell `printf`
//! scripts exactly as the account tools expect them on standard input.
use vstd::prelude::*;
use vstd::string::*;

use crate::UsersError;

verus! {

/// The name of the administrative group.
pub fn admin_group() -> (r: &'static str)
    ensures
        r@ == "wheel"@,
{
    "wheel"
}

/// Append both pieces to the base string.
fn append2(base: &mut String, a: &str, b: &str)
    ensures
        final(base)@ == old(base)@ + a@ + b@,
{
    base.append(a);
    base.append(b);
}

/// The command that changes a UNIX account password inside the chroot.
///
/// In verify mode the password tool runs under `su` as the target user, so
/// the claimed old password is checked: standard input carries the old
/// password and the new one twice. The old password is then required, and
/// its absence is rejected. Outside verify mode the tool runs as a
/// privileged actor and standard input carries only the new password
/// twice.
pub fn change_user_password_chroot_command(
    chroot_path: &str,
    user: &str,
    old_password: Option<&str>,
    new_password: &str,
    verify: bool,
) -> (r: Result<Vec<String>, UsersError>)
    ensures
        r is Err <==> verify && old_password is None,
        r is Err ==> r == Err::<Vec<String>, UsersError>(UsersError::MissingOldPassword),
        old_password matches Some(op) ==> (verify ==> (r matches Ok(v) && {
            &&& v@.len() == 8
            &&& v@[0]@ == "/usr/sbin/chroot"@
            &&& v@[1]@ == chroot_path@
            &&& v@[2]@ == "/bin/su"@
            &&& v@[3]@ == "-s"@
            &&& v@[4]@ == "/bin/sh"@
            &&& v@[5]@ == "-c"@
            &&& v@[6]@ == "printf '"@ + op@ + "\n"@ + new_password@ + "\n"@ + new_password@
                + "' | /usr/bin/passwd "@ + user@
            &&& v@[7]@ == user@
        })),
        !verify ==> (r matches Ok(v) && {
            &&& v@.len() == 5
            &&& v@[0]@ == "/usr/sbin/chroot"@
            &&& v@[1]@ == chroot_path@
            &&& v@[2]@ == "/bin/sh"@
            &&& v@[3]@ == "-c"@
            &&& v@[4]@ == "printf '"@ + new_password@ + "\n"@ + new_password@
                + "' | /usr/bin/passwd "@ + user@
        }),
{
    let mut argv: Vec<String> = Vec::new();
    if verify {
        let claimed_old = match old_password {
            Some(op) => op,
            None => {
                return Err(UsersError::MissingOldPassword);
            },
        };
        let mut script: String = "printf '".to_owned();
        script.append(claimed_old);
        append2(&mut script, "\n", new_password);
        append2(&mut script, "\n", new_password);
        append2(&mut script, "' | /usr/bin/passwd ", user);
        argv.push("/usr/sbin/chroot".to_owned());
        argv.push(chroot_path.to_owned());
        argv.push("/bin/su".to_owned());
        argv.push("-s".to_owned());
        argv.push("/bin/sh".to_owned());
        argv.push("-c".to_owned());
        argv.push(script);
        argv.push(user.to_owned());
    } else {
        let mut script: String = "printf '".to_owned();
        script.append(new_password);
        append2(&mut script, "\n", new_password);
        append2(&mut script, "' | /usr/bin/passwd ", user);
        argv.push("/usr/sbin/chroot".to_owned());
        argv.push(chroot_path.to_owned());
        argv.push("/bin/sh".to_owned());
        argv.push("-c".to_owned());
        argv.push(script);
    }
    Ok(argv)
}

/// The command that creates a UNIX account inside the chroot: `useradd -M`,
/// with the admin group joined at creation time when requested.
pub fn create_user_chroot_command(chroot_path: &str, username: &str, admin: bool) -> (v: Vec<
    String,
>)
    ensures
        admin ==> {
            &&& v@.len() == 7
            &&& v@[0]@ == "/usr/sbin/chroot"@
            &&& v@[1]@ == chroot_path@
            &&& v@[2]@ == "/usr/sbin/useradd"@
            &&& v@[3]@ == "-M"@
            &&& v@[4]@ == "-G"@
            &&& v@[5]@ == "wheel"@
            &&& v@[6]@ == username@
        },
        !admin ==> {
            &&& v@.len() == 5
            &&& v@[0]@ == "/usr/sbin/chroot"@
            &&& v@[1]@ == chroot_path@
            &&& v@[2]@ == "/usr/sbin/useradd"@
            &&& v@[3]@ == "-M"@
            &&& v@[4]@ == username@
        },
{
    let mut argv: Vec<String> = Vec::new();
    argv.push("/usr/sbin/chroot".to_owned());
    argv.push(chroot_path.to_owned());
    argv.push("/usr/sbin/useradd".to_owned());
    argv.push("-M".to_owned());
    if admin {
        argv.push("-G".to_owned());
        argv.push(admin_group().to_owned());
    }
    argv.push(username.to_owned());
    argv
}

/// The command that removes a UNIX account inside the chroot, forcing
/// removal of its remaining home artifacts.
pub fn delete_user_chroot_command(user: &str) -> (v: Vec<String>)
    ensures
        v@.len() == 4,
        v@[0]@ == "/usr/sbin/userdel"@,
        v@[1]@ == "-f"@,
        v@[2]@ == "-r"@,
        v@[3]@ == user@,
{
    let mut argv: Vec<String> = Vec::new();
    argv.push("/usr/sbin/userdel".to_owned());
    argv.push("-f".to_owned());
    argv.push("-r".to_owned());
    argv.push(user.to_owned());
    argv
}

/// The chroot command that tests admin-group membership: list the user's
/// groups and grep quietly for the admin group.
pub fn is_admin_chroot_command(user: &str) -> (v: Vec<String>)
    ensures
        v@.len() == 3,
        v@[0]@ == "/bin/sh"@,
        v@[1]@ == "-c"@,
        v@[2]@ == "/usr/sbin/groups '"@ + user@ + "' | /usr/sbin/grep -q 'wheel'"@,
{
    let mut argv: Vec<String> = Vec::new();
    let mut script: String = "/usr/sbin/groups '".to_owned();
    script.append(user);
    script.append("' | /usr/sbin/grep -q 'wheel'");
    argv.push("/bin/sh".to_owned());
    argv.push("-c".to_owned());
    argv.push(script);
    argv
}

/// The command that initializes an encrypted volume at a path: the chosen
/// password is fed twice on standard input, emulating the tool's
/// confirmation prompt. The tool's own path is supplied by the caller, who
/// owns that configuration.
pub fn initialize_encrypted_storage_command(tool: &str, path: &str, password: &str) -> (v: Vec<
    String,
>)
    ensures
        v@.len() == 3,
        v@[0]@ == "/bin/sh"@,
        v@[1]@ == "-c"@,
        v@[2]@ == "printf '"@ + password@ + "\n"@ + password@ + "' | "@ + tool@ + " -init "@
            + path@,
{
    let mut argv: Vec<String> = Vec::new();
    let mut script: String = "printf '".to_owned();
    script.append(password);
    append2(&mut script, "\n", password);
    append2(&mut script, "' | ", tool);
    append2(&mut script, " -init ", path);
    argv.push("/bin/sh".to_owned());
    argv.push("-c".to_owned());
    argv.push(script);
    argv
}

/// The command that changes an encrypted volume's password: the old and
/// new passwords are fed on standard input.
pub fn change_encryption_password_command(
    tool: &str,
    volume_path: &str,
    old_password: &str,
    new_password: &str,
) -> (v: Vec<String>)
    ensures
        v@.len() == 3,
        v@[0]@ == "/bin/sh"@,
        v@[1]@ == "-c"@,
        v@[2]@ == "printf '"@ + old_password@ + "\n"@ + new_password@ + "' | "@ + tool@
            + " -passwd "@ + volume_path@,
{
    let mut argv: Vec<String> = Vec::new();
    let mut script: String = "printf '".to_owned();
    script.append(old_password);
    append2(&mut script, "\n", new_password);
    append2(&mut script, "' | ", tool);
    append2(&mut script, " -passwd ", volume_path);
    argv.push("/bin/sh".to_owned());
    argv.push("-c".to_owned());
    argv.push(script);
    argv
}

/// The chroot command that seeds a new home directory with the skeleton
/// dotfiles from the base system.
pub fn copy_skeleton_chroot_command(home_root: &str, user: &str) -> (v: Vec<String>)
    ensures
        v@.len() == 3,
        v@[0]@ == "/bin/sh"@,
        v@[1]@ == "-c"@,
        v@[2]@ == "/bin/cp -r /etc/skel/.* /"@ + home_root@ + "/"@ + user@,
{
    let mut argv: Vec<String> = Vec::new();
    let mut script: String = "/bin/cp -r /etc/skel/.* /".to_owned();
    append2(&mut script, home_root, "/");
    script.append(user);
    argv.push("/bin/sh".to_owned());
    argv.push("-c".to_owned());
    argv.push(script);
    argv
}

/// The chroot command that hands a home directory to its user,
/// recursively.
pub fn chown_home_chroot_command(home_root: &str, user: &str) -> (v: Vec<String>)
    ensures
        v@.len() == 4,
        v@[0]@ == "/usr/sbin/chown"@,
        v@[1]@ == "-R"@,
        v@[2]@ == user@ + ":"@ + user@,
        v@[3]@ == "/"@ + home_root@ + "/"@ + user@,
{
    let mut argv: Vec<String> = Vec::new();
    let mut owner: String = user.to_owned();
    append2(&mut owner, ":", user);
    let mut path: String = "/".to_owned();
    append2(&mut path, home_root, "/");
    path.append(user);
    argv.push("/usr/sbin/chown".to_owned());
    argv.push("-R".to_owned());
    argv.push(owner);
    argv.push(path);
    argv
}

/// A user's plaintext home directory under a filesystem root.
pub fn home_dir_path(root: &str, home_root: &str, user: &str) -> (r: String)
    ensures
        r@ == root@ + "/"@ + home_root@ + "/"@ + user@,
{
    let mut path: String = root.to_owned();
    append2(&mut path, "/", home_root);
    append2(&mut path, "/", user);
    path
}

/// A user's hidden encrypted backing directory under a filesystem root:
/// the sibling of the plaintext home, prefixed with a dot.
pub fn encrypted_home_dir_path(root: &str, home_root: &str, user: &str) -> (r: String)
    ensures
        r@ == root@ + "/"@ + home_root@ + "/."@ + user@,
{
    let mut path: String = root.to_owned();
    append2(&mut path, "/", home_root);
    append2(&mut path, "/.", user);
    path
}

/// The disabled-mode marker file inside a user's encrypted backing
/// directory; the marker's filename is supplied by the caller, who owns
/// that convention.
pub fn encryption_disabled_file_path(root: &str, home_root: &str, user: &str, marker: &str) -> (r:
    String)
    ensures
        r@ == root@ + "/"@ + home_root@ + "/."@ + user@ + "/"@ + marker@,
{
    let mut path: String = encrypted_home_dir_path(root, home_root, user);
    append2(&mut path, "/", marker);
    path
}

} // verus!
