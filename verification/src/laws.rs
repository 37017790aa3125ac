//! The library's general guarantees, stated and proved once over the spec
//! predicates that the operations' contracts use.
//!
//! Each law here chains the contracts of two operations, or states a fact
//! about authentication that every caller of the password-change protocol
//! relies on. Scenario-level guarantees (single concrete runs) live in the
//! test suite instead.
use vstd::prelude::*;

use crate::users::{
    SystemState, accounts_with_admin, accounts_with_password, admin_count, disabled_home,
    lemma_account_index, lemma_admin_count_update, lemma_home_index, sentinel,
    updated_volume_password,
};

verus! {

/// A successful password change pins authentication: afterwards the account
/// authenticates with the new password and with nothing else, and every
/// other account authenticates exactly as before.
pub proof fn lemma_password_change_pins_authentication(
    pre: SystemState,
    post: SystemState,
    user: Seq<char>,
    new_password: Seq<char>,
)
    requires
        pre.wf(),
        pre.has_user(user),
        accounts_with_password(pre.accounts@, post.accounts@, user, new_password),
    ensures
        post.has_user(user),
        forall|p: Seq<char>| post.authenticates(user, p) <==> p == new_password,
        forall|other: Seq<char>, p: Seq<char>|
            other != user ==> (post.authenticates(other, p) <==> pre.authenticates(other, p)),
{
    let k = choose|k: int|
        0 <= k < pre.accounts@.len() && (#[trigger] pre.accounts@[k]).name@ == user;
    assert(post.accounts@[k].name@ == user && post.accounts@[k].password@ == new_password);
    assert(post.has_user(user));
    assert(post.authenticates(user, new_password));
    assert forall|p: Seq<char>| post.authenticates(user, p) implies p == new_password by {
        let i = choose|i: int|
            0 <= i < post.accounts@.len() && (#[trigger] post.accounts@[i]).name@ == user
                && post.accounts@[i].password@ == p;
        if pre.accounts@[i].name@ == user {
        } else {
            assert(post.accounts@[i] == pre.accounts@[i]);
        }
    }
    assert forall|other: Seq<char>, p: Seq<char>| other != user implies (post.authenticates(
        other,
        p,
    ) <==> pre.authenticates(other, p)) by {
        if post.authenticates(other, p) {
            let i = choose|i: int|
                0 <= i < post.accounts@.len() && (#[trigger] post.accounts@[i]).name@ == other
                    && post.accounts@[i].password@ == p;
            if pre.accounts@[i].name@ == user {
                assert(post.accounts@[i].name == pre.accounts@[i].name);
            } else {
                assert(post.accounts@[i] == pre.accounts@[i]);
                assert(pre.authenticates(other, p));
            }
        }
        if pre.authenticates(other, p) {
            let i = choose|i: int|
                0 <= i < pre.accounts@.len() && (#[trigger] pre.accounts@[i]).name@ == other
                    && pre.accounts@[i].password@ == p;
            assert(post.accounts@[i] == pre.accounts@[i]);
            assert(post.authenticates(other, p));
        }
    }
}

/// For any user and any correct old password, changing the password and
/// then changing it again with the first new password as the old one is
/// owed success: the intermediate state satisfies the second change's
/// authentication condition, and after the second change the account
/// authenticates only with the final password.
pub proof fn lemma_change_password_chain(
    pre: SystemState,
    mid: SystemState,
    post: SystemState,
    user: Seq<char>,
    old_password: Seq<char>,
    new_password: Seq<char>,
    newer_password: Seq<char>,
)
    requires
        pre.wf(),
        mid.wf(),
        pre.authenticates(user, old_password),
        accounts_with_password(pre.accounts@, mid.accounts@, user, new_password),
        accounts_with_password(mid.accounts@, post.accounts@, user, newer_password),
    ensures
        mid.authenticates(user, new_password),
        forall|p: Seq<char>| post.authenticates(user, p) <==> p == newer_password,
{
    assert(pre.has_user(user)) by {
        let k = choose|k: int|
            0 <= k < pre.accounts@.len() && (#[trigger] pre.accounts@[k]).name@ == user
                && pre.accounts@[k].password@ == old_password;
        assert(pre.accounts@[k].name@ == user);
    }
    lemma_password_change_pins_authentication(pre, mid, user, new_password);
    lemma_password_change_pins_authentication(mid, post, user, newer_password);
}

/// In a well-formed state an account authenticates with at most one
/// password; a wrong old password therefore never authenticates, so the
/// protocol's verify phase refuses it, and — the state being unchanged on
/// refusal — the real password still authenticates afterwards.
pub proof fn lemma_wrong_old_password_refused(
    s: SystemState,
    user: Seq<char>,
    real_password: Seq<char>,
    claimed: Seq<char>,
)
    requires
        s.wf(),
        s.authenticates(user, real_password),
        claimed != real_password,
    ensures
        !s.authenticates(user, claimed),
{
    let k = choose|k: int|
        0 <= k < s.accounts@.len() && (#[trigger] s.accounts@[k]).name@ == user
            && s.accounts@[k].password@ == real_password;
    lemma_account_index(s, user, k);
    if s.authenticates(user, claimed) {
        let j = choose|j: int|
            0 <= j < s.accounts@.len() && (#[trigger] s.accounts@[j]).name@ == user
                && s.accounts@[j].password@ == claimed;
        lemma_account_index(s, user, j);
    }
}

/// After disabling encryption the volume reports the disabled state (the
/// marker is present and the volume's password is the reserved sentinel),
/// and a subsequent encryption-password change from the sentinel to a
/// genuinely new value is owed success and removes the marker.
pub proof fn lemma_disable_then_reenable(
    pre: SystemState,
    mid: SystemState,
    post: SystemState,
    user: Seq<char>,
    real_password: Seq<char>,
)
    requires
        pre.wf(),
        mid.wf(),
        pre.volume_initialized(user),
        mid.homes@.len() == pre.homes@.len(),
        forall|i: int|
            0 <= i < pre.homes@.len() ==> {
                if pre.homes@[i].user@ == user {
                    disabled_home(pre.homes@[i], #[trigger] mid.homes@[i])
                } else {
                    mid.homes@[i] == pre.homes@[i]
                }
            },
        real_password != sentinel(),
        post.homes@.len() == mid.homes@.len(),
        forall|i: int|
            0 <= i < mid.homes@.len() ==> {
                if mid.homes@[i].user@ == user {
                    updated_volume_password(mid.homes@[i], #[trigger] post.homes@[i], real_password)
                } else {
                    post.homes@[i] == mid.homes@[i]
                }
            },
    ensures
        mid.volume_initialized(user),
        mid.home_of(user).disabled_marker,
        mid.home_of(user).volume_password@ == sentinel(),
        post.volume_initialized(user),
        !post.home_of(user).disabled_marker,
        post.home_of(user).volume_password@ == real_password,
{
    let k = choose|k: int| 0 <= k < pre.homes@.len() && (#[trigger] pre.homes@[k]).user@ == user;
    lemma_home_index(pre, user, k);
    assert(disabled_home(pre.homes@[k], mid.homes@[k]));
    assert(mid.homes@[k].user@ == user);
    lemma_home_index(mid, user, k);
    assert(updated_volume_password(mid.homes@[k], post.homes@[k], real_password));
    assert(post.homes@[k].user@ == user);
    assert(post.has_home(user));
    let j = post.home_index(user);
    assert(0 <= j < post.homes@.len() && post.homes@[j].user@ == user);
    assert(pre.homes@[j].user@ == user) by {
        if mid.homes@[j].user@ == user {
            assert(mid.homes@[j].user@ == pre.homes@[j].user@);
        } else {
            assert(post.homes@[j] == mid.homes@[j]);
            assert(mid.homes@[j] == pre.homes@[j]);
        }
    }
    lemma_home_index(pre, user, j);
}

/// Demoting an admin removes exactly one admin: with two admins beforehand,
/// exactly one is left. (With fewer than two, the demotion operation
/// refuses the change and mutates nothing, by its contract.)
pub proof fn lemma_demote_second_to_last_admin(
    pre: SystemState,
    post: SystemState,
    user: Seq<char>,
)
    requires
        pre.wf(),
        pre.user_admin(user),
        admin_count(pre.accounts@) == 2,
        accounts_with_admin(pre.accounts@, post.accounts@, user, false),
    ensures
        admin_count(post.accounts@) == 1,
{
    let k = choose|k: int|
        0 <= k < pre.accounts@.len() && (#[trigger] pre.accounts@[k]).name@ == user
            && pre.accounts@[k].admin;
    lemma_account_index(pre, user, k);
    assert forall|i: int|
        0 <= i < pre.accounts@.len() && i != k implies post.accounts@[i].admin
        == pre.accounts@[i].admin by {
        if pre.accounts@[i].name@ == user {
            lemma_account_index(pre, user, i);
        }
    }
    lemma_admin_count_update(pre.accounts@, post.accounts@, k, pre.accounts@.len() as int);
}

} // verus!
