//! The logic of the transfer restriction module (earlier generation):
//! allowing a user who is already allowed, or disallowing one who is not,
//! changes nothing and reports no event.

use super::{TransferRestrict, UserAllowed, UserDisallowed};
use crate::compliance_modules::transfer_restrict::spec_can_transfer;
use crate::keyed::{lemma_listed_push, listed};
use vstd::prelude::*;

pub use crate::compliance_modules::transfer_restrict::storage::{
    is_user_allowed, remove_user_allowed, set_user_allowed, TransferRestrictStorageKey,
};

verus! {

/// The events of allowing the listed users in order, starting from the
/// allowlist `s`: one for each user not allowed at its turn.
pub open spec fn newly_allowed_events(s: Set<(u64, u64)>, token: u64, users: Seq<u64>) -> Seq<UserAllowed>
    decreases users.len(),
{
    if users.len() == 0 {
        seq![]
    } else {
        let prev = users.drop_last();
        let events = newly_allowed_events(s, token, prev);
        if s.union(listed(token, prev)).contains((token, users.last())) {
            events
        } else {
            events.push(UserAllowed { token, user: users.last() })
        }
    }
}

/// The events of disallowing the listed users in order, starting from
/// the allowlist `s`: one for each user still allowed at its turn.
pub open spec fn newly_disallowed_events(s: Set<(u64, u64)>, token: u64, users: Seq<u64>) -> Seq<
    UserDisallowed,
>
    decreases users.len(),
{
    if users.len() == 0 {
        seq![]
    } else {
        let prev = users.drop_last();
        let events = newly_disallowed_events(s, token, prev);
        if s.difference(listed(token, prev)).contains((token, users.last())) {
            events.push(UserDisallowed { token, user: users.last() })
        } else {
            events
        }
    }
}

/// Whether `from` may send to `to`: the sender or else the recipient must
/// be allowlisted.
pub fn can_transfer(st: &TransferRestrict, from: u64, to: u64, token: u64) -> (b: bool)
    ensures
        b == spec_can_transfer(st.allowed@, from, to, token),
{
    if is_user_allowed(st, token, from) {
        return true;
    }
    is_user_allowed(st, token, to)
}

/// Adds `user` to the allowlist of `token`; the event is reported only
/// if the user was not yet allowed.
pub fn allow_user(st: &mut TransferRestrict, token: u64, user: u64) -> (ev: Option<UserAllowed>)
    ensures
        final(st).allowed@ == old(st).allowed@.insert((token, user)),
        final(st).config == old(st).config,
        old(st).allowed@.contains((token, user)) ==> ev is None,
        !old(st).allowed@.contains((token, user)) ==> ev == Some(UserAllowed { token, user }),
{
    if !is_user_allowed(st, token, user) {
        set_user_allowed(st, token, user);
        Some(UserAllowed { token, user })
    } else {
        assert(old(st).allowed@.insert((token, user)) =~= old(st).allowed@);
        None
    }
}

/// Removes `user` from the allowlist of `token`; the event is reported
/// only if the user was allowed.
pub fn disallow_user(st: &mut TransferRestrict, token: u64, user: u64) -> (ev: Option<UserDisallowed>)
    ensures
        final(st).allowed@ == old(st).allowed@.remove((token, user)),
        final(st).config == old(st).config,
        old(st).allowed@.contains((token, user)) ==> ev == Some(UserDisallowed { token, user }),
        !old(st).allowed@.contains((token, user)) ==> ev is None,
{
    if is_user_allowed(st, token, user) {
        remove_user_allowed(st, token, user);
        Some(UserDisallowed { token, user })
    } else {
        assert(old(st).allowed@.remove((token, user)) =~= old(st).allowed@);
        None
    }
}

/// Allows every listed user in order.
pub fn batch_allow_users(st: &mut TransferRestrict, token: u64, users: &Vec<u64>) -> (evs: Vec<UserAllowed>)
    ensures
        final(st).allowed@ == old(st).allowed@.union(listed(token, users@)),
        final(st).config == old(st).config,
        evs@ == newly_allowed_events(old(st).allowed@, token, users@),
{
    let mut events: Vec<UserAllowed> = Vec::new();
    let n = users.len();
    let mut i: usize = 0;
    while i < n
        invariant
            n == users.len(),
            0 <= i <= n,
            st.allowed@ == old(st).allowed@.union(listed(token, users@.take(i as int))),
            st.config == old(st).config,
            events@ == newly_allowed_events(old(st).allowed@, token, users@.take(i as int)),
        decreases n - i,
    {
        let user = users[i];
        let ev = allow_user(st, token, user);
        if let Some(e) = ev {
            events.push(e);
        }
        proof {
            lemma_listed_push(token, users@, i as int);
            assert(users@.take(i + 1).drop_last() =~= users@.take(i as int));
            assert(st.allowed@ =~= old(st).allowed@.union(listed(token, users@.take(i + 1))));
        }
        i = i + 1;
    }
    assert(users@.take(n as int) =~= users@);
    events
}

/// Disallows every listed user in order.
pub fn batch_disallow_users(st: &mut TransferRestrict, token: u64, users: &Vec<u64>) -> (evs: Vec<
    UserDisallowed,
>)
    ensures
        final(st).allowed@ == old(st).allowed@.difference(listed(token, users@)),
        final(st).config == old(st).config,
        evs@ == newly_disallowed_events(old(st).allowed@, token, users@),
{
    let mut events: Vec<UserDisallowed> = Vec::new();
    let n = users.len();
    let mut i: usize = 0;
    while i < n
        invariant
            n == users.len(),
            0 <= i <= n,
            st.allowed@ == old(st).allowed@.difference(listed(token, users@.take(i as int))),
            st.config == old(st).config,
            events@ == newly_disallowed_events(old(st).allowed@, token, users@.take(i as int)),
        decreases n - i,
    {
        let user = users[i];
        let ev = disallow_user(st, token, user);
        if let Some(e) = ev {
            events.push(e);
        }
        proof {
            lemma_listed_push(token, users@, i as int);
            assert(users@.take(i + 1).drop_last() =~= users@.take(i as int));
            assert(st.allowed@ =~= old(st).allowed@.difference(listed(token, users@.take(i + 1))));
        }
        i = i + 1;
    }
    assert(users@.take(n as int) =~= users@);
    events
}

} // verus!
