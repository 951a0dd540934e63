//! Properties of the allowlists: disallowing a batch undoes allowing it,
//! and in the earlier generation only changes are reported.

use super::{allowed_events, spec_can_transfer, UserAllowed};
use crate::compliance::modules::transfer_restrict::storage::newly_allowed_events;
use crate::keyed::listed;
use vstd::prelude::*;

verus! {

/// Disallowing a batch of users undoes allowing it, when none of them
/// was allowed before.
pub proof fn law_disallow_undoes_allow(s: Set<(u64, u64)>, token: u64, users: Seq<u64>)
    requires
        forall|i: int| 0 <= i < users.len() ==> !s.contains((token, #[trigger] users[i])),
    ensures
        s.union(listed(token, users)).difference(listed(token, users)) == s,
{
    assert forall|k: (u64, u64)| s.contains(k) implies !#[trigger] listed(token, users).contains(k) by {
        if listed(token, users).contains(k) {
            let i = choose|i: int| 0 <= i < users.len() && users[i] == k.1;
            assert(!s.contains((token, users[i])));
        }
    }
    assert(s.union(listed(token, users)).difference(listed(token, users)) =~= s);
}

/// Allowing users who are all allowed already reports nothing.
pub proof fn law_allowing_allowed_users_reports_nothing(s: Set<(u64, u64)>, token: u64, users: Seq<u64>)
    requires
        forall|i: int| 0 <= i < users.len() ==> s.contains((token, #[trigger] users[i])),
    ensures
        newly_allowed_events(s, token, users) == Seq::<UserAllowed>::empty(),
    decreases users.len(),
{
    if users.len() > 0 {
        let prev = users.drop_last();
        assert forall|i: int| 0 <= i < prev.len() implies s.contains((token, #[trigger] prev[i])) by {
            assert(prev[i] == users[i]);
        }
        law_allowing_allowed_users_reports_nothing(s, token, prev);
        assert(s.contains((token, users[users.len() - 1])));
    }
}

/// Allowing distinct users of whom none is allowed yet reports each of
/// them, in order, as the later generation always does.
pub proof fn law_allowing_new_users_reports_each(s: Set<(u64, u64)>, token: u64, users: Seq<u64>)
    requires
        users.no_duplicates(),
        forall|i: int| 0 <= i < users.len() ==> !s.contains((token, #[trigger] users[i])),
    ensures
        newly_allowed_events(s, token, users) == allowed_events(token, users),
    decreases users.len(),
{
    if users.len() > 0 {
        let prev = users.drop_last();
        let last = users.last();
        assert forall|i: int| 0 <= i < prev.len() implies !s.contains((token, #[trigger] prev[i])) by {
            assert(prev[i] == users[i]);
        }
        assert(prev.no_duplicates()) by {
            assert forall|i: int, j: int| 0 <= i < prev.len() && 0 <= j < prev.len() && i != j implies prev[i] != prev[j] by {
                assert(prev[i] == users[i] && prev[j] == users[j]);
            }
        }
        law_allowing_new_users_reports_each(s, token, prev);
        assert(!s.contains((token, users[users.len() - 1])));
        if listed(token, prev).contains((token, last)) {
            let j = choose|j: int| 0 <= j < prev.len() && prev[j] == last;
            assert(users[j] == users[users.len() - 1]);
        }
        assert(allowed_events(token, prev).push(UserAllowed { token, user: last }) =~= allowed_events(token, users));
    }
}

/// A transfer passes when the sender is allowlisted, whoever the
/// recipient; otherwise it passes exactly when the recipient is
/// allowlisted. Neither the amount nor any other token's list matters.
pub proof fn law_transfer_passes_for_allowlisted_party(
    allowed: Set<(u64, u64)>,
    from: u64,
    to: u64,
    token: u64,
)
    ensures
        allowed.contains((token, from)) ==> spec_can_transfer(allowed, from, to, token),
        allowed.contains((token, to)) ==> spec_can_transfer(allowed, from, to, token),
        !allowed.contains((token, from)) && !allowed.contains((token, to)) ==> !spec_can_transfer(
            allowed,
            from,
            to,
            token,
        ),
{
}

/// Allowlisting further users never turns an admitted transfer into a
/// refused one.
pub proof fn law_allowlisting_more_never_refuses(
    allowed: Set<(u64, u64)>,
    more: Set<(u64, u64)>,
    from: u64,
    to: u64,
    token: u64,
)
    requires
        spec_can_transfer(allowed, from, to, token),
    ensures
        spec_can_transfer(allowed.union(more), from, to, token),
{
}

} // verus!
