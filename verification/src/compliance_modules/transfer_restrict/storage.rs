//! Storage of the transfer restriction module: the allowlist of each
//! token, as a set of `(token, user)` pairs.

use super::TransferRestrict;
use vstd::prelude::*;

verus! {

/// The keys under which the module's values are stored.
#[derive(Clone, Copy, Debug, PartialEq, Eq, Structural)]
pub enum TransferRestrictStorageKey {
    /// The allowlist entry of a `(token, user)`.
    AllowedUser(u64, u64),
}

/// Whether `user` is on the allowlist of `token`.
pub fn is_user_allowed(st: &TransferRestrict, token: u64, user: u64) -> (b: bool)
    ensures
        b == st.allowed@.contains((token, user)),
{
    st.allowed.contains(token, user)
}

/// Adds `user` to the allowlist of `token`.
pub fn set_user_allowed(st: &mut TransferRestrict, token: u64, user: u64)
    ensures
        final(st).allowed@ == old(st).allowed@.insert((token, user)),
        final(st).config == old(st).config,
{
    st.allowed.insert(token, user);
}

/// Removes `user` from the allowlist of `token`.
pub fn remove_user_allowed(st: &mut TransferRestrict, token: u64, user: u64)
    ensures
        final(st).allowed@ == old(st).allowed@.remove((token, user)),
        final(st).config == old(st).config,
{
    st.allowed.remove(token, user);
}

} // verus!
