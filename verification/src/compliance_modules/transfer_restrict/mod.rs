//! Transfer restriction module: an allowlist of addresses per token. A
//! transfer passes if the sender is on the list; otherwise the recipient
//! must be. Mints are not restricted.
//!
//! In this generation allowing and disallowing always report an event;
//! in the earlier generation
//! ([`crate::compliance::modules::transfer_restrict`]) only a change
//! does.

pub mod laws;
pub mod storage;

use crate::compliance_modules::common::{module_name, spec_compliance_address, ModuleConfig};
use crate::compliance_modules::ComplianceModuleError;
use crate::keyed::{lemma_listed_push, listed, PairSet};
use storage::{is_user_allowed, remove_user_allowed, set_user_allowed};
use vstd::prelude::*;

pub use crate::compliance::modules::transfer_restrict::{UserAllowed, UserDisallowed};

verus! {

/// The state of a transfer restriction module.
pub struct TransferRestrict {
    /// The binding to the compliance contract.
    pub config: ModuleConfig,
    /// The allowlisted `(token, user)` pairs.
    pub allowed: PairSet,
}

/// Whether a transfer from `from` to `to` passes the allowlist of `token`.
pub open spec fn spec_can_transfer(allowed: Set<(u64, u64)>, from: u64, to: u64, token: u64) -> bool {
    allowed.contains((token, from)) || allowed.contains((token, to))
}

/// The events for allowing each listed user.
pub open spec fn allowed_events(token: u64, users: Seq<u64>) -> Seq<UserAllowed> {
    Seq::new(users.len(), |i: int| UserAllowed { token, user: users[i] })
}

/// The events for disallowing each listed user.
pub open spec fn disallowed_events(token: u64, users: Seq<u64>) -> Seq<UserDisallowed> {
    Seq::new(users.len(), |i: int| UserDisallowed { token, user: users[i] })
}

impl TransferRestrict {
    /// A fresh module at `module_address`, with empty allowlists.
    pub fn new(module_address: u64) -> (m: Self)
        ensures
            m.allowed@ == Set::<(u64, u64)>::empty(),
            m.config.module_address == module_address,
            m.config.compliance is None,
            !m.config.hooks_verified,
            m.config.irs_view() == Map::<u64, u64>::empty(),
    {
        TransferRestrict { config: ModuleConfig::new(module_address), allowed: PairSet::new() }
    }

    /// Adds `user` to the allowlist of `token`.
    pub fn allow_user(&mut self, token: u64, user: u64) -> (ev: UserAllowed)
        ensures
            final(self).allowed@ == old(self).allowed@.insert((token, user)),
            final(self).config == old(self).config,
            ev == (UserAllowed { token, user }),
    {
        set_user_allowed(self, token, user);
        UserAllowed { token, user }
    }

    /// Removes `user` from the allowlist of `token`.
    pub fn disallow_user(&mut self, token: u64, user: u64) -> (ev: UserDisallowed)
        ensures
            final(self).allowed@ == old(self).allowed@.remove((token, user)),
            final(self).config == old(self).config,
            ev == (UserDisallowed { token, user }),
    {
        remove_user_allowed(self, token, user);
        UserDisallowed { token, user }
    }

    /// Adds every listed user to the allowlist of `token`, with one event
    /// per listed user.
    pub fn batch_allow_users(&mut self, token: u64, users: &Vec<u64>) -> (evs: Vec<UserAllowed>)
        ensures
            final(self).allowed@ == old(self).allowed@.union(listed(token, users@)),
            final(self).config == old(self).config,
            evs@ == allowed_events(token, users@),
    {
        let mut events: Vec<UserAllowed> = Vec::new();
        let n = users.len();
        let mut i: usize = 0;
        while i < n
            invariant
                n == users.len(),
                0 <= i <= n,
                self.allowed@ == old(self).allowed@.union(listed(token, users@.take(i as int))),
                self.config == old(self).config,
                events@ == allowed_events(token, users@.take(i as int)),
            decreases n - i,
        {
            let user = users[i];
            set_user_allowed(self, token, user);
            events.push(UserAllowed { token, user });
            proof {
                lemma_listed_push(token, users@, i as int);
                assert(self.allowed@ =~= old(self).allowed@.union(listed(token, users@.take(i + 1))));
                assert(events@ =~= allowed_events(token, users@.take(i + 1)));
            }
            i = i + 1;
        }
        assert(users@.take(n as int) =~= users@);
        events
    }

    /// Removes every listed user from the allowlist of `token`, with one
    /// event per listed user.
    pub fn batch_disallow_users(&mut self, token: u64, users: &Vec<u64>) -> (evs: Vec<UserDisallowed>)
        ensures
            final(self).allowed@ == old(self).allowed@.difference(listed(token, users@)),
            final(self).config == old(self).config,
            evs@ == disallowed_events(token, users@),
    {
        let mut events: Vec<UserDisallowed> = Vec::new();
        let n = users.len();
        let mut i: usize = 0;
        while i < n
            invariant
                n == users.len(),
                0 <= i <= n,
                self.allowed@ == old(self).allowed@.difference(listed(token, users@.take(i as int))),
                self.config == old(self).config,
                events@ == disallowed_events(token, users@.take(i as int)),
            decreases n - i,
        {
            let user = users[i];
            remove_user_allowed(self, token, user);
            events.push(UserDisallowed { token, user });
            proof {
                lemma_listed_push(token, users@, i as int);
                assert(self.allowed@ =~= old(self).allowed@.difference(listed(token, users@.take(i + 1))));
                assert(events@ =~= disallowed_events(token, users@.take(i + 1)));
            }
            i = i + 1;
        }
        assert(users@.take(n as int) =~= users@);
        events
    }

    /// Whether `user` is on the allowlist of `token`.
    pub fn is_user_allowed(&self, token: u64, user: u64) -> (b: bool)
        ensures
            b == self.allowed@.contains((token, user)),
    {
        is_user_allowed(self, token, user)
    }

    /// Whether `from` may send `amount` of `token` to `to`: the sender or
    /// else the recipient must be allowlisted.
    pub fn can_transfer(&self, from: u64, to: u64, amount: i128, token: u64) -> (b: bool)
        ensures
            b == spec_can_transfer(self.allowed@, from, to, token),
    {
        if is_user_allowed(self, token, from) {
            return true;
        }
        is_user_allowed(self, token, to)
    }

    /// Mints are not restricted.
    pub fn can_create(&self, to: u64, amount: i128, token: u64) -> (b: bool)
        ensures
            b,
    {
        true
    }

    /// The module's name.
    pub fn name() -> (s: String)
        ensures
            s@ == "TransferRestrictModule"@,
    {
        module_name("TransferRestrictModule")
    }

    /// The compliance contract's address, or the module's own while unset.
    pub fn get_compliance_address(&self) -> (a: u64)
        ensures
            a == spec_compliance_address(&self.config),
    {
        crate::compliance_modules::common::get_compliance_address(&self.config)
    }

    /// Binds the module to its compliance contract (one time only).
    pub fn set_compliance_address(&mut self, compliance: u64) -> (r: Result<(), ComplianceModuleError>)
        ensures
            old(self).config.compliance is Some ==> r == Err::<(), _>(
                ComplianceModuleError::ComplianceAddressAlreadySet,
            ) && final(self).config == old(self).config,
            old(self).config.compliance is None ==> r is Ok && final(self).config == (ModuleConfig {
                compliance: Some(compliance),
                ..old(self).config
            }),
            final(self).allowed@ == old(self).allowed@,
    {
        crate::compliance_modules::common::set_compliance_address(&mut self.config, compliance)
    }
}

} // verus!
