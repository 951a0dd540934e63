//! Max balance module: tracks balances per identity (not per wallet) and
//! caps how much of a token one identity may hold.
//!
//! In this generation a cap of 0 means that the token has no cap; in the
//! earlier generation ([`crate::compliance::modules::max_balance`]) a cap
//! of 0 admits nothing. Both share the logic below, which takes the rule
//! as `zero_is_unlimited`.

pub mod laws;
pub mod storage;

use crate::compliance::modules::max_balance::{IDBalancePreSet, MaxBalanceSet};
use crate::compliance::ComplianceHook;
use crate::compliance_modules::common::{
    all_registered, checked_add_i128, checked_sub_i128, first_unregistered, fits_i128,
    get_irs_client, module_name, require_non_negative_amount, set_irs_address,
    spec_compliance_address, verify_required_hooks, ModuleConfig,
};
use crate::compliance_modules::ComplianceModuleError;
use crate::keyed::PairMap;
use std::collections::HashMap;
use storage::{get_id_balance, get_max_balance, set_id_balance, set_max_balance};
use vstd::prelude::*;

verus! {

broadcast use vstd::std_specs::hash::group_hash_axioms;

/// The state of a max balance module.
pub struct MaxBalance {
    /// The binding to the compliance contract and identity registries.
    pub config: ModuleConfig,
    /// The cap of each token.
    pub max_balances: HashMap<u64, i128>,
    /// The balance of each `(token, identity)`.
    pub id_balances: PairMap<i128>,
}

/// The abstract state of the module.
pub struct MaxBalanceView {
    /// The binding to the compliance contract and identity registries.
    pub config: ModuleConfig,
    /// The cap of each token.
    pub max: Map<u64, i128>,
    /// The balance of each `(token, identity)`.
    pub balances: Map<(u64, u64), i128>,
}

impl MaxBalanceView {
    /// The cap of `token` (0 when unset).
    pub open spec fn max_of(self, token: u64) -> i128 {
        if self.max.contains_key(token) {
            self.max[token]
        } else {
            0
        }
    }

    /// The balance of `(token, identity)` (0 when unset).
    pub open spec fn balance_of(self, token: u64, identity: u64) -> i128 {
        if self.balances.contains_key((token, identity)) {
            self.balances[(token, identity)]
        } else {
            0
        }
    }

    /// This state with the balance of `(token, identity)` written.
    pub open spec fn with_balance(self, token: u64, identity: u64, balance: i128) -> Self {
        MaxBalanceView { balances: self.balances.insert((token, identity), balance), ..self }
    }
}

impl MaxBalance {
    /// The abstract state.
    pub open spec fn view(&self) -> MaxBalanceView {
        MaxBalanceView {
            config: self.config,
            max: self.max_balances@,
            balances: self.id_balances.view(),
        }
    }
}

// ################## SPECIFICATION ##################

/// Whether `identity` may receive `amount` more of `token` under its cap.
pub open spec fn spec_can_increase(
    s: MaxBalanceView,
    token: u64,
    identity: u64,
    amount: i128,
    zero_is_unlimited: bool,
) -> Result<bool, ComplianceModuleError> {
    if amount < 0 {
        Ok(false)
    } else if zero_is_unlimited && s.max_of(token) == 0 {
        Ok(true)
    } else {
        let current = s.balance_of(token, identity);
        if !fits_i128(current + amount) {
            Err(ComplianceModuleError::MathOverflow)
        } else {
            Ok(current + amount <= s.max_of(token))
        }
    }
}

/// The state after `amount` moved from identity `from_id` to `to_id`.
pub open spec fn spec_on_transfer(
    s: MaxBalanceView,
    from_id: u64,
    to_id: u64,
    amount: i128,
    token: u64,
    zero_is_unlimited: bool,
) -> Result<MaxBalanceView, ComplianceModuleError> {
    if amount < 0 {
        Err(ComplianceModuleError::InvalidAmount)
    } else if !s.config.irs_view().contains_key(token) {
        Err(ComplianceModuleError::IdentityRegistryNotSet)
    } else if from_id == to_id {
        Ok(s)
    } else {
        match spec_can_increase(s, token, to_id, amount, zero_is_unlimited) {
            Err(e) => Err(e),
            Ok(false) => Err(ComplianceModuleError::MaxBalanceExceeded),
            Ok(true) => {
                let to_balance = s.balance_of(token, to_id);
                let from_balance = s.balance_of(token, from_id);
                if !fits_i128(to_balance + amount) {
                    Err(ComplianceModuleError::MathOverflow)
                } else if !fits_i128(from_balance - amount) {
                    Err(ComplianceModuleError::MathUnderflow)
                } else {
                    Ok(
                        s.with_balance(token, from_id, (from_balance - amount) as i128).with_balance(
                            token,
                            to_id,
                            (to_balance + amount) as i128,
                        ),
                    )
                }
            },
        }
    }
}

/// The state after `amount` was minted to identity `to_id`.
pub open spec fn spec_on_created(
    s: MaxBalanceView,
    to_id: u64,
    amount: i128,
    token: u64,
    zero_is_unlimited: bool,
) -> Result<MaxBalanceView, ComplianceModuleError> {
    if amount < 0 {
        Err(ComplianceModuleError::InvalidAmount)
    } else if !s.config.irs_view().contains_key(token) {
        Err(ComplianceModuleError::IdentityRegistryNotSet)
    } else {
        match spec_can_increase(s, token, to_id, amount, zero_is_unlimited) {
            Err(e) => Err(e),
            Ok(false) => Err(ComplianceModuleError::MaxBalanceExceeded),
            Ok(true) => {
                let balance = s.balance_of(token, to_id);
                if !fits_i128(balance + amount) {
                    Err(ComplianceModuleError::MathOverflow)
                } else {
                    Ok(s.with_balance(token, to_id, (balance + amount) as i128))
                }
            },
        }
    }
}

/// The state after `amount` was burned from identity `from_id`.
pub open spec fn spec_on_destroyed(s: MaxBalanceView, from_id: u64, amount: i128, token: u64) -> Result<
    MaxBalanceView,
    ComplianceModuleError,
> {
    if amount < 0 {
        Err(ComplianceModuleError::InvalidAmount)
    } else if !s.config.irs_view().contains_key(token) {
        Err(ComplianceModuleError::IdentityRegistryNotSet)
    } else {
        let balance = s.balance_of(token, from_id);
        if !fits_i128(balance - amount) {
            Err(ComplianceModuleError::MathUnderflow)
        } else {
            Ok(s.with_balance(token, from_id, (balance - amount) as i128))
        }
    }
}

/// Whether identity `from_id` may send `amount` to identity `to_id`.
pub open spec fn spec_can_transfer(
    s: MaxBalanceView,
    from_id: u64,
    to_id: u64,
    amount: i128,
    token: u64,
    zero_is_unlimited: bool,
) -> Result<bool, ComplianceModuleError> {
    if !s.config.hooks_verified {
        Err(ComplianceModuleError::HooksNotVerified)
    } else if amount < 0 {
        Ok(false)
    } else if !s.config.irs_view().contains_key(token) {
        Err(ComplianceModuleError::IdentityRegistryNotSet)
    } else if from_id == to_id {
        Ok(true)
    } else {
        spec_can_increase(s, token, to_id, amount, zero_is_unlimited)
    }
}

/// Whether `amount` may be minted to identity `to_id`.
pub open spec fn spec_can_create(
    s: MaxBalanceView,
    to_id: u64,
    amount: i128,
    token: u64,
    zero_is_unlimited: bool,
) -> Result<bool, ComplianceModuleError> {
    if !s.config.hooks_verified {
        Err(ComplianceModuleError::HooksNotVerified)
    } else if amount < 0 {
        Ok(false)
    } else if !s.config.irs_view().contains_key(token) {
        Err(ComplianceModuleError::IdentityRegistryNotSet)
    } else {
        spec_can_increase(s, token, to_id, amount, zero_is_unlimited)
    }
}

/// The balances after seeding the first `n` identities with their
/// balances, in order.
pub open spec fn batch_balances(
    m: Map<(u64, u64), i128>,
    token: u64,
    identities: Seq<u64>,
    balances: Seq<i128>,
    n: nat,
) -> Map<(u64, u64), i128>
    decreases n,
{
    if n == 0 {
        m
    } else {
        batch_balances(m, token, identities, balances, (n - 1) as nat).insert(
            (token, identities[n - 1]),
            balances[n - 1],
        )
    }
}

/// The events for seeding each identity with its balance.
pub open spec fn pre_set_events(token: u64, identities: Seq<u64>, balances: Seq<i128>) -> Seq<
    IDBalancePreSet,
> {
    Seq::new(
        identities.len(),
        |i: int| IDBalancePreSet { token, identity: identities[i], balance: balances[i] },
    )
}

/// The hooks this module must be registered on.
pub open spec fn required_hooks_seq() -> Seq<ComplianceHook> {
    seq![
        ComplianceHook::CanTransfer,
        ComplianceHook::CanCreate,
        ComplianceHook::Transferred,
        ComplianceHook::Created,
        ComplianceHook::Destroyed,
    ]
}

// ################## LOGIC ##################

/// Whether `identity` may receive `amount` more of `token` under its cap.
fn can_increase_identity_balance(
    st: &MaxBalance,
    token: u64,
    identity: u64,
    amount: i128,
    zero_is_unlimited: bool,
) -> (r: Result<bool, ComplianceModuleError>)
    ensures
        r == spec_can_increase(st.view(), token, identity, amount, zero_is_unlimited),
{
    if amount < 0 {
        return Ok(false);
    }
    let max = get_max_balance(st, token);
    if zero_is_unlimited && max == 0 {
        return Ok(true);
    }
    let current = get_id_balance(st, token, identity);
    let total = checked_add_i128(current, amount)?;
    Ok(total <= max)
}

/// Sets the cap of `token`, refusing a negative cap.
pub fn configure_max_balance(st: &mut MaxBalance, token: u64, max: i128) -> (r: Result<
    MaxBalanceSet,
    ComplianceModuleError,
>)
    ensures
        max < 0 ==> r == Err::<MaxBalanceSet, _>(ComplianceModuleError::InvalidAmount) && final(st).view() == old(st).view(),
        max >= 0 ==> r == Ok::<_, ComplianceModuleError>(MaxBalanceSet { token, max_balance: max })
            && final(st).view() == (MaxBalanceView {
            max: old(st).view().max.insert(token, max),
            ..old(st).view()
        }),
{
    require_non_negative_amount(max)?;
    set_max_balance(st, token, max);
    Ok(MaxBalanceSet { token, max_balance: max })
}

/// Seeds the balance of `identity`, refusing a negative balance.
pub fn pre_set_identity_balance(st: &mut MaxBalance, token: u64, identity: u64, balance: i128) -> (r:
    Result<IDBalancePreSet, ComplianceModuleError>)
    ensures
        balance < 0 ==> r == Err::<IDBalancePreSet, _>(ComplianceModuleError::InvalidAmount) && final(st).view() == old(st).view(),
        balance >= 0 ==> r == Ok::<_, ComplianceModuleError>(IDBalancePreSet { token, identity, balance })
            && final(st).view() == old(st).view().with_balance(token, identity, balance),
{
    require_non_negative_amount(balance)?;
    set_id_balance(st, token, identity, balance);
    Ok(IDBalancePreSet { token, identity, balance })
}

/// Seeds the balances of several identities; the lists must be parallel
/// and every balance non-negative, else nothing is seeded.
pub fn batch_pre_set_identity_balances(
    st: &mut MaxBalance,
    token: u64,
    identities: &Vec<u64>,
    balances: &Vec<i128>,
) -> (r: Result<Vec<IDBalancePreSet>, ComplianceModuleError>)
    ensures
        identities.len() != balances.len() ==> r == Err::<Vec<IDBalancePreSet>, _>(
            ComplianceModuleError::VectorLengthMismatch,
        ) && final(st).view() == old(st).view(),
        identities.len() == balances.len() && (exists|i: int|
            0 <= i < balances.len() && #[trigger] balances@[i] < 0) ==> r == Err::<
            Vec<IDBalancePreSet>,
            _,
        >(ComplianceModuleError::InvalidAmount) && final(st).view() == old(st).view(),
        identities.len() == balances.len() && (forall|i: int|
            0 <= i < balances.len() ==> #[trigger] balances@[i] >= 0) ==> r is Ok && r->Ok_0@
            == pre_set_events(token, identities@, balances@) && final(st).view() == (MaxBalanceView {
            balances: batch_balances(
                old(st).view().balances,
                token,
                identities@,
                balances@,
                identities@.len(),
            ),
            ..old(st).view()
        }),
{
    if identities.len() != balances.len() {
        return Err(ComplianceModuleError::VectorLengthMismatch);
    }
    let n = identities.len();
    let mut i: usize = 0;
    while i < n
        invariant
            n == identities.len(),
            n == balances.len(),
            0 <= i <= n,
            forall|j: int| 0 <= j < i ==> #[trigger] balances@[j] >= 0,
        decreases n - i,
    {
        require_non_negative_amount(balances[i])?;
        i = i + 1;
    }
    let mut events: Vec<IDBalancePreSet> = Vec::new();
    let mut k: usize = 0;
    while k < n
        invariant
            n == identities.len(),
            n == balances.len(),
            0 <= k <= n,
            st.view() == (MaxBalanceView {
                balances: batch_balances(old(st).view().balances, token, identities@, balances@, k as nat),
                ..old(st).view()
            }),
            events@ == pre_set_events(token, identities@.take(k as int), balances@.take(k as int)),
        decreases n - k,
    {
        set_id_balance(st, token, identities[k], balances[k]);
        events.push(IDBalancePreSet { token, identity: identities[k], balance: balances[k] });
        assert(events@ =~= pre_set_events(
            token,
            identities@.take(k + 1),
            balances@.take(k + 1),
        ));
        k = k + 1;
    }
    assert(identities@.take(n as int) =~= identities@);
    assert(balances@.take(n as int) =~= balances@);
    Ok(events)
}

/// Records that identity `from_id` sent `amount` to identity `to_id`:
/// the recipient must stay within the cap.
pub fn on_transfer_with(
    st: &mut MaxBalance,
    from_id: u64,
    to_id: u64,
    amount: i128,
    token: u64,
    zero_is_unlimited: bool,
) -> (r: Result<(), ComplianceModuleError>)
    ensures
        match spec_on_transfer(old(st).view(), from_id, to_id, amount, token, zero_is_unlimited) {
            Ok(s) => r is Ok && final(st).view() == s,
            Err(e) => r == Err::<(), _>(e) && final(st).view() == old(st).view(),
        },
{
    require_non_negative_amount(amount)?;
    get_irs_client(&st.config, token)?;
    if from_id == to_id {
        return Ok(());
    }
    let from_balance = get_id_balance(st, token, from_id);
    if !can_increase_identity_balance(st, token, to_id, amount, zero_is_unlimited)? {
        return Err(ComplianceModuleError::MaxBalanceExceeded);
    }
    let to_balance = get_id_balance(st, token, to_id);
    let new_to_balance = checked_add_i128(to_balance, amount)?;
    let new_from_balance = checked_sub_i128(from_balance, amount)?;
    set_id_balance(st, token, from_id, new_from_balance);
    set_id_balance(st, token, to_id, new_to_balance);
    Ok(())
}

/// Records that `amount` was minted to identity `to_id`: the recipient
/// must stay within the cap.
pub fn on_created_with(st: &mut MaxBalance, to_id: u64, amount: i128, token: u64, zero_is_unlimited: bool) -> (r:
    Result<(), ComplianceModuleError>)
    ensures
        match spec_on_created(old(st).view(), to_id, amount, token, zero_is_unlimited) {
            Ok(s) => r is Ok && final(st).view() == s,
            Err(e) => r == Err::<(), _>(e) && final(st).view() == old(st).view(),
        },
{
    require_non_negative_amount(amount)?;
    get_irs_client(&st.config, token)?;
    if !can_increase_identity_balance(st, token, to_id, amount, zero_is_unlimited)? {
        return Err(ComplianceModuleError::MaxBalanceExceeded);
    }
    let current = get_id_balance(st, token, to_id);
    let new_balance = checked_add_i128(current, amount)?;
    set_id_balance(st, token, to_id, new_balance);
    Ok(())
}

/// Records that `amount` was burned from identity `from_id`.
pub fn on_destroyed_with(st: &mut MaxBalance, from_id: u64, amount: i128, token: u64) -> (r: Result<
    (),
    ComplianceModuleError,
>)
    ensures
        match spec_on_destroyed(old(st).view(), from_id, amount, token) {
            Ok(s) => r is Ok && final(st).view() == s,
            Err(e) => r == Err::<(), _>(e) && final(st).view() == old(st).view(),
        },
{
    require_non_negative_amount(amount)?;
    get_irs_client(&st.config, token)?;
    let current = get_id_balance(st, token, from_id);
    let new_balance = checked_sub_i128(current, amount)?;
    set_id_balance(st, token, from_id, new_balance);
    Ok(())
}

/// Whether identity `from_id` may send `amount` to identity `to_id`.
pub fn can_transfer_with(
    st: &MaxBalance,
    from_id: u64,
    to_id: u64,
    amount: i128,
    token: u64,
    zero_is_unlimited: bool,
) -> (r: Result<bool, ComplianceModuleError>)
    ensures
        r == spec_can_transfer(st.view(), from_id, to_id, amount, token, zero_is_unlimited),
{
    if !st.config.hooks_verified {
        return Err(ComplianceModuleError::HooksNotVerified);
    }
    if amount < 0 {
        return Ok(false);
    }
    get_irs_client(&st.config, token)?;
    if from_id == to_id {
        return Ok(true);
    }
    can_increase_identity_balance(st, token, to_id, amount, zero_is_unlimited)
}

/// Whether `amount` may be minted to identity `to_id`.
pub fn can_create_with(st: &MaxBalance, to_id: u64, amount: i128, token: u64, zero_is_unlimited: bool) -> (r:
    Result<bool, ComplianceModuleError>)
    ensures
        r == spec_can_create(st.view(), to_id, amount, token, zero_is_unlimited),
{
    if !st.config.hooks_verified {
        return Err(ComplianceModuleError::HooksNotVerified);
    }
    if amount < 0 {
        return Ok(false);
    }
    get_irs_client(&st.config, token)?;
    can_increase_identity_balance(st, token, to_id, amount, zero_is_unlimited)
}

/// The hooks this module must be registered on.
pub fn required_hooks() -> (r: Vec<ComplianceHook>)
    ensures
        r@ == required_hooks_seq(),
{
    vec![
        ComplianceHook::CanTransfer,
        ComplianceHook::CanCreate,
        ComplianceHook::Transferred,
        ComplianceHook::Created,
        ComplianceHook::Destroyed,
    ]
}

/// Verifies the hook wiring; `registered[i]` answers for the `i`-th hook
/// of [`required_hooks`].
pub fn verify_hook_wiring(st: &mut MaxBalance, registered: &Vec<bool>) -> (r: Result<(), ComplianceModuleError>)
    requires
        registered.len() == 5,
    ensures
        final(st).view().max == old(st).view().max,
        final(st).view().balances == old(st).view().balances,
        old(st).config.compliance is None ==> r is Ok && final(st).config == old(st).config,
        old(st).config.compliance is Some && all_registered(registered@) ==> r is Ok && final(st).config
            == (ModuleConfig { hooks_verified: true, ..old(st).config }),
        old(st).config.compliance is Some && !all_registered(registered@) ==> final(st).config == old(st).config && exists|i: int|
            first_unregistered(registered@, i) && r == Err::<(), _>(
                ComplianceModuleError::MissingRequiredHook(required_hooks_seq()[i]),
            ),
{
    let required = required_hooks();
    verify_required_hooks(&mut st.config, &required, registered)
}

impl MaxBalance {
    /// A fresh module at `module_address`, with no caps and no balances.
    pub fn new(module_address: u64) -> (m: Self)
        ensures
            m.view().max == Map::<u64, i128>::empty(),
            m.view().balances == Map::<(u64, u64), i128>::empty(),
            m.config.module_address == module_address,
            m.config.compliance is None,
            !m.config.hooks_verified,
            m.config.irs_view() == Map::<u64, u64>::empty(),
    {
        MaxBalance {
            config: ModuleConfig::new(module_address),
            max_balances: HashMap::new(),
            id_balances: PairMap::new(),
        }
    }

    /// Records `irs` as the identity registry of `token`.
    pub fn set_identity_registry_storage(&mut self, token: u64, irs: u64)
        ensures
            final(self).config.irs_view() == old(self).config.irs_view().insert(token, irs),
            final(self).config.module_address == old(self).config.module_address,
            final(self).config.compliance == old(self).config.compliance,
            final(self).config.hooks_verified == old(self).config.hooks_verified,
            final(self).view().max == old(self).view().max,
            final(self).view().balances == old(self).view().balances,
    {
        set_irs_address(&mut self.config, token, irs);
    }

    /// Sets the cap of `token` (0: no cap).
    pub fn set_max_balance(&mut self, token: u64, max: i128) -> (r: Result<MaxBalanceSet, ComplianceModuleError>)
        ensures
            max < 0 ==> r == Err::<MaxBalanceSet, _>(ComplianceModuleError::InvalidAmount) && final(self).view() == old(self).view(),
            max >= 0 ==> r == Ok::<_, ComplianceModuleError>(MaxBalanceSet { token, max_balance: max })
                && final(self).view() == (MaxBalanceView {
                max: old(self).view().max.insert(token, max),
                ..old(self).view()
            }),
    {
        configure_max_balance(self, token, max)
    }

    /// Seeds the balance of `identity`.
    pub fn pre_set_identity_balance(&mut self, token: u64, identity: u64, balance: i128) -> (r: Result<
        IDBalancePreSet,
        ComplianceModuleError,
    >)
        ensures
            balance < 0 ==> r == Err::<IDBalancePreSet, _>(ComplianceModuleError::InvalidAmount)
                && final(self).view() == old(self).view(),
            balance >= 0 ==> r == Ok::<_, ComplianceModuleError>(IDBalancePreSet { token, identity, balance })
                && final(self).view() == old(self).view().with_balance(token, identity, balance),
    {
        pre_set_identity_balance(self, token, identity, balance)
    }

    /// The cap of `token` (0 when unset).
    pub fn get_max_balance(&self, token: u64) -> (m: i128)
        ensures
            m == self.view().max_of(token),
    {
        get_max_balance(self, token)
    }

    /// The balance of `identity` in `token`.
    pub fn get_investor_balance(&self, token: u64, identity: u64) -> (b: i128)
        ensures
            b == self.view().balance_of(token, identity),
    {
        get_id_balance(self, token, identity)
    }

    /// Records a transfer between identities `from_id` and `to_id` (the
    /// identity registry's identities of the sender and recipient).
    pub fn on_transfer(&mut self, from_id: u64, to_id: u64, amount: i128, token: u64) -> (r: Result<
        (),
        ComplianceModuleError,
    >)
        ensures
            match spec_on_transfer(old(self).view(), from_id, to_id, amount, token, true) {
                Ok(s) => r is Ok && final(self).view() == s,
                Err(e) => r == Err::<(), _>(e) && final(self).view() == old(self).view(),
            },
    {
        on_transfer_with(self, from_id, to_id, amount, token, true)
    }

    /// Records a mint to identity `to_id`.
    pub fn on_created(&mut self, to_id: u64, amount: i128, token: u64) -> (r: Result<(), ComplianceModuleError>)
        ensures
            match spec_on_created(old(self).view(), to_id, amount, token, true) {
                Ok(s) => r is Ok && final(self).view() == s,
                Err(e) => r == Err::<(), _>(e) && final(self).view() == old(self).view(),
            },
    {
        on_created_with(self, to_id, amount, token, true)
    }

    /// Records a burn from identity `from_id`.
    pub fn on_destroyed(&mut self, from_id: u64, amount: i128, token: u64) -> (r: Result<(), ComplianceModuleError>)
        ensures
            match spec_on_destroyed(old(self).view(), from_id, amount, token) {
                Ok(s) => r is Ok && final(self).view() == s,
                Err(e) => r == Err::<(), _>(e) && final(self).view() == old(self).view(),
            },
    {
        on_destroyed_with(self, from_id, amount, token)
    }

    /// Whether identity `from_id` may send `amount` to identity `to_id`.
    pub fn can_transfer(&self, from_id: u64, to_id: u64, amount: i128, token: u64) -> (r: Result<
        bool,
        ComplianceModuleError,
    >)
        ensures
            r == spec_can_transfer(self.view(), from_id, to_id, amount, token, true),
    {
        can_transfer_with(self, from_id, to_id, amount, token, true)
    }

    /// Whether `amount` may be minted to identity `to_id`.
    pub fn can_create(&self, to_id: u64, amount: i128, token: u64) -> (r: Result<bool, ComplianceModuleError>)
        ensures
            r == spec_can_create(self.view(), to_id, amount, token, true),
    {
        can_create_with(self, to_id, amount, token, true)
    }

    /// The hooks this module must be registered on.
    pub fn required_hooks() -> (r: Vec<ComplianceHook>)
        ensures
            r@ == required_hooks_seq(),
    {
        required_hooks()
    }

    /// Verifies the hook wiring; `registered[i]` answers for the `i`-th
    /// hook of [`Self::required_hooks`].
    pub fn verify_hook_wiring(&mut self, registered: &Vec<bool>) -> (r: Result<(), ComplianceModuleError>)
        requires
            registered.len() == 5,
        ensures
            final(self).view().max == old(self).view().max,
            final(self).view().balances == old(self).view().balances,
            old(self).config.compliance is None ==> r is Ok && final(self).config == old(self).config,
            old(self).config.compliance is Some && all_registered(registered@) ==> r is Ok
                && final(self).config == (ModuleConfig { hooks_verified: true, ..old(self).config }),
            old(self).config.compliance is Some && !all_registered(registered@) ==> final(self).config
                == old(self).config && exists|i: int|
                first_unregistered(registered@, i) && r == Err::<(), _>(
                    ComplianceModuleError::MissingRequiredHook(required_hooks_seq()[i]),
                ),
    {
        verify_hook_wiring(self, registered)
    }

    /// The module's name.
    pub fn name() -> (s: String)
        ensures
            s@ == "MaxBalanceModule"@,
    {
        module_name("MaxBalanceModule")
    }

    /// The compliance contract's address, or the module's own while unset.
    pub fn get_compliance_address(&self) -> (a: u64)
        ensures
            a == spec_compliance_address(&self.config),
    {
        crate::compliance_modules::common::get_compliance_address(&self.config)
    }

    /// Binds the module to its compliance contract (one time only).
    pub fn set_compliance_address(&mut self, compliance: u64) -> (r: Result<(), ComplianceModuleError>)
        ensures
            old(self).config.compliance is Some ==> r == Err::<(), _>(
                ComplianceModuleError::ComplianceAddressAlreadySet,
            ) && *final(self) == *old(self),
            old(self).config.compliance is None ==> r is Ok && final(self).config == (ModuleConfig {
                compliance: Some(compliance),
                ..old(self).config
            }) && final(self).view().max == old(self).view().max && final(self).view().balances == old(self).view().balances,
    {
        crate::compliance_modules::common::set_compliance_address(&mut self.config, compliance)
    }
}

} // verus!
