//! Properties of the max balance module: transfers move balances between
//! identities without creating or losing tokens, recipients stay within
//! the cap, and what the check admits the hooks record.

use super::{
    spec_can_create, spec_can_transfer, spec_on_created, spec_on_destroyed, spec_on_transfer,
    MaxBalanceView,
};
use crate::compliance_modules::common::fits_i128;
use crate::compliance_modules::ComplianceModuleError;
use vstd::prelude::*;

verus! {

/// Whether the cap of `token` applies under the rule `zero_is_unlimited`.
pub open spec fn cap_applies(s: MaxBalanceView, token: u64, zero_is_unlimited: bool) -> bool {
    !zero_is_unlimited || s.max_of(token) != 0
}

/// A transfer between distinct identities moves `amount` from one to the
/// other and leaves every other balance unchanged; between wallets of
/// one identity it changes nothing. The recipient ends within the cap.
pub proof fn law_transfer_moves_balances(
    s: MaxBalanceView,
    from_id: u64,
    to_id: u64,
    amount: i128,
    token: u64,
    zero_is_unlimited: bool,
)
    requires
        spec_on_transfer(s, from_id, to_id, amount, token, zero_is_unlimited) is Ok,
    ensures
        ({
            let s2 = spec_on_transfer(s, from_id, to_id, amount, token, zero_is_unlimited)->Ok_0;
            &&& from_id == to_id ==> s2 == s
            &&& from_id != to_id ==> s2.balance_of(token, from_id) == s.balance_of(token, from_id) - amount
                && s2.balance_of(token, to_id) == s.balance_of(token, to_id) + amount
                && s2.balance_of(token, from_id) + s2.balance_of(token, to_id) == s.balance_of(token, from_id)
                + s.balance_of(token, to_id)
            &&& forall|t: u64, d: u64|
                (t != token || (d != from_id && d != to_id)) ==> #[trigger] s2.balance_of(t, d)
                    == s.balance_of(t, d)
            &&& from_id != to_id && cap_applies(s, token, zero_is_unlimited) ==> s2.balance_of(token, to_id)
                <= s2.max_of(token)
            &&& s2.max == s.max
            &&& s2.config == s.config
        }),
{
}

/// A mint adds `amount` to the recipient identity, which ends within the
/// cap.
pub proof fn law_mint_respects_cap(s: MaxBalanceView, to_id: u64, amount: i128, token: u64, zero_is_unlimited: bool)
    requires
        spec_on_created(s, to_id, amount, token, zero_is_unlimited) is Ok,
    ensures
        ({
            let s2 = spec_on_created(s, to_id, amount, token, zero_is_unlimited)->Ok_0;
            &&& s2.balance_of(token, to_id) == s.balance_of(token, to_id) + amount
            &&& cap_applies(s, token, zero_is_unlimited) ==> s2.balance_of(token, to_id) <= s2.max_of(
                token,
            )
            &&& forall|t: u64, d: u64|
                (t != token || d != to_id) ==> #[trigger] s2.balance_of(t, d) == s.balance_of(t, d)
        }),
{
}

/// A transfer that the check admitted is recorded without refusal, as
/// long as the sender's balance does not leave the range of `i128`.
pub proof fn law_admitted_transfer_is_recorded(
    s: MaxBalanceView,
    from_id: u64,
    to_id: u64,
    amount: i128,
    token: u64,
    zero_is_unlimited: bool,
)
    requires
        spec_can_transfer(s, from_id, to_id, amount, token, zero_is_unlimited) == Ok::<bool, ComplianceModuleError>(true),
        fits_i128(s.balance_of(token, from_id) - amount),
        fits_i128(s.balance_of(token, to_id) + amount),
    ensures
        spec_on_transfer(s, from_id, to_id, amount, token, zero_is_unlimited) is Ok,
{
}

/// A mint that the check admitted is recorded without refusal, as long
/// as the recipient's balance stays within the range of `i128`.
pub proof fn law_admitted_mint_is_recorded(s: MaxBalanceView, to_id: u64, amount: i128, token: u64, zero_is_unlimited: bool)
    requires
        spec_can_create(s, to_id, amount, token, zero_is_unlimited) == Ok::<bool, ComplianceModuleError>(true),
        fits_i128(s.balance_of(token, to_id) + amount),
    ensures
        spec_on_created(s, to_id, amount, token, zero_is_unlimited) is Ok,
{
}

/// Burning what was just minted to an identity restores its balance.
pub proof fn law_burn_undoes_mint(s: MaxBalanceView, id: u64, amount: i128, token: u64, zero_is_unlimited: bool)
    requires
        spec_on_created(s, id, amount, token, zero_is_unlimited) is Ok,
    ensures
        spec_on_destroyed(spec_on_created(s, id, amount, token, zero_is_unlimited)->Ok_0, id, amount, token) is Ok,
        spec_on_destroyed(spec_on_created(s, id, amount, token, zero_is_unlimited)->Ok_0, id, amount, token)->Ok_0.balance_of(token, id)
            == s.balance_of(token, id),
{
}

/// A transfer between distinct identities that the hook would record
/// without refusal is admitted by the check, once the hooks are verified.
pub proof fn law_recordable_transfer_is_admitted(
    s: MaxBalanceView,
    from_id: u64,
    to_id: u64,
    amount: i128,
    token: u64,
    zero_is_unlimited: bool,
)
    requires
        s.config.hooks_verified,
        from_id != to_id,
        spec_on_transfer(s, from_id, to_id, amount, token, zero_is_unlimited) is Ok,
    ensures
        spec_can_transfer(s, from_id, to_id, amount, token, zero_is_unlimited) == Ok::<bool, ComplianceModuleError>(true),
{
}

/// Between distinct identities the transfer check answers as the mint
/// check does for the recipient: the cap rule is the same for both.
pub proof fn law_transfer_check_agrees_with_mint_check(
    s: MaxBalanceView,
    from_id: u64,
    to_id: u64,
    amount: i128,
    token: u64,
    zero_is_unlimited: bool,
)
    requires
        from_id != to_id,
    ensures
        spec_can_transfer(s, from_id, to_id, amount, token, zero_is_unlimited) == spec_can_create(
            s,
            to_id,
            amount,
            token,
            zero_is_unlimited,
        ),
{
}

/// Where a cap of 0 means no cap, a token without a cap admits every
/// non-negative transfer and mint once the hooks are verified and the
/// identity registry is set.
pub proof fn law_no_cap_admits_everything(s: MaxBalanceView, from_id: u64, to_id: u64, amount: i128, token: u64)
    requires
        s.config.hooks_verified,
        s.config.irs_view().contains_key(token),
        s.max_of(token) == 0,
        amount >= 0,
    ensures
        spec_can_transfer(s, from_id, to_id, amount, token, true) == Ok::<bool, ComplianceModuleError>(true),
        spec_can_create(s, to_id, amount, token, true) == Ok::<bool, ComplianceModuleError>(true),
{
}

/// With a cap that applies, a transfer between distinct identities is
/// admitted exactly when the recipient's new balance stays within it.
pub proof fn law_transfer_admitted_iff_within_cap(
    s: MaxBalanceView,
    from_id: u64,
    to_id: u64,
    amount: i128,
    token: u64,
    zero_is_unlimited: bool,
)
    requires
        s.config.hooks_verified,
        s.config.irs_view().contains_key(token),
        from_id != to_id,
        amount >= 0,
        cap_applies(s, token, zero_is_unlimited),
        fits_i128(s.balance_of(token, to_id) + amount),
    ensures
        spec_can_transfer(s, from_id, to_id, amount, token, zero_is_unlimited) == Ok::<bool, ComplianceModuleError>(
            s.balance_of(token, to_id) + amount <= s.max_of(token),
        ),
{
}

} // verus!
