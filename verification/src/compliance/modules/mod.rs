//! The earlier generation of the compliance module library.

pub mod country_allow;
pub mod initial_lockup_period;
pub mod max_balance;
pub mod supply_limit;
pub mod time_transfers_limits;
pub mod transfer_restrict;
