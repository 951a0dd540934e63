//! Time-windowed transfer limits (earlier generation): limits what each
//! identity may send of a token within configurable time windows. The
//! module itself is [`crate::compliance_modules::time_transfers_limits`].

pub use crate::compliance_modules::time_transfers_limits::{
    Limit, TimeTransferLimitRemoved, TimeTransferLimitUpdated, TimeTransfersLimits, TransferCounter,
    MAX_LIMITS_PER_TOKEN,
};
