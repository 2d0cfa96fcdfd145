//! The errors of the engine.

use crate::timestamp::Timestamp;
use crate::uint256::Uint256;
use vstd::prelude::*;

verus! {

/// Why a call was refused. Every error ends the call: nothing of what the
/// call computed is to be kept.
#[derive(Debug, PartialEq, Eq)]
pub enum ContractError {
    /// The caller may not make this call.
    Unauthorized {  },
    /// A transfer would take a rule beyond its capacity. `used` is the
    /// balance before the transfer, `max` the capacity, both in the
    /// direction of the transfer; `reset` is the end of the rule's window.
    RateLimitExceded {
        channel: String,
        denom: String,
        amount: Uint256,
        quota_name: String,
        used: Uint256,
        max: Uint256,
        reset: Timestamp,
    },
    /// A reset names a path or a quota that does not exist.
    QuotaNotFound { quota_id: String, channel_id: String, denom: String },
    /// More tokens than the bypass allows were to be transferred.
    InsufficientBypassAllowance,
    /// An intent for this sender, channel and denom is already there.
    IntentAlreadyPresent,
    /// No intent for this sender, channel and denom is there.
    IntentNotPresent,
    /// The amount is below the threshold, given in percent.
    InsufficientBypassAmount(u8),
}

} // verus!
