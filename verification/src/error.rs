//! The errors an invocation can abort with.  Every error rolls the whole
//! invocation back; the variants carry the structured diagnostic the caller
//! sees.

use vstd::prelude::*;

verus! {

/// Diagnostic attached to a rejected claim: the earliest time at which any
/// entry unlocks, and that entry's amount.
#[derive(Clone, Copy, Debug, PartialEq, Eq, Structural)]
pub struct EarliestUnlock {
    pub amount: u128,
    pub unlock_time_secs: u64,
}

/// Why an invocation was aborted.
#[derive(Clone, Debug, PartialEq, Eq)]
pub enum ProxyError {
    /// The caller is not allowed to perform this action.
    Unauthorized,
    /// A swap was attempted before the configured opening time.
    SwapNotOpen { opening_nanos: u64 },
    /// A reward claim was attempted before the configured opening time.
    ClaimWindowNotOpen { opening_nanos: u64 },
    /// A claim unlocked nothing: either the user has no entries at all, or
    /// none of them has matured yet (then the earliest unlock is reported).
    NoClaimableRewards { earliest: Option<EarliestUnlock> },
    /// A claim asked for more than the matured entries cover; `available` is
    /// the total that could have been unlocked.
    InsufficientClaimable { available: u128 },
    /// A dispatched sub-operation reported failure.
    SubOperationFailed { error: String },
}

} // verus!
