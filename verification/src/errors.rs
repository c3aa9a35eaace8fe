//! Error taxonomy shared by all components.

use vstd::prelude::*;

verus! {

/// Every failure a core operation can report. Each failure aborts the
/// enclosing operation with zero state mutation; callers may retry once the
/// triggering condition has changed.
#[derive(Clone, Copy, Debug, PartialEq, Eq, Structural)]
pub enum Error {
    /// A deposit amount outside the configured `[min_deposit, max_deposit]`.
    InvalidAmount,
    /// A withdrawal of more than the participant's balance.
    InsufficientBalance,
    /// A non-admin identity calling an admin-only operation.
    Unauthorized,
    /// Asset weights that do not sum to exactly 10000 basis points,
    /// supplied to an allocation update.
    InvalidAllocation,
    /// Target weights that do not sum to exactly 10000 basis points,
    /// supplied to a rebalance call.
    InvalidTargetAllocation,
    /// A rebalance attempted before `rebalance_frequency` seconds have
    /// passed since the last one.
    RebalanceTooSoon,
    /// A price refresh attempted before `update_frequency` seconds have
    /// passed since the last one.
    UpdateTooSoon,
    /// A fixed-point multiply or add that leaves the representable range.
    ArithmeticOverflow,
}

} // verus!
