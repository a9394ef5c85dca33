//! The reasons a ledger operation can fail.

use vstd::prelude::*;

verus! {

/// Why an operation on the ledger was refused.  A failed operation leaves
/// the ledger exactly as it was: the host applies each call atomically, and
/// every operation validates all of its preconditions before mutating
/// anything.
#[derive(Clone, Copy, PartialEq, Eq, Structural, Debug)]
pub enum VestingError {
    /// No transfer carries the given id.
    NotFound,
    /// The caller may not perform the requested transition.
    Unauthorized,
    /// The transfer exists but is in a non-terminal state that does not
    /// admit the requested transition.
    InvalidState,
    /// The transfer is cancelled or completed; no further transition is
    /// permitted.
    AlreadyTerminal,
    /// The vesting parameters at creation are malformed: a zero amount, or
    /// a zero linear-release duration.
    InvalidSchedule,
    /// The escrow paid in at creation does not match the amount to lock.
    InsufficientFunds,
    /// The token custody refused to move the requested amount.  The ledger
    /// itself never raises this; the host surfaces it when escrow fails.
    TransferRejected,
}

} // verus!
