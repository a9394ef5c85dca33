//! A vested-token-transfer ledger.
//!
//! One party locks a quantity of a fungible token for a beneficiary; the
//! token is released along a time-based vesting schedule (a cliff followed
//! by a linear window).  Either party may act on a transfer according to a
//! fixed state machine: the sender creates and may cancel, the recipient
//! claims what has vested.  The ledger keeps exact, overflow-safe token
//! accounting across arbitrarily many transfers sharing one store.
//!
//! The host environment (caller identity, transaction timestamps, token
//! custody) is outside this crate: every operation takes the caller and the
//! current timestamp as plain values, and returns the amounts the host must
//! pay out.  The host processes transactions one at a time and applies each
//! operation atomically; timestamps it hands in never decrease.

pub mod datatypes;
pub mod errors;
pub mod ledger;
pub mod schedule;
pub mod transfer;
