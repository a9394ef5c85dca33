//! The transfer record and its per-record invariant.

use crate::schedule::{
    lemma_releasable_bounds, lemma_releasable_monotonic, releasable_amount, releasable_spec,
};
use vstd::prelude::*;

verus! {

/// Where a transfer stands in its life.  `Created` waits for activation,
/// `Executing` vests and admits claims, `Cancelled` and `Completed` are
/// terminal: no operation may touch a terminal transfer again.
#[derive(Clone, Copy, PartialEq, Eq, Structural, Debug)]
pub enum TransferStatus {
    Created,
    Executing,
    Cancelled,
    Completed,
}

/// One vested transfer: `sender` locked `total` of `token` for `recipient`
/// at time `start`, releasing along the schedule `(cliff, duration)`.
/// `claimed` is what the recipient has taken out so far.  When the sender
/// cancels, the amount vested at that moment is frozen in
/// `vested_at_cancel`: the recipient keeps that entitlement, the rest goes
/// back to the sender.
#[derive(Clone, Copy, PartialEq, Eq, Structural, Debug)]
pub struct Transfer {
    pub id: u64,
    pub sender: u64,
    pub recipient: u64,
    pub token: u64,
    pub total: u64,
    pub start: u64,
    pub cliff: u64,
    pub duration: u64,
    pub claimed: u64,
    pub vested_at_cancel: u64,
    pub status: TransferStatus,
}

/// The most the recipient may ever have claimed at time `now`: the frozen
/// vested amount once the transfer is cancelled, the releasable amount of
/// the schedule otherwise.
pub open spec fn claim_ceiling(t: Transfer, now: u64) -> int {
    if t.status is Cancelled {
        t.vested_at_cancel as int
    } else {
        releasable_spec(t.total, t.start, t.cliff, t.duration, now)
    }
}

/// What one transfer owes the recipient on a claim by `caller` at `now`:
/// everything vested and not yet taken, on an active or cancelled transfer
/// whose recipient is the caller; nothing otherwise.
pub open spec fn claimable_of(t: Transfer, caller: u64, now: u64) -> int {
    if t.recipient == caller && (t.status is Executing || t.status is Cancelled) {
        claim_ceiling(t, now) - t.claimed
    } else {
        0
    }
}

/// What a claim by `caller` at `now` leaves of one transfer: on an
/// eligible transfer the claimed amount rises to the ceiling, and an
/// active transfer whose total is fully vested and claimed completes.
/// Every other transfer is untouched.
pub open spec fn claim_step(t: Transfer, caller: u64, now: u64) -> Transfer {
    if t.recipient == caller && (t.status is Executing || t.status is Cancelled) {
        Transfer {
            claimed: claim_ceiling(t, now) as u64,
            status: if t.status is Executing && claim_ceiling(t, now) == t.total {
                TransferStatus::Completed
            } else {
                t.status
            },
            ..t
        }
    } else {
        t
    }
}

/// A transfer the ledger can hold at time `now`: the schedule is
/// non-degenerate, what was claimed never exceeds what had vested, a
/// transfer that was never executed has no claims, a completed one is fully
/// claimed, and the frozen vested amount is meaningful exactly on cancelled
/// transfers.
pub open spec fn wf_at(t: Transfer, now: u64) -> bool {
    &&& t.duration >= 1
    &&& t.claimed <= t.total
    &&& t.claimed as int <= claim_ceiling(t, now)
    &&& (t.status is Created ==> t.claimed == 0)
    &&& (t.status is Completed ==> t.claimed == t.total)
    &&& (t.status is Cancelled ==> t.vested_at_cancel <= t.total)
    &&& (!(t.status is Cancelled) ==> t.vested_at_cancel == 0)
}

/// The claim ceiling lies between the claimed amount and the total, at any
/// instant not before the last one the transfer was seen well-formed at.
pub proof fn lemma_ceiling_bounds(t: Transfer, seen: u64, now: u64)
    requires
        wf_at(t, seen),
        seen <= now,
    ensures
        t.claimed as int <= claim_ceiling(t, now) <= t.total as int,
{
    if t.status is Cancelled {
    } else {
        lemma_releasable_bounds(t.total, t.start, t.cliff, t.duration, now);
        lemma_releasable_monotonic(t.total, t.start, t.cliff, t.duration, seen, now);
    }
}

/// A transfer well-formed at one instant is well-formed at every later
/// instant: the claim ceiling only grows with time.
pub proof fn lemma_wf_at_advance(t: Transfer, seen: u64, now: u64)
    requires
        wf_at(t, seen),
        seen <= now,
    ensures
        wf_at(t, now),
{
    lemma_ceiling_bounds(t, seen, now);
}

impl Transfer {
    /// Computes the claim ceiling of this transfer at `now`, exactly as
    /// `claim_ceiling` states it.
    pub fn ceiling_at(&self, now: u64) -> (r: u64)
        requires
            self.duration >= 1,
        ensures
            r as int == claim_ceiling(*self, now),
    {
        match self.status {
            TransferStatus::Cancelled => self.vested_at_cancel,
            _ => releasable_amount(self.total, self.start, self.cliff, self.duration, now),
        }
    }
}

} // verus!
