//! The ledger: durable store of transfers, balance accounting, and the
//! state machine over create / execute / cancel / claim.
//!
//! Every operation takes the caller and the host's transaction timestamp as
//! plain values.  The host hands timestamps in non-decreasing order and
//! applies each operation atomically; an operation that fails leaves the
//! ledger untouched.

use crate::errors::VestingError;
use crate::schedule::{lemma_releasable_bounds, lemma_releasable_monotonic, releasable_spec};
use crate::transfer::{
    claim_ceiling, claim_step, claimable_of, lemma_ceiling_bounds, lemma_wf_at_advance, wf_at,
    Transfer, TransferStatus,
};
use vstd::prelude::*;

verus! {

/// What a cancelled transfer has returned to its sender: the part that had
/// not vested when the sender cancelled.  Zero for every other status.
pub open spec fn refunded(t: Transfer) -> int {
    if t.status is Cancelled {
        t.total - t.vested_at_cancel
    } else {
        0
    }
}

/// What of one transfer's deposit the ledger still holds in custody:
/// the total, less what the recipient claimed, less what went back to the
/// sender on cancellation.
pub open spec fn remaining(t: Transfer) -> int {
    t.total - t.claimed - refunded(t)
}

/// The sum of the totals of a sequence of transfers: everything ever
/// deposited into their custody.
pub open spec fn sum_total(s: Seq<Transfer>) -> int
    decreases s.len(),
{
    if s.len() == 0 {
        0
    } else {
        sum_total(s.drop_last()) + s.last().total
    }
}

/// The sum of what a sequence of transfers still holds in custody.
pub open spec fn sum_remaining(s: Seq<Transfer>) -> int
    decreases s.len(),
{
    if s.len() == 0 {
        0
    } else {
        sum_remaining(s.drop_last()) + remaining(s.last())
    }
}

/// What a claim by `caller` at `now` pays out over a sequence of transfers.
pub open spec fn sum_claimable(s: Seq<Transfer>, caller: u64, now: u64) -> int
    decreases s.len(),
{
    if s.len() == 0 {
        0
    } else {
        sum_claimable(s.drop_last(), caller, now) + claimable_of(s.last(), caller, now)
    }
}

pub proof fn lemma_sum_total_push(s: Seq<Transfer>, t: Transfer)
    ensures
        sum_total(s.push(t)) == sum_total(s) + t.total,
{
    assert(s.push(t).drop_last() =~= s);
}

pub proof fn lemma_sum_remaining_push(s: Seq<Transfer>, t: Transfer)
    ensures
        sum_remaining(s.push(t)) == sum_remaining(s) + remaining(t),
{
    assert(s.push(t).drop_last() =~= s);
}

pub proof fn lemma_sum_total_update(s: Seq<Transfer>, i: int, t: Transfer)
    requires
        0 <= i < s.len(),
    ensures
        sum_total(s.update(i, t)) == sum_total(s) - s[i].total + t.total,
    decreases s.len(),
{
    if i == s.len() - 1 {
        assert(s.update(i, t).drop_last() =~= s.drop_last());
    } else {
        assert(s.update(i, t).drop_last() =~= s.drop_last().update(i, t));
        lemma_sum_total_update(s.drop_last(), i, t);
    }
}

pub proof fn lemma_sum_remaining_update(s: Seq<Transfer>, i: int, t: Transfer)
    requires
        0 <= i < s.len(),
    ensures
        sum_remaining(s.update(i, t)) == sum_remaining(s) - remaining(s[i]) + remaining(t),
    decreases s.len(),
{
    if i == s.len() - 1 {
        assert(s.update(i, t).drop_last() =~= s.drop_last());
    } else {
        assert(s.update(i, t).drop_last() =~= s.drop_last().update(i, t));
        lemma_sum_remaining_update(s.drop_last(), i, t);
    }
}

/// Everything deposited over a sequence of transfers is non-negative and
/// fits well under the aggregate counters' width.
pub proof fn lemma_sum_total_bound(s: Seq<Transfer>)
    ensures
        0 <= sum_total(s) <= s.len() * (u64::MAX as int),
    decreases s.len(),
{
    if s.len() != 0 {
        lemma_sum_total_bound(s.drop_last());
        assert((s.len() - 1) * (u64::MAX as int) + (u64::MAX as int) == s.len() * (
        u64::MAX as int)) by (nonlinear_arith);
    }
}

/// Under the per-record invariant, what each transfer still holds is
/// non-negative, so the sum is too.
pub proof fn lemma_sum_remaining_nonneg(s: Seq<Transfer>, now: u64)
    requires
        forall|i: int| 0 <= i < s.len() ==> wf_at(#[trigger] s[i], now),
    ensures
        sum_remaining(s) >= 0,
    decreases s.len(),
{
    if s.len() != 0 {
        lemma_sum_remaining_nonneg(s.drop_last(), now);
    }
}

/// What one transfer contributes to an address's locked balance: the
/// unclaimed part of a non-terminal transfer to that recipient.
pub open spec fn locked_of(t: Transfer, address: u64) -> int {
    if t.recipient == address && (t.status is Created || t.status is Executing) {
        t.total - t.claimed
    } else {
        0
    }
}

/// What one transfer contributes to an address's available balance: what
/// that recipient has already claimed out of custody.
pub open spec fn available_of(t: Transfer, address: u64) -> int {
    if t.recipient == address {
        t.claimed as int
    } else {
        0
    }
}

/// The unclaimed remainder locked for `address` over a sequence of
/// transfers.
pub open spec fn sum_locked(s: Seq<Transfer>, address: u64) -> int
    decreases s.len(),
{
    if s.len() == 0 {
        0
    } else {
        sum_locked(s.drop_last(), address) + locked_of(s.last(), address)
    }
}

/// Everything `address` has already claimed, over a sequence of transfers.
pub open spec fn sum_available(s: Seq<Transfer>, address: u64) -> int
    decreases s.len(),
{
    if s.len() == 0 {
        0
    } else {
        sum_available(s.drop_last(), address) + available_of(s.last(), address)
    }
}

/// The transfers of a sequence whose recipient is `address`, in order.
pub open spec fn filtered_for(s: Seq<Transfer>, address: u64) -> Seq<Transfer>
    decreases s.len(),
{
    if s.len() == 0 {
        Seq::empty()
    } else if s.last().recipient == address {
        filtered_for(s.drop_last(), address).push(s.last())
    } else {
        filtered_for(s.drop_last(), address)
    }
}

/// One address's balance aggregate: `locked` is the unclaimed remainder of
/// its non-terminal transfers, `claimable` what a claim right now would pay
/// (vested and not yet taken, on active and on cancelled transfers), and
/// `available` everything already paid out to it through claims.
#[derive(Clone, Copy, PartialEq, Eq, Structural, Debug)]
pub struct AddressBalance {
    pub locked: u128,
    pub claimable: u128,
    pub available: u128,
}

/// The ledger: every transfer ever created (indexed by its id), the last
/// transaction timestamp it acted at, and two running totals that witness
/// token conservation: everything deposited at creation, and everything
/// paid back out through claims and cancel refunds.
pub struct Ledger {
    pub transfers: Vec<Transfer>,
    pub last_time: u64,
    pub deposited: u128,
    pub paid_out: u128,
}

impl Ledger {
    /// The ledger's invariant: every record is well-formed at the last
    /// acted-at time, ids are assigned in creation order, and the books
    /// balance: deposited = paid out + still held in custody.
    pub open spec fn wf(self) -> bool {
        &&& forall|i: int|
            0 <= i < self.transfers@.len() ==> wf_at(#[trigger] self.transfers@[i], self.last_time)
        &&& forall|i: int|
            0 <= i < self.transfers@.len() ==> (#[trigger] self.transfers@[i]).id == i as u64
        &&& self.deposited as int == sum_total(self.transfers@)
        &&& self.deposited as int == self.paid_out as int + sum_remaining(self.transfers@)
    }

    /// Whether a transfer with this id exists.
    pub open spec fn has(self, id: u64) -> bool {
        (id as int) < self.transfers@.len()
    }

    /// The transfer with this id.
    pub open spec fn at(self, id: u64) -> Transfer
        recommends
            self.has(id),
    {
        self.transfers@[id as int]
    }

    /// An empty ledger: no transfers, nothing deposited, nothing paid out.
    pub fn new() -> (l: Ledger)
        ensures
            l.wf(),
            l.transfers@.len() == 0,
            l.last_time == 0,
            l.deposited == 0,
            l.paid_out == 0,
    {
        Ledger { transfers: Vec::new(), last_time: 0, deposited: 0, paid_out: 0 }
    }

    /// The record a successful creation appends: a `Created` transfer with
    /// nothing claimed yet, vesting from the moment of creation.
    pub open spec fn created_transfer(
        id: u64,
        sender: u64,
        recipient: u64,
        token: u64,
        amount: u64,
        start: u64,
        cliff: u64,
        duration: u64,
    ) -> Transfer {
        Transfer {
            id,
            sender,
            recipient,
            token,
            total: amount,
            start,
            cliff,
            duration,
            claimed: 0,
            vested_at_cancel: 0,
            status: TransferStatus::Created,
        }
    }

    /// Locks `amount` of `token` for `recipient`, vesting from `now` along
    /// the schedule `(cliff, duration)`.  `deposit` is what the caller
    /// escrowed into custody with the call; creation demands the exact
    /// amount.  Returns the new transfer's id; a rejected creation leaves
    /// the ledger untouched.
    pub fn create_transfer(
        &mut self,
        caller: u64,
        recipient: u64,
        token: u64,
        amount: u64,
        cliff: u64,
        duration: u64,
        deposit: u64,
        now: u64,
    ) -> (r: Result<u64, VestingError>)
        requires
            old(self).wf(),
            now >= old(self).last_time,
        ensures
            final(self).wf(),
            r is Ok <==> (amount >= 1 && duration >= 1 && deposit == amount),
            (amount == 0 || duration == 0) ==> r == Err::<u64, VestingError>(
                VestingError::InvalidSchedule,
            ),
            (amount >= 1 && duration >= 1 && deposit != amount) ==> r == Err::<u64, VestingError>(
                VestingError::InsufficientFunds,
            ),
            r is Err ==> *final(self) == *old(self),
            r matches Ok(id) ==> {
                &&& id as int == old(self).transfers@.len()
                &&& final(self).transfers@ == old(self).transfers@.push(
                    Ledger::created_transfer(
                        id,
                        caller,
                        recipient,
                        token,
                        amount,
                        now,
                        cliff,
                        duration,
                    ),
                )
                &&& final(self).last_time == now
                &&& final(self).deposited == old(self).deposited + amount
                &&& final(self).paid_out == old(self).paid_out
            },
    {
        if amount == 0 || duration == 0 {
            return Err(VestingError::InvalidSchedule);
        }
        if deposit != amount {
            return Err(VestingError::InsufficientFunds);
        }
        let n = self.transfers.len();
        let id = n as u64;
        let t = Transfer {
            id,
            sender: caller,
            recipient,
            token,
            total: amount,
            start: now,
            cliff,
            duration,
            claimed: 0,
            vested_at_cancel: 0,
            status: TransferStatus::Created,
        };
        proof {
            lemma_sum_total_bound(self.transfers@);
            assert((n + 1) * (u64::MAX as int) < u128::MAX as int) by (nonlinear_arith)
                requires
                    n <= u64::MAX,
            ;
            assert(n * (u64::MAX as int) + (u64::MAX as int) == (n + 1) * (u64::MAX as int))
                by (nonlinear_arith);
            lemma_sum_total_push(self.transfers@, t);
            lemma_sum_remaining_push(self.transfers@, t);
            lemma_releasable_bounds(amount, now, cliff, duration, now);
            lemma_wf_all_advance(self.transfers@, self.last_time, now);
        }
        self.transfers.push(t);
        self.deposited = self.deposited + amount as u128;
        self.last_time = now;
        Ok(id)
    }

    /// Activates a `Created` transfer so that claims become possible.
    /// Only the sender may activate.  No balance changes.
    pub fn execute_transfer(&mut self, caller: u64, id: u64, now: u64) -> (r: Result<
        (),
        VestingError,
    >)
        requires
            old(self).wf(),
            now >= old(self).last_time,
        ensures
            final(self).wf(),
            !old(self).has(id) ==> r == Err::<(), VestingError>(VestingError::NotFound),
            old(self).has(id) && caller != old(self).at(id).sender ==> r == Err::<(),
                VestingError,
            >(VestingError::Unauthorized),
            old(self).has(id) && caller == old(self).at(id).sender && (old(self).at(id).status
                is Cancelled || old(self).at(id).status is Completed) ==> r == Err::<(),
                VestingError,
            >(VestingError::AlreadyTerminal),
            old(self).has(id) && caller == old(self).at(id).sender && old(self).at(id).status
                is Executing ==> r == Err::<(), VestingError>(VestingError::InvalidState),
            r is Err ==> *final(self) == *old(self),
            r is Ok <==> (old(self).has(id) && caller == old(self).at(id).sender && old(self).at(
                id,
            ).status is Created),
            r is Ok ==> {
                &&& final(self).transfers@ == old(self).transfers@.update(
                    id as int,
                    (Transfer { status: TransferStatus::Executing, ..old(self).at(id) }),
                )
                &&& final(self).last_time == now
                &&& final(self).deposited == old(self).deposited
                &&& final(self).paid_out == old(self).paid_out
            },
    {
        if id >= self.transfers.len() as u64 {
            return Err(VestingError::NotFound);
        }
        let t = self.transfers[id as usize];
        if caller != t.sender {
            return Err(VestingError::Unauthorized);
        }
        match t.status {
            TransferStatus::Cancelled | TransferStatus::Completed => {
                return Err(VestingError::AlreadyTerminal);
            },
            TransferStatus::Executing => {
                return Err(VestingError::InvalidState);
            },
            TransferStatus::Created => {},
        }
        let t2 = Transfer { status: TransferStatus::Executing, ..t };
        proof {
            lemma_sum_total_update(self.transfers@, id as int, t2);
            lemma_sum_remaining_update(self.transfers@, id as int, t2);
            lemma_wf_all_advance(self.transfers@, self.last_time, now);
            lemma_releasable_bounds(t2.total, t2.start, t2.cliff, t2.duration, now);
        }
        self.transfers.set(id as usize, t2);
        self.last_time = now;
        Ok(())
    }

    /// The record a cancellation at `now` leaves behind: the vested amount
    /// is frozen as the recipient's remaining entitlement, and the status
    /// becomes terminal.
    pub open spec fn cancelled_transfer(t: Transfer, now: u64) -> Transfer {
        Transfer {
            status: TransferStatus::Cancelled,
            vested_at_cancel: releasable_spec(t.total, t.start, t.cliff, t.duration, now) as u64,
            ..t
        }
    }

    /// Cancels a non-terminal transfer.  Only the sender may cancel.  What
    /// had vested by `now` but was not yet claimed stays claimable by the
    /// recipient; the unvested rest is the returned refund, which the host
    /// pays back to the sender.
    pub fn cancel_transfer(&mut self, caller: u64, id: u64, now: u64) -> (r: Result<
        u64,
        VestingError,
    >)
        requires
            old(self).wf(),
            now >= old(self).last_time,
        ensures
            final(self).wf(),
            !old(self).has(id) ==> r == Err::<u64, VestingError>(VestingError::NotFound),
            old(self).has(id) && caller != old(self).at(id).sender ==> r == Err::<u64,
                VestingError,
            >(VestingError::Unauthorized),
            old(self).has(id) && caller == old(self).at(id).sender && (old(self).at(id).status
                is Cancelled || old(self).at(id).status is Completed) ==> r == Err::<u64,
                VestingError,
            >(VestingError::AlreadyTerminal),
            r is Err ==> *final(self) == *old(self),
            r is Ok <==> (old(self).has(id) && caller == old(self).at(id).sender && (old(self).at(
                id,
            ).status is Created || old(self).at(id).status is Executing)),
            r matches Ok(refund) ==> {
                &&& refund as int == old(self).at(id).total as int - releasable_spec(
                    old(self).at(id).total,
                    old(self).at(id).start,
                    old(self).at(id).cliff,
                    old(self).at(id).duration,
                    now,
                )
                &&& final(self).transfers@ == old(self).transfers@.update(
                    id as int,
                    Ledger::cancelled_transfer(old(self).at(id), now),
                )
                &&& final(self).last_time == now
                &&& final(self).deposited == old(self).deposited
                &&& final(self).paid_out == old(self).paid_out + refund
            },
    {
        if id >= self.transfers.len() as u64 {
            return Err(VestingError::NotFound);
        }
        let t = self.transfers[id as usize];
        if caller != t.sender {
            return Err(VestingError::Unauthorized);
        }
        match t.status {
            TransferStatus::Cancelled | TransferStatus::Completed => {
                return Err(VestingError::AlreadyTerminal);
            },
            _ => {},
        }
        let vested = crate::schedule::releasable_amount(t.total, t.start, t.cliff, t.duration, now);
        proof {
            lemma_releasable_bounds(t.total, t.start, t.cliff, t.duration, now);
            lemma_releasable_monotonic(t.total, t.start, t.cliff, t.duration, self.last_time, now);
        }
        let refund = t.total - vested;
        let t2 = Transfer {
            status: TransferStatus::Cancelled,
            vested_at_cancel: vested,
            ..t
        };
        proof {
            lemma_sum_total_update(self.transfers@, id as int, t2);
            lemma_sum_remaining_update(self.transfers@, id as int, t2);
            lemma_wf_all_advance(self.transfers@, self.last_time, now);
            lemma_sum_remaining_nonneg(self.transfers@.update(id as int, t2), now);
        }
        self.transfers.set(id as usize, t2);
        self.paid_out = self.paid_out + refund as u128;
        self.last_time = now;
        Ok(refund)
    }

    /// Pays the caller everything vested and not yet claimed across all
    /// transfers of which the caller is the recipient: active ones, and
    /// cancelled ones with a frozen entitlement left.  Returns the amount
    /// paid out this call, which the host transfers to the caller; a call
    /// with nothing claimable succeeds and returns zero.  A transfer whose
    /// total becomes fully claimed completes.
    pub fn claim_balances(&mut self, caller: u64, now: u64) -> (r: u128)
        requires
            old(self).wf(),
            now >= old(self).last_time,
        ensures
            final(self).wf(),
            r as int == sum_claimable(old(self).transfers@, caller, now),
            final(self).transfers@.len() == old(self).transfers@.len(),
            forall|i: int|
                0 <= i < old(self).transfers@.len() ==> final(self).transfers@[i] == claim_step(
                    #[trigger] old(self).transfers@[i],
                    caller,
                    now,
                ),
            final(self).last_time == now,
            final(self).deposited == old(self).deposited,
            final(self).paid_out == old(self).paid_out + r,
    {
        let ghost s = self.transfers@;
        let ghost seen = self.last_time;
        let n = self.transfers.len();
        let mut updated: Vec<Transfer> = Vec::new();
        let mut paid: u128 = 0;
        let mut i: usize = 0;
        while i < n
            invariant
                i <= n,
                self.transfers@ == s,
                self.last_time == seen,
                n == s.len(),
                now >= seen,
                forall|j: int| 0 <= j < s.len() ==> wf_at(#[trigger] s[j], seen),
                forall|j: int| 0 <= j < s.len() ==> (#[trigger] s[j]).id == j as u64,
                updated@.len() == i,
                forall|j: int|
                    0 <= j < i ==> updated@[j] == claim_step(#[trigger] s[j], caller, now),
                forall|j: int| 0 <= j < i ==> wf_at(#[trigger] updated@[j], now),
                paid as int == sum_claimable(s.take(i as int), caller, now),
                paid as int <= i as int * (u64::MAX as int),
                sum_total(updated@) == sum_total(s.take(i as int)),
                sum_remaining(updated@) == sum_remaining(s.take(i as int)) - paid,
            decreases n - i,
        {
            let t = self.transfers[i];
            let ghost prev = updated@;
            let mut t2 = t;
            let mut delta: u64 = 0;
            if t.recipient == caller && (t.status == TransferStatus::Executing || t.status
                == TransferStatus::Cancelled) {
                proof {
                    lemma_ceiling_bounds(t, seen, now);
                }
                let ceil = t.ceiling_at(now);
                delta = ceil - t.claimed;
                let status = if t.status == TransferStatus::Executing && ceil == t.total {
                    TransferStatus::Completed
                } else {
                    t.status
                };
                t2 = Transfer { claimed: ceil, status, ..t };
            }
            proof {
                assert(t == s[i as int]);
                lemma_wf_at_advance(t, seen, now);
                lemma_sum_total_push(prev, t2);
                lemma_sum_remaining_push(prev, t2);
            }
            updated.push(t2);
            paid = paid + delta as u128;
            i = i + 1;
            proof {
                assert(s.take(i as int).drop_last() =~= s.take(i as int - 1));
                assert(s.take(i as int).last() == s[i as int - 1]);
            }
        }
        proof {
            assert(s.take(n as int) =~= s);
            lemma_sum_remaining_nonneg(updated@, now);
            assert forall|j: int| 0 <= j < updated@.len() implies (#[trigger] updated@[j]).id == j
                as u64 by {
                assert(updated@[j] == claim_step(s[j], caller, now));
            };
        }
        self.transfers = updated;
        self.paid_out = self.paid_out + paid;
        self.last_time = now;
        paid
    }

    /// The balance aggregate of one address at `now`, recomputed by a full
    /// scan of the transfers, so a read always reconciles with the stored
    /// records.
    pub fn get_address_balances(&self, address: u64, now: u64) -> (b: AddressBalance)
        requires
            self.wf(),
            now >= self.last_time,
        ensures
            b.locked as int == sum_locked(self.transfers@, address),
            b.claimable as int == sum_claimable(self.transfers@, address, now),
            b.available as int == sum_available(self.transfers@, address),
    {
        let ghost s = self.transfers@;
        let n = self.transfers.len();
        let mut locked: u128 = 0;
        let mut claimable: u128 = 0;
        let mut available: u128 = 0;
        let mut i: usize = 0;
        while i < n
            invariant
                i <= n,
                n == s.len(),
                s == self.transfers@,
                self.wf(),
                now >= self.last_time,
                locked as int == sum_locked(s.take(i as int), address),
                locked as int <= i as int * (u64::MAX as int),
                claimable as int == sum_claimable(s.take(i as int), address, now),
                claimable as int <= i as int * (u64::MAX as int),
                available as int == sum_available(s.take(i as int), address),
                available as int <= i as int * (u64::MAX as int),
            decreases n - i,
        {
            let t = self.transfers[i];
            proof {
                assert(t == s[i as int]);
                lemma_ceiling_bounds(t, self.last_time, now);
            }
            if t.recipient == address {
                if t.status == TransferStatus::Created || t.status == TransferStatus::Executing {
                    locked = locked + (t.total - t.claimed) as u128;
                }
                if t.status == TransferStatus::Executing || t.status == TransferStatus::Cancelled {
                    let ceil = t.ceiling_at(now);
                    claimable = claimable + (ceil - t.claimed) as u128;
                }
                available = available + t.claimed as u128;
            }
            i = i + 1;
            proof {
                assert(s.take(i as int).drop_last() =~= s.take(i as int - 1));
                assert(s.take(i as int).last() == s[i as int - 1]);
            }
        }
        proof {
            assert(s.take(n as int) =~= s);
        }
        AddressBalance { locked, claimable, available }
    }

    /// A snapshot of the stored transfer records, in id order: all of them,
    /// or only those to one recipient.
    pub fn get_transfers(&self, filter: Option<u64>) -> (r: Vec<Transfer>)
        ensures
            filter is None ==> r@ == self.transfers@,
            filter matches Some(address) ==> r@ == filtered_for(self.transfers@, address),
    {
        let ghost s = self.transfers@;
        let n = self.transfers.len();
        let mut out: Vec<Transfer> = Vec::new();
        let mut i: usize = 0;
        while i < n
            invariant
                i <= n,
                n == s.len(),
                s == self.transfers@,
                filter is None ==> out@ == s.take(i as int),
                filter matches Some(address) ==> out@ == filtered_for(s.take(i as int), address),
            decreases n - i,
        {
            let t = self.transfers[i];
            let keep = match filter {
                Option::None => true,
                Option::Some(address) => t.recipient == address,
            };
            if keep {
                out.push(t);
            }
            i = i + 1;
            proof {
                assert(t == s[i as int - 1]);
                assert(s.take(i as int).drop_last() =~= s.take(i as int - 1));
                assert(s.take(i as int).last() == s[i as int - 1]);
            }
        }
        proof {
            assert(s.take(n as int) =~= s);
        }
        out
    }
}

/// For every transfer a well-formed ledger holds, and at every instant not
/// before the ledger last acted, what has been claimed never exceeds what
/// the schedule has released, which never exceeds the transfer's total.
pub proof fn lemma_claimed_within_releasable(l: Ledger, i: int, now: u64)
    requires
        l.wf(),
        0 <= i < l.transfers@.len(),
        now >= l.last_time,
    ensures
        l.transfers@[i].claimed as int <= claim_ceiling(l.transfers@[i], now),
        claim_ceiling(l.transfers@[i], now) <= l.transfers@[i].total as int,
{
    lemma_ceiling_bounds(l.transfers@[i], l.last_time, now);
}

/// Token conservation: everything deposited at creation equals everything
/// paid out through claims and cancel refunds, plus what the ledger still
/// holds in custody.  What is held is never negative, a completed transfer
/// holds nothing, and what a cancelled one holds is exactly the vested
/// entitlement its recipient has not yet claimed.
pub proof fn lemma_token_conservation(l: Ledger)
    requires
        l.wf(),
    ensures
        l.deposited as int == sum_total(l.transfers@),
        l.deposited as int == l.paid_out as int + sum_remaining(l.transfers@),
        sum_remaining(l.transfers@) >= 0,
        forall|i: int|
            0 <= i < l.transfers@.len() ==> remaining(#[trigger] l.transfers@[i]) == (
            if l.transfers@[i].status is Completed {
                0
            } else if l.transfers@[i].status is Cancelled {
                l.transfers@[i].vested_at_cancel - l.transfers@[i].claimed
            } else {
                l.transfers@[i].total - l.transfers@[i].claimed
            }),
{
    lemma_sum_remaining_nonneg(l.transfers@, l.last_time);
}

/// Cancelling a non-terminal transfer splits its unclaimed remainder
/// exactly in two: the unvested part goes back to the sender as the
/// refund, and the vested-but-unclaimed part stays claimable by the
/// recipient — frozen, at any later instant.  In particular, cancelling
/// before anything has vested refunds the whole total and leaves the
/// recipient nothing claimable.
pub proof fn lemma_cancel_preserves_vested_entitlement(t: Transfer, now: u64, later: u64)
    requires
        wf_at(t, now),
        t.status is Created || t.status is Executing,
        now <= later,
    ensures
        claimable_of(Ledger::cancelled_transfer(t, now), t.recipient, later) == releasable_spec(
            t.total,
            t.start,
            t.cliff,
            t.duration,
            now,
        ) - t.claimed,
        t.total - releasable_spec(t.total, t.start, t.cliff, t.duration, now) + claimable_of(
            Ledger::cancelled_transfer(t, now),
            t.recipient,
            later,
        ) == t.total - t.claimed,
        releasable_spec(t.total, t.start, t.cliff, t.duration, now) == 0 ==> (t.total
            - releasable_spec(t.total, t.start, t.cliff, t.duration, now) == t.total
            && claimable_of(Ledger::cancelled_transfer(t, now), t.recipient, later) == 0),
{
    lemma_releasable_bounds(t.total, t.start, t.cliff, t.duration, now);
}

/// A claim against a transfer with nothing vested left to take pays
/// nothing; against a completed one it changes nothing at all.  A claim is
/// never an error.
pub proof fn lemma_claim_with_nothing_due_is_noop(t: Transfer, caller: u64, now: u64)
    requires
        wf_at(t, now),
        t.claimed as int == claim_ceiling(t, now),
    ensures
        claimable_of(t, caller, now) == 0,
        t.status is Completed ==> claim_step(t, caller, now) == t,
{
}

/// Every record of a sequence well-formed at one instant is well-formed at
/// every later instant.
pub proof fn lemma_wf_all_advance(s: Seq<Transfer>, seen: u64, now: u64)
    requires
        forall|i: int| 0 <= i < s.len() ==> wf_at(#[trigger] s[i], seen),
        seen <= now,
    ensures
        forall|i: int| 0 <= i < s.len() ==> wf_at(#[trigger] s[i], now),
{
    assert forall|i: int| 0 <= i < s.len() implies wf_at(#[trigger] s[i], now) by {
        lemma_wf_at_advance(s[i], seen, now);
    }
}

} // verus!

