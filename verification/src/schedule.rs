//! The vesting schedule calculator.
//!
//! A schedule is a cliff followed by a linear window: before
//! `start + cliff` nothing is releasable; during the window of `duration`
//! seconds the total is released linearly, rounding toward zero; from
//! `start + cliff + duration` on, the whole total is releasable.

use vstd::arithmetic::div_mod::{lemma_div_by_multiple, lemma_div_is_ordered, lemma_div_pos_is_pos};
use vstd::arithmetic::mul::{
    lemma_mul_inequality, lemma_mul_is_commutative, lemma_mul_nonnegative, lemma_mul_upper_bound,
};
use vstd::prelude::*;

verus! {

/// The amount of `total` that a schedule starting at `start`, with a cliff
/// of `cliff` seconds and a linear window of `duration` seconds, has
/// released at time `now`.  Rounds toward zero, so the linear branch never
/// over-releases.
pub open spec fn releasable_spec(total: u64, start: u64, cliff: u64, duration: u64, now: u64) -> int
    recommends
        duration >= 1,
{
    if now < start + cliff {
        0
    } else if now - start - cliff >= duration {
        total as int
    } else {
        total * (now - start - cliff) / (duration as int)
    }
}

/// The releasable amount always lies between zero and the total.
pub proof fn lemma_releasable_bounds(total: u64, start: u64, cliff: u64, duration: u64, now: u64)
    requires
        duration >= 1,
    ensures
        0 <= releasable_spec(total, start, cliff, duration, now) <= total as int,
{
    if now >= start + cliff {
        let e = now - start - cliff;
        if e < duration {
            lemma_mul_nonnegative(total as int, e);
            lemma_div_pos_is_pos(total * e, duration as int);
            lemma_mul_inequality(e, duration as int, total as int);
            lemma_mul_is_commutative(e, total as int);
            lemma_mul_is_commutative(duration as int, total as int);
            lemma_div_is_ordered(total * e, total * (duration as int), duration as int);
            lemma_mul_is_commutative(total as int, duration as int);
            lemma_div_by_multiple(total as int, duration as int);
        }
    }
}

/// The releasable amount never decreases as time passes: for one schedule
/// and two instants `early <= late`, what is releasable at `early` is at
/// most what is releasable at `late`.  (Releasability at a fixed instant is
/// a pure function of the schedule, so reading it twice at one instant
/// gives one value.)
pub proof fn lemma_releasable_monotonic(
    total: u64,
    start: u64,
    cliff: u64,
    duration: u64,
    early: u64,
    late: u64,
)
    requires
        duration >= 1,
        early <= late,
    ensures
        releasable_spec(total, start, cliff, duration, early) <= releasable_spec(
            total,
            start,
            cliff,
            duration,
            late,
        ),
{
    lemma_releasable_bounds(total, start, cliff, duration, early);
    lemma_releasable_bounds(total, start, cliff, duration, late);
    if early >= start + cliff && late - start - cliff < duration {
        let e1 = early - start - cliff;
        let e2 = late - start - cliff;
        lemma_mul_inequality(e1, e2, total as int);
        lemma_mul_is_commutative(e1, total as int);
        lemma_mul_is_commutative(e2, total as int);
        lemma_div_is_ordered(total * e1, total * e2, duration as int);
    }
}

/// Computes the releasable amount of a schedule at `now`, exactly as
/// `releasable_spec` states it.
pub fn releasable_amount(total: u64, start: u64, cliff: u64, duration: u64, now: u64) -> (r: u64)
    requires
        duration >= 1,
    ensures
        r as int == releasable_spec(total, start, cliff, duration, now),
{
    let cliff_end: u128 = start as u128 + cliff as u128;
    if (now as u128) < cliff_end {
        0
    } else {
        let elapsed: u128 = now as u128 - cliff_end;
        if elapsed >= duration as u128 {
            total
        } else {
            proof {
                lemma_mul_upper_bound(
                    total as int,
                    u64::MAX as int,
                    elapsed as int,
                    u64::MAX as int,
                );
                lemma_releasable_bounds(total, start, cliff, duration, now);
            }
            let released: u128 = (total as u128) * elapsed / (duration as u128);
            released as u64
        }
    }
}

} // verus!
