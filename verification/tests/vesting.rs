use vested_transfers::errors::VestingError;
use vested_transfers::ledger::Ledger;
use vested_transfers::schedule::releasable_amount;
use vested_transfers::transfer::TransferStatus;

const SENDER: u64 = 1;
const RECIPIENT: u64 = 2;
const TOKEN: u64 = 7;

#[test]
fn linear_schedule_claims_halfway_and_completes() {
    let mut ledger = Ledger::new();
    let id = ledger
        .create_transfer(SENDER, RECIPIENT, TOKEN, 1000, 0, 1000, 1000, 0)
        .unwrap();
    assert_eq!(id, 0);
    ledger.execute_transfer(SENDER, id, 0).unwrap();

    let paid: u128 = ledger.claim_balances(RECIPIENT, 500);
    assert_eq!(paid, 500);
    let records = ledger.get_transfers(None);
    assert_eq!(records[0].claimed, 500);
    assert_eq!(records[0].status, TransferStatus::Executing);

    let paid: u128 = ledger.claim_balances(RECIPIENT, 1000);
    assert_eq!(paid, 500);
    let records = ledger.get_transfers(None);
    assert_eq!(records[0].claimed, 1000);
    assert_eq!(records[0].status, TransferStatus::Completed);
}

#[test]
fn claim_before_cliff_pays_zero_and_succeeds() {
    let mut ledger = Ledger::new();
    let id = ledger
        .create_transfer(SENDER, RECIPIENT, TOKEN, 1000, 100, 900, 1000, 0)
        .unwrap();
    ledger.execute_transfer(SENDER, id, 10).unwrap();
    assert_eq!(releasable_amount(1000, 0, 100, 900, 50), 0);
    let paid: u128 = ledger.claim_balances(RECIPIENT, 50);
    assert_eq!(paid, 0);
}

#[test]
fn cancel_before_vesting_refunds_everything() {
    let mut ledger = Ledger::new();
    let id = ledger
        .create_transfer(SENDER, RECIPIENT, TOKEN, 1000, 100, 900, 1000, 0)
        .unwrap();
    ledger.execute_transfer(SENDER, id, 10).unwrap();
    let refund = ledger.cancel_transfer(SENDER, id, 50).unwrap();
    assert_eq!(refund, 1000);
    let balances = ledger.get_address_balances(RECIPIENT, 50);
    assert_eq!(balances.claimable, 0);
    let paid: u128 = ledger.claim_balances(RECIPIENT, 60);
    assert_eq!(paid, 0);
}

#[test]
fn cancel_half_vested_splits_the_amount() {
    let mut ledger = Ledger::new();
    let id = ledger
        .create_transfer(SENDER, RECIPIENT, TOKEN, 1000, 0, 1000, 1000, 0)
        .unwrap();
    ledger.execute_transfer(SENDER, id, 0).unwrap();
    let refund = ledger.cancel_transfer(SENDER, id, 500).unwrap();
    assert_eq!(refund, 500);
    let balances = ledger.get_address_balances(RECIPIENT, 500);
    assert_eq!(balances.claimable, 500);
    let paid: u128 = ledger.claim_balances(RECIPIENT, 500);
    assert_eq!(paid, 500);
    // the frozen entitlement does not grow after cancellation
    let paid: u128 = ledger.claim_balances(RECIPIENT, 2000);
    assert_eq!(paid, 0);
}

#[test]
fn claim_on_fully_claimed_transfer_is_a_noop() {
    let mut ledger = Ledger::new();
    let id = ledger
        .create_transfer(SENDER, RECIPIENT, TOKEN, 1000, 0, 1000, 1000, 0)
        .unwrap();
    ledger.execute_transfer(SENDER, id, 0).unwrap();
    let paid: u128 = ledger.claim_balances(RECIPIENT, 1000);
    assert_eq!(paid, 1000);
    let paid_again: u128 = ledger.claim_balances(RECIPIENT, 1500);
    assert_eq!(paid_again, 0);
    let records = ledger.get_transfers(None);
    assert_eq!(records[0].status, TransferStatus::Completed);
}

#[test]
fn releasable_is_monotonic_and_repeatable() {
    let mut last: u64 = 0;
    for now in [0u64, 49, 99, 100, 101, 500, 899, 999, 1000, 5000] {
        let r = releasable_amount(1000, 0, 100, 900, now);
        assert!(r >= last);
        assert_eq!(r, releasable_amount(1000, 0, 100, 900, now));
        assert!(r <= 1000);
        last = r;
    }
    assert_eq!(releasable_amount(1000, 0, 100, 900, 550), 500);
    assert_eq!(releasable_amount(1000, 0, 100, 900, 1000), 1000);
}

fn custody_remaining(ledger: &Ledger) -> u128 {
    let mut held: u128 = 0;
    for t in ledger.get_transfers(None) {
        let refunded: u64 = match t.status {
            TransferStatus::Cancelled => t.total - t.vested_at_cancel,
            _ => 0,
        };
        held += (t.total - t.claimed - refunded) as u128;
    }
    held
}

#[test]
fn tokens_are_conserved_across_operations() {
    let mut ledger = Ledger::new();
    let a = ledger
        .create_transfer(SENDER, RECIPIENT, TOKEN, 1000, 0, 1000, 1000, 0)
        .unwrap();
    let b = ledger
        .create_transfer(3, RECIPIENT, TOKEN, 600, 50, 100, 600, 0)
        .unwrap();
    let c = ledger
        .create_transfer(SENDER, 4, TOKEN, 400, 0, 200, 400, 0)
        .unwrap();
    ledger.execute_transfer(SENDER, a, 0).unwrap();
    ledger.execute_transfer(3, b, 0).unwrap();
    ledger.execute_transfer(SENDER, c, 0).unwrap();
    assert_eq!(ledger.deposited, 2000);
    assert_eq!(ledger.deposited, ledger.paid_out + custody_remaining(&ledger));

    ledger.claim_balances(RECIPIENT, 100);
    assert_eq!(ledger.deposited, ledger.paid_out + custody_remaining(&ledger));

    ledger.cancel_transfer(SENDER, a, 250).unwrap();
    assert_eq!(ledger.deposited, ledger.paid_out + custody_remaining(&ledger));

    ledger.claim_balances(RECIPIENT, 300);
    ledger.claim_balances(4, 300);
    assert_eq!(ledger.deposited, ledger.paid_out + custody_remaining(&ledger));

    // everything vested, everyone claims, nothing is held but b's cliff tail
    ledger.claim_balances(RECIPIENT, 5000);
    ledger.claim_balances(4, 5000);
    assert_eq!(ledger.deposited, ledger.paid_out + custody_remaining(&ledger));
}

#[test]
fn claimed_never_exceeds_releasable_or_total() {
    let mut ledger = Ledger::new();
    let id = ledger
        .create_transfer(SENDER, RECIPIENT, TOKEN, 777, 10, 100, 777, 0)
        .unwrap();
    ledger.execute_transfer(SENDER, id, 5).unwrap();
    for now in [5u64, 20, 60, 90, 200] {
        ledger.claim_balances(RECIPIENT, now);
        let t = ledger.get_transfers(None)[0];
        let releasable = releasable_amount(t.total, t.start, t.cliff, t.duration, now);
        assert!(t.claimed <= releasable);
        assert!(releasable <= t.total);
    }
}

#[test]
fn create_rejects_bad_schedules_and_short_deposits() {
    let mut ledger = Ledger::new();
    assert_eq!(
        ledger.create_transfer(SENDER, RECIPIENT, TOKEN, 0, 0, 100, 0, 0),
        Err(VestingError::InvalidSchedule)
    );
    assert_eq!(
        ledger.create_transfer(SENDER, RECIPIENT, TOKEN, 100, 0, 0, 100, 0),
        Err(VestingError::InvalidSchedule)
    );
    assert_eq!(
        ledger.create_transfer(SENDER, RECIPIENT, TOKEN, 100, 0, 100, 99, 0),
        Err(VestingError::InsufficientFunds)
    );
    assert_eq!(ledger.get_transfers(None).len(), 0);
    assert_eq!(ledger.deposited, 0);
}

#[test]
fn operations_on_unknown_ids_fail_with_not_found() {
    let mut ledger = Ledger::new();
    assert_eq!(
        ledger.execute_transfer(SENDER, 0, 0),
        Err(VestingError::NotFound)
    );
    assert_eq!(
        ledger.cancel_transfer(SENDER, 3, 0),
        Err(VestingError::NotFound)
    );
}

#[test]
fn only_the_sender_may_execute_or_cancel() {
    let mut ledger = Ledger::new();
    let id = ledger
        .create_transfer(SENDER, RECIPIENT, TOKEN, 100, 0, 100, 100, 0)
        .unwrap();
    assert_eq!(
        ledger.execute_transfer(RECIPIENT, id, 1),
        Err(VestingError::Unauthorized)
    );
    assert_eq!(
        ledger.cancel_transfer(RECIPIENT, id, 1),
        Err(VestingError::Unauthorized)
    );
}

#[test]
fn executing_twice_is_an_invalid_state() {
    let mut ledger = Ledger::new();
    let id = ledger
        .create_transfer(SENDER, RECIPIENT, TOKEN, 100, 0, 100, 100, 0)
        .unwrap();
    ledger.execute_transfer(SENDER, id, 1).unwrap();
    assert_eq!(
        ledger.execute_transfer(SENDER, id, 2),
        Err(VestingError::InvalidState)
    );
}

#[test]
fn terminal_transfers_refuse_further_transitions() {
    let mut ledger = Ledger::new();
    let id = ledger
        .create_transfer(SENDER, RECIPIENT, TOKEN, 100, 0, 100, 100, 0)
        .unwrap();
    ledger.cancel_transfer(SENDER, id, 1).unwrap();
    assert_eq!(
        ledger.cancel_transfer(SENDER, id, 2),
        Err(VestingError::AlreadyTerminal)
    );
    assert_eq!(
        ledger.execute_transfer(SENDER, id, 2),
        Err(VestingError::AlreadyTerminal)
    );

    let done = ledger
        .create_transfer(SENDER, RECIPIENT, TOKEN, 100, 0, 10, 100, 1)
        .unwrap();
    ledger.execute_transfer(SENDER, done, 1).unwrap();
    ledger.claim_balances(RECIPIENT, 100);
    assert_eq!(
        ledger.cancel_transfer(SENDER, done, 101),
        Err(VestingError::AlreadyTerminal)
    );
}

#[test]
fn snapshots_filter_by_recipient() {
    let mut ledger = Ledger::new();
    ledger
        .create_transfer(SENDER, RECIPIENT, TOKEN, 100, 0, 100, 100, 0)
        .unwrap();
    ledger
        .create_transfer(SENDER, 4, TOKEN, 200, 0, 100, 200, 0)
        .unwrap();
    ledger
        .create_transfer(3, RECIPIENT, TOKEN, 300, 0, 100, 300, 0)
        .unwrap();
    let all = ledger.get_transfers(None);
    assert_eq!(all.len(), 3);
    assert_eq!(all[1].recipient, 4);
    let mine = ledger.get_transfers(Some(RECIPIENT));
    assert_eq!(mine.len(), 2);
    assert_eq!(mine[0].id, 0);
    assert_eq!(mine[1].id, 2);
    assert_eq!(ledger.get_transfers(Some(9)).len(), 0);
}

#[test]
fn address_balances_track_locked_claimable_and_available() {
    let mut ledger = Ledger::new();
    let id = ledger
        .create_transfer(SENDER, RECIPIENT, TOKEN, 1000, 0, 1000, 1000, 0)
        .unwrap();
    let balances = ledger.get_address_balances(RECIPIENT, 0);
    assert_eq!(balances.locked, 1000);
    assert_eq!(balances.claimable, 0);
    assert_eq!(balances.available, 0);

    ledger.execute_transfer(SENDER, id, 0).unwrap();
    let balances = ledger.get_address_balances(RECIPIENT, 250);
    assert_eq!(balances.locked, 1000);
    assert_eq!(balances.claimable, 250);
    assert_eq!(balances.available, 0);

    ledger.claim_balances(RECIPIENT, 250);
    let balances = ledger.get_address_balances(RECIPIENT, 250);
    assert_eq!(balances.locked, 750);
    assert_eq!(balances.claimable, 0);
    assert_eq!(balances.available, 250);

    ledger.claim_balances(RECIPIENT, 1000);
    let balances = ledger.get_address_balances(RECIPIENT, 1000);
    assert_eq!(balances.locked, 0);
    assert_eq!(balances.claimable, 0);
    assert_eq!(balances.available, 1000);
}

#[test]
fn vesting_rounds_toward_zero() {
    // 3 tokens over 7 seconds: partial seconds never over-release
    assert_eq!(releasable_amount(3, 0, 0, 7, 0), 0);
    assert_eq!(releasable_amount(3, 0, 0, 7, 2), 0);
    assert_eq!(releasable_amount(3, 0, 0, 7, 3), 1);
    assert_eq!(releasable_amount(3, 0, 0, 7, 6), 2);
    assert_eq!(releasable_amount(3, 0, 0, 7, 7), 3);
}
