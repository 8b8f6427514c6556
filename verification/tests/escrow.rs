//! End-to-end scenarios for the timelock escrow.

use anchor_timelock::{Identity, Ledger, Lock, TimelockError, Unlock};

const INITIALIZER: u64 = 10;
const RECEIVER: u64 = 20;
const LOCKED_ACCOUNT: u64 = 1;
const RECEIVER_ACCOUNT: u64 = 2;

fn lock_ctx() -> Lock {
    Lock {
        initializer: INITIALIZER,
        tokens_to_lock: LOCKED_ACCOUNT,
        receiver: RECEIVER,
        receiver_tokens: RECEIVER_ACCOUNT,
    }
}

fn unlock_ctx() -> Unlock {
    Unlock {
        timelock: RECEIVER,
        timelocked_tokens: LOCKED_ACCOUNT,
        receiver: RECEIVER,
        receiver_tokens: RECEIVER_ACCOUNT,
    }
}

/// A ledger holding 100 tokens owned by the initializer and an empty
/// receiver account.
fn fresh_ledger() -> Ledger {
    let mut ledger = Ledger::new();
    ledger.create_token_account(LOCKED_ACCOUNT, INITIALIZER, 100);
    ledger.create_token_account(RECEIVER_ACCOUNT, RECEIVER, 0);
    ledger
}

#[test]
fn scenario_lock_then_unlock_at_gate() {
    let mut ledger = fresh_ledger();

    assert_eq!(ledger.lock(lock_ctx(), 255, 3600, 1000), Ok(()));
    let record = ledger.escrow_at(RECEIVER).expect("record must exist after lock");
    assert_eq!(record.unlock_time, 4600);

    assert_eq!(
        ledger.unlock(unlock_ctx(), 4599),
        Err(TimelockError::HasntUnlockedYet)
    );

    assert_eq!(ledger.unlock(unlock_ctx(), 4600), Ok(()));
    assert_eq!(ledger.token_account(RECEIVER_ACCOUNT).unwrap().amount, 100);
    assert_eq!(ledger.token_account(LOCKED_ACCOUNT).unwrap().amount, 0);
    assert!(ledger.escrow_at(RECEIVER).is_none());
}

#[test]
fn scenario_duration_overflow_creates_nothing() {
    let mut ledger = fresh_ledger();

    assert_eq!(
        ledger.lock(lock_ctx(), 255, 3600, i64::MAX - 10),
        Err(TimelockError::DurationOverflow)
    );
    assert!(ledger.escrow_at(RECEIVER).is_none());
    let locked = ledger.token_account(LOCKED_ACCOUNT).unwrap();
    assert_eq!(locked.owner, Identity::Keyed(INITIALIZER));
    assert_eq!(locked.amount, 100);
}

#[test]
fn scenario_lock_by_non_owner_fails() {
    let mut ledger = fresh_ledger();
    let intruder = Lock { initializer: 30, ..lock_ctx() };

    assert_eq!(
        ledger.lock(intruder, 255, 3600, 1000),
        Err(TimelockError::NotOwner)
    );
    assert!(ledger.escrow_at(RECEIVER).is_none());
    assert_eq!(
        ledger.token_account(LOCKED_ACCOUNT).unwrap().owner,
        Identity::Keyed(INITIALIZER)
    );
}

#[test]
fn scenario_second_unlock_finds_no_escrow() {
    let mut ledger = fresh_ledger();
    assert_eq!(ledger.lock(lock_ctx(), 255, 3600, 1000), Ok(()));
    assert_eq!(ledger.unlock(unlock_ctx(), 5000), Ok(()));

    assert_eq!(
        ledger.unlock(unlock_ctx(), 5001),
        Err(TimelockError::NoSuchEscrow)
    );
    assert_eq!(ledger.token_account(RECEIVER_ACCOUNT).unwrap().amount, 100);
}

#[test]
fn lock_writes_record_exactly() {
    let mut ledger = fresh_ledger();
    assert_eq!(ledger.lock(lock_ctx(), 254, 60, 500), Ok(()));

    let record = ledger.escrow_at(RECEIVER).unwrap();
    assert_eq!(record.receiver_identity, RECEIVER);
    assert_eq!(record.receiver_account_id, RECEIVER_ACCOUNT);
    assert_eq!(record.unlock_time, 560);
    assert_eq!(record.derivation_tag, 254);

    let locked = ledger.token_account(LOCKED_ACCOUNT).unwrap();
    assert_eq!(locked.owner, Identity::Derived(RECEIVER));
    assert_eq!(locked.amount, 100);
}

#[test]
fn zero_duration_unlocks_immediately() {
    let mut ledger = fresh_ledger();
    assert_eq!(ledger.lock(lock_ctx(), 255, 0, 1000), Ok(()));
    assert_eq!(ledger.unlock(unlock_ctx(), 1000), Ok(()));
    assert_eq!(ledger.token_account(RECEIVER_ACCOUNT).unwrap().amount, 100);
}

#[test]
fn unlock_on_empty_ledger_finds_no_escrow() {
    let mut ledger = Ledger::new();
    assert_eq!(
        ledger.unlock(unlock_ctx(), 9999),
        Err(TimelockError::NoSuchEscrow)
    );
}

#[test]
fn unlock_time_arithmetic_is_exact() {
    assert_eq!(anchor_timelock::compute_unlock_time(1000, 3600), Ok(4600));
    assert_eq!(anchor_timelock::compute_unlock_time(0, 0), Ok(0));
    assert_eq!(
        anchor_timelock::compute_unlock_time(i64::MAX, 1),
        Err(TimelockError::DurationOverflow)
    );
    assert_eq!(
        anchor_timelock::compute_unlock_time(i64::MIN, -1),
        Err(TimelockError::DurationOverflow)
    );
}

#[test]
fn time_gate_opens_exactly_at_unlock_time() {
    assert!(!anchor_timelock::time_gate_open(4599, 4600));
    assert!(anchor_timelock::time_gate_open(4600, 4600));
    assert!(anchor_timelock::time_gate_open(4601, 4600));
}
