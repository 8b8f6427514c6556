//! The executable ledger and the two escrow operations.
//!
//! `Ledger` holds the token accounts and the live escrow records; its view is
//! the abstract [`LedgerView`]. `lock` and `unlock` each execute as one
//! atomic transition: every precondition is checked before any mutation, so a
//! failing attempt returns its error with the state untouched.

use std::collections::HashMap;

use vstd::prelude::*;

use crate::accounts::{Identity, Lock, Timelock, TokenAccount, Unlock};
use crate::errors::TimelockError;
use crate::model::{
    create_account_spec, lock_allowed, lock_spec, unlock_enabled, unlock_resources_ok,
    unlock_spec, LedgerView,
};

verus! {

broadcast use vstd::std_specs::hash::group_hash_axioms;

/// The unlock time a lock established at `now` with the given duration gets:
/// `now + lock_duration`, rejected when that falls outside the representable
/// timestamp range.
pub fn compute_unlock_time(now: i64, lock_duration: i64) -> (r: Result<i64, TimelockError>)
    ensures
        r == (if now + lock_duration > i64::MAX || now + lock_duration < i64::MIN {
            Err::<i64, TimelockError>(TimelockError::DurationOverflow)
        } else {
            Ok::<i64, TimelockError>((now + lock_duration) as i64)
        }),
{
    match now.checked_add(lock_duration) {
        Some(t) => Ok(t),
        None => Err(TimelockError::DurationOverflow),
    }
}

/// The time gate guarding release: open exactly when the current time has
/// reached the stored unlock time.
pub fn time_gate_open(now: i64, unlock_time: i64) -> (r: bool)
    ensures
        r == (now >= unlock_time),
{
    now >= unlock_time
}

/// The persistent state: token accounts by account id, and escrow records by
/// the receiver identity their storage address is derived from.
pub struct Ledger {
    accounts: HashMap<u64, TokenAccount>,
    escrows: HashMap<u64, Timelock>,
}

impl View for Ledger {
    type V = LedgerView;

    closed spec fn view(&self) -> LedgerView {
        LedgerView { accounts: self.accounts@, escrows: self.escrows@ }
    }
}

impl Ledger {
    /// An empty ledger: no token accounts, no escrow records.
    pub fn new() -> (l: Ledger)
        ensures
            l@.accounts == Map::<u64, TokenAccount>::empty(),
            l@.escrows == Map::<u64, Timelock>::empty(),
    {
        Ledger { accounts: HashMap::new(), escrows: HashMap::new() }
    }

    /// The storage primitive that creates a token account with `amount`
    /// tokens, owned by the keyed identity `owner`.
    pub fn create_token_account(&mut self, account_id: u64, owner: u64, amount: u64)
        requires
            !old(self)@.accounts.contains_key(account_id),
        ensures
            final(self)@ == create_account_spec(old(self)@, account_id, owner, amount),
    {
        self.accounts.insert(account_id, TokenAccount { owner: Identity::Keyed(owner), amount });
    }

    /// Look a token account up by its id.
    pub fn token_account(&self, account_id: u64) -> (r: Option<TokenAccount>)
        ensures
            r == (if self@.accounts.contains_key(account_id) {
                Some(self@.accounts[account_id])
            } else {
                None::<TokenAccount>
            }),
    {
        match self.accounts.get(&account_id) {
            Some(a) => Some(*a),
            None => None,
        }
    }

    /// Look the escrow record at a derived storage address up.
    pub fn escrow_at(&self, address: u64) -> (r: Option<Timelock>)
        ensures
            r == (if self@.escrows.contains_key(address) {
                Some(self@.escrows[address])
            } else {
                None::<Timelock>
            }),
    {
        match self.escrows.get(&address) {
            Some(t) => Some(*t),
            None => None,
        }
    }

    /// Establish custody and write the escrow record.
    ///
    /// The record's storage address is derived from `ctx.receiver` alone, so
    /// a live escrow for the same receiver occupies the address and the
    /// attempt is rejected before anything runs. The initializer must own the
    /// account to be locked, and `now + lock_duration` must be representable.
    /// On success the record is written with `unlock_time = now +
    /// lock_duration` and ownership of `ctx.tokens_to_lock` moves to the
    /// escrow's derived identity, which no external party can sign as. On any
    /// failure the ledger is unchanged.
    pub fn lock(
        &mut self,
        ctx: Lock,
        timelock_bump: u8,
        lock_duration: i64,
        now: i64,
    ) -> (r: Result<(), TimelockError>)
        requires
            lock_duration >= 0,
        ensures
            final(self)@ == lock_spec(old(self)@, ctx, timelock_bump, lock_duration, now).0,
            r == lock_spec(old(self)@, ctx, timelock_bump, lock_duration, now).1,
            r is Ok <==> lock_allowed(old(self)@, ctx, lock_duration, now),
            r is Err ==> final(self)@ == old(self)@,
    {
        if self.escrows.contains_key(&ctx.receiver) {
            return Err(TimelockError::EscrowAlreadyExists);
        }
        let locked = match self.accounts.get(&ctx.tokens_to_lock) {
            Some(a) => *a,
            None => {
                return Err(TimelockError::NotOwner);
            },
        };
        if locked.owner != Identity::Keyed(ctx.initializer) {
            return Err(TimelockError::NotOwner);
        }
        let unlock_time = match compute_unlock_time(now, lock_duration) {
            Ok(t) => t,
            Err(e) => {
                return Err(e);
            },
        };
        self.escrows.insert(
            ctx.receiver,
            Timelock {
                receiver_identity: ctx.receiver,
                receiver_account_id: ctx.receiver_tokens,
                unlock_time,
                derivation_tag: timelock_bump,
            },
        );
        self.accounts.insert(
            ctx.tokens_to_lock,
            TokenAccount { owner: Identity::Derived(ctx.receiver), amount: locked.amount },
        );
        Ok(())
    }

    /// Enforce the time gate and release custody.
    ///
    /// The record must exist at the given address, the current time must have
    /// reached its unlock time, and the claimed receiver identity and token
    /// account must match what the record stores — checked in that order, and
    /// all before anything moves. On success the entire custody balance is
    /// transferred to the stored receiver account and the record is destroyed
    /// in the same atomic step; afterwards any further attempt finds no
    /// escrow. On any failure the ledger is unchanged.
    ///
    /// The caller supplies the account actually under custody; when the
    /// release is otherwise permitted, that account must be owned by the
    /// escrow's derived identity (the re-derived authorization the transfer
    /// runs under) and the destination must be able to receive the balance.
    pub fn unlock(&mut self, ctx: Unlock, now: i64) -> (r: Result<(), TimelockError>)
        requires
            unlock_enabled(old(self)@, ctx, now) ==> unlock_resources_ok(old(self)@, ctx),
        ensures
            final(self)@ == unlock_spec(old(self)@, ctx, now).0,
            r == unlock_spec(old(self)@, ctx, now).1,
            r is Ok <==> unlock_enabled(old(self)@, ctx, now),
            r is Err ==> final(self)@ == old(self)@,
    {
        let record = match self.escrows.get(&ctx.timelock) {
            Some(t) => *t,
            None => {
                return Err(TimelockError::NoSuchEscrow);
            },
        };
        if !time_gate_open(now, record.unlock_time) {
            return Err(TimelockError::HasntUnlockedYet);
        }
        if ctx.receiver != record.receiver_identity
            || ctx.receiver_tokens != record.receiver_account_id {
            return Err(TimelockError::ReceiverMismatch);
        }
        if ctx.timelocked_tokens != ctx.receiver_tokens {
            let custody = *self.accounts.get(&ctx.timelocked_tokens).unwrap();
            self.accounts.insert(
                ctx.timelocked_tokens,
                TokenAccount { owner: custody.owner, amount: 0 },
            );
            let dest = *self.accounts.get(&ctx.receiver_tokens).unwrap();
            self.accounts.insert(
                ctx.receiver_tokens,
                TokenAccount { owner: dest.owner, amount: dest.amount + custody.amount },
            );
        }
        self.escrows.remove(&ctx.timelock);
        Ok(())
    }
}

} // verus!
