//! The mathematical model of the ledger and of the two escrow operations.
//!
//! `LedgerView` is the abstract state: a map from account ids to token
//! accounts, and a map from derived storage addresses to escrow records. An
//! escrow record's address is derived one-way from the receiver identity
//! alone, so the record map is keyed directly by that identity — this is what
//! makes a second escrow for the same receiver structurally impossible.
//!
//! `lock_spec` and `unlock_spec` are the transition functions. Each operation
//! of the executable [`crate::ledger::Ledger`] promises to change the state
//! exactly as the corresponding transition says, and the laws in
//! [`crate::laws`] are proved over these transitions.

use vstd::prelude::*;

use crate::accounts::{Identity, Lock, Timelock, TokenAccount, Unlock};
use crate::errors::TimelockError;

verus! {

/// The abstract ledger state.
#[verifier::ext_equal]
pub struct LedgerView {
    /// All token accounts, by account id.
    pub accounts: Map<u64, TokenAccount>,
    /// All live escrow records, keyed by the receiver identity their storage
    /// address is derived from.
    pub escrows: Map<u64, Timelock>,
}

/// The conditions under which a `lock` attempt succeeds: the derived address
/// is free, the initializer owns the account to be locked, and the unlock
/// time is representable.
pub open spec fn lock_allowed(s: LedgerView, ctx: Lock, lock_duration: i64, now: i64) -> bool {
    &&& !s.escrows.contains_key(ctx.receiver)
    &&& s.accounts.contains_key(ctx.tokens_to_lock)
    &&& s.accounts[ctx.tokens_to_lock].owner == Identity::Keyed(ctx.initializer)
    &&& now + lock_duration <= i64::MAX
    &&& now + lock_duration >= i64::MIN
}

/// The record a successful `lock` writes.
pub open spec fn locked_record(ctx: Lock, timelock_bump: u8, lock_duration: i64, now: i64) -> Timelock {
    Timelock {
        receiver_identity: ctx.receiver,
        receiver_account_id: ctx.receiver_tokens,
        unlock_time: (now + lock_duration) as i64,
        derivation_tag: timelock_bump,
    }
}

/// What `lock` does to the ledger: checked in order, the storage layer
/// rejects an occupied derived address, the token subsystem rejects an
/// initializer that does not own the account, and the time arithmetic rejects
/// an unrepresentable unlock time. When all checks pass, the record is
/// written at the receiver's derived address and ownership of the locked
/// account moves from the initializer to that same derived identity — the
/// custody transfer. Any failure leaves the state exactly as it was.
pub open spec fn lock_spec(
    s: LedgerView,
    ctx: Lock,
    timelock_bump: u8,
    lock_duration: i64,
    now: i64,
) -> (LedgerView, Result<(), TimelockError>) {
    if s.escrows.contains_key(ctx.receiver) {
        (s, Err(TimelockError::EscrowAlreadyExists))
    } else if !(s.accounts.contains_key(ctx.tokens_to_lock)
        && s.accounts[ctx.tokens_to_lock].owner == Identity::Keyed(ctx.initializer)) {
        (s, Err(TimelockError::NotOwner))
    } else if now + lock_duration > i64::MAX || now + lock_duration < i64::MIN {
        (s, Err(TimelockError::DurationOverflow))
    } else {
        let custody = TokenAccount {
            owner: Identity::Derived(ctx.receiver),
            amount: s.accounts[ctx.tokens_to_lock].amount,
        };
        (
            LedgerView {
                accounts: s.accounts.insert(ctx.tokens_to_lock, custody),
                escrows: s.escrows.insert(
                    ctx.receiver,
                    locked_record(ctx, timelock_bump, lock_duration, now),
                ),
            },
            Ok(()),
        )
    }
}

/// The conditions under which an `unlock` attempt succeeds: the record
/// exists, the time gate has elapsed, and the claimed receiver identity and
/// receiver token account both match what the record stores.
pub open spec fn unlock_enabled(s: LedgerView, ctx: Unlock, now: i64) -> bool {
    &&& s.escrows.contains_key(ctx.timelock)
    &&& now >= s.escrows[ctx.timelock].unlock_time
    &&& ctx.receiver == s.escrows[ctx.timelock].receiver_identity
    &&& ctx.receiver_tokens == s.escrows[ctx.timelock].receiver_account_id
}

/// The runtime resources a release relies on: the supplied custody account
/// exists and is owned by the escrow's derived identity (this is the
/// re-derived authorization for the transfer), the destination account
/// exists, and receiving the full custody balance does not overflow it.
pub open spec fn unlock_resources_ok(s: LedgerView, ctx: Unlock) -> bool {
    &&& s.accounts.contains_key(ctx.timelocked_tokens)
    &&& s.accounts[ctx.timelocked_tokens].owner == Identity::Derived(ctx.timelock)
    &&& s.accounts.contains_key(ctx.receiver_tokens)
    &&& (ctx.timelocked_tokens == ctx.receiver_tokens
        || s.accounts[ctx.receiver_tokens].amount + s.accounts[ctx.timelocked_tokens].amount
            <= u64::MAX)
}

/// Moving the entire balance of `from` into `to`. Owners are untouched; a
/// transfer onto the same account leaves every balance as it was.
pub open spec fn transfer_all(
    accounts: Map<u64, TokenAccount>,
    from: u64,
    to: u64,
) -> Map<u64, TokenAccount> {
    if from == to {
        accounts
    } else {
        let drained = TokenAccount { owner: accounts[from].owner, amount: 0 };
        let filled = TokenAccount {
            owner: accounts[to].owner,
            amount: (accounts[to].amount + accounts[from].amount) as u64,
        };
        accounts.insert(from, drained).insert(to, filled)
    }
}

/// What `unlock` does to the ledger: the three preconditions are checked in
/// order — record existence, time gate, receiver binding — before anything
/// moves. When all pass, the full custody balance is transferred to the
/// stored receiver account and the record is destroyed in the same step.
/// Any failure leaves the state exactly as it was.
pub open spec fn unlock_spec(
    s: LedgerView,
    ctx: Unlock,
    now: i64,
) -> (LedgerView, Result<(), TimelockError>) {
    if !s.escrows.contains_key(ctx.timelock) {
        (s, Err(TimelockError::NoSuchEscrow))
    } else if now < s.escrows[ctx.timelock].unlock_time {
        (s, Err(TimelockError::HasntUnlockedYet))
    } else if ctx.receiver != s.escrows[ctx.timelock].receiver_identity
        || ctx.receiver_tokens != s.escrows[ctx.timelock].receiver_account_id {
        (s, Err(TimelockError::ReceiverMismatch))
    } else {
        (
            LedgerView {
                accounts: transfer_all(s.accounts, ctx.timelocked_tokens, ctx.receiver_tokens),
                escrows: s.escrows.remove(ctx.timelock),
            },
            Ok(()),
        )
    }
}

/// What creating a token account does to the ledger: the storage primitive
/// writes a fresh account owned by the keyed identity `owner`.
pub open spec fn create_account_spec(
    s: LedgerView,
    account_id: u64,
    owner: u64,
    amount: u64,
) -> LedgerView {
    LedgerView {
        accounts: s.accounts.insert(
            account_id,
            TokenAccount { owner: Identity::Keyed(owner), amount },
        ),
        escrows: s.escrows,
    }
}

} // verus!
