//! The laws the escrow obeys, proved over the transition functions in
//! [`crate::model`]. Each holds for every ledger state and every choice of
//! inputs; together with the exact contracts of [`crate::ledger::Ledger`]
//! they carry over to the executable operations.

use vstd::prelude::*;

use crate::accounts::{Identity, Lock, Unlock};
use crate::errors::TimelockError;
use crate::model::{create_account_spec, lock_spec, unlock_enabled, unlock_resources_ok, unlock_spec, LedgerView};

verus! {

/// Uniqueness: escrow records are stored at an address derived from the
/// receiver identity alone, so the state can never hold two live records for
/// one receiver, and a second `lock` for the same receiver while the first
/// record is live always fails with the address collision — whatever its
/// other arguments are — leaving the state unchanged.
pub proof fn lemma_escrow_uniqueness(
    s: LedgerView,
    ctx1: Lock,
    bump1: u8,
    duration1: i64,
    t1: i64,
    ctx2: Lock,
    bump2: u8,
    duration2: i64,
    t2: i64,
)
    requires
        ctx2.receiver == ctx1.receiver,
        lock_spec(s, ctx1, bump1, duration1, t1).1 is Ok,
    ensures
        ({
            let s1 = lock_spec(s, ctx1, bump1, duration1, t1).0;
            lock_spec(s1, ctx2, bump2, duration2, t2) == (
                s1,
                Err::<(), TimelockError>(TimelockError::EscrowAlreadyExists),
            )
        }),
{
}

/// Custody invariance, `lock` side: a token account owned by a derived
/// identity is untouched by any `lock` attempt. In particular its owner
/// cannot be reassigned again: `lock` reassigns ownership only of an account
/// whose owner is the keyed identity of its signing initializer, and a
/// derived identity is never keyed.
pub proof fn lemma_lock_cannot_touch_custody(
    s: LedgerView,
    ctx: Lock,
    bump: u8,
    duration: i64,
    now: i64,
    a: u64,
)
    requires
        s.accounts.contains_key(a),
        s.accounts[a].owner is Derived,
    ensures
        ({
            let s2 = lock_spec(s, ctx, bump, duration, now).0;
            s2.accounts.contains_key(a) && s2.accounts[a] == s.accounts[a]
        }),
{
}

/// Custody invariance, `unlock` side: an `unlock` attempt never changes the
/// owner of any token account, never lowers the balance of an account it was
/// not given as the custody account, and lowers the balance of a custody
/// account owned by `Derived(r)` only as the successful release of exactly
/// the escrow at address `r` — the matching unlock, and nothing else, moves
/// tokens out of custody.
pub proof fn lemma_custody_moved_only_by_matching_unlock(
    s: LedgerView,
    ctx: Unlock,
    now: i64,
    a: u64,
    r: u64,
)
    requires
        s.accounts.contains_key(a),
        s.accounts[a].owner == Identity::Derived(r),
        unlock_enabled(s, ctx, now) ==> unlock_resources_ok(s, ctx),
    ensures
        ({
            let (s2, res) = unlock_spec(s, ctx, now);
            &&& s2.accounts.contains_key(a)
            &&& s2.accounts[a].owner == s.accounts[a].owner
            &&& (s2.accounts[a].amount < s.accounts[a].amount ==> {
                &&& res is Ok
                &&& ctx.timelocked_tokens == a
                &&& ctx.timelock == r
                &&& now >= s.escrows[r].unlock_time
            })
        }),
{
}

/// Custody invariance, storage side: creating a fresh token account cannot
/// touch an account already under custody.
pub proof fn lemma_create_cannot_touch_custody(
    s: LedgerView,
    account_id: u64,
    owner: u64,
    amount: u64,
    a: u64,
)
    requires
        !s.accounts.contains_key(account_id),
        s.accounts.contains_key(a),
        s.accounts[a].owner is Derived,
    ensures
        ({
            let s2 = create_account_spec(s, account_id, owner, amount);
            s2.accounts.contains_key(a) && s2.accounts[a] == s.accounts[a]
        }),
{
}

/// Records are write-once, `lock` side: a `lock` attempt never modifies or
/// removes an existing record, whether it succeeds or fails — it can only add
/// a new record at a previously free address. (A successful `unlock` removes
/// exactly its own record and modifies none, as `lemma_atomic_release`
/// states, so no path ever updates a record in place.)
pub proof fn lemma_lock_preserves_records(
    s: LedgerView,
    ctx: Lock,
    bump: u8,
    duration: i64,
    now: i64,
)
    ensures
        ({
            let s2 = lock_spec(s, ctx, bump, duration, now).0;
            forall|r: u64|
                #[trigger] s.escrows.contains_key(r) ==> s2.escrows.contains_key(r)
                    && s2.escrows[r] == s.escrows[r]
        }),
{
}

/// Atomicity of release: one `unlock` step destroys the record if and only
/// if it moves the full custody balance, and it does both in that single
/// step. A failing attempt leaves the whole state unchanged; a successful
/// one removes exactly the addressed record — every other record is intact,
/// records are never updated in place — drains the custody account to zero
/// and credits its entire balance to the stored receiver account (a custody
/// account that is itself the stored receiver account keeps its balance).
pub proof fn lemma_atomic_release(s: LedgerView, ctx: Unlock, now: i64)
    requires
        unlock_enabled(s, ctx, now) ==> unlock_resources_ok(s, ctx),
    ensures
        ({
            let (s2, res) = unlock_spec(s, ctx, now);
            &&& (res is Err ==> s2 == s)
            &&& (res is Ok ==> s2.escrows == s.escrows.remove(ctx.timelock))
            &&& (forall|r: u64|
                s.escrows.contains_key(r) && !s2.escrows.contains_key(r) ==> res is Ok && r
                    == ctx.timelock)
            &&& (forall|r: u64|
                #[trigger] s2.escrows.contains_key(r) ==> s.escrows.contains_key(r)
                    && s2.escrows[r] == s.escrows[r])
            &&& (res is Ok && ctx.timelocked_tokens != ctx.receiver_tokens ==> {
                &&& s2.accounts[ctx.timelocked_tokens].amount == 0
                &&& s2.accounts[ctx.receiver_tokens].amount == s.accounts[ctx.receiver_tokens].amount
                    + s.accounts[ctx.timelocked_tokens].amount
            })
            &&& (res is Ok && ctx.timelocked_tokens == ctx.receiver_tokens ==> s2.accounts
                == s.accounts)
        }),
{
}

/// Time-gate soundness: `unlock` never succeeds before the stored unlock
/// time — an attempt at an earlier time fails with `HasntUnlockedYet` and changes
/// nothing — and it succeeds exactly when the record exists, the unlock time has
/// elapsed, and the claimed receiver identity and account match the record.
pub proof fn lemma_time_gate(s: LedgerView, ctx: Unlock, now: i64)
    ensures
        s.escrows.contains_key(ctx.timelock) && now < s.escrows[ctx.timelock].unlock_time
            ==> unlock_spec(s, ctx, now) == (
            s,
            Err::<(), TimelockError>(TimelockError::HasntUnlockedYet),
        ),
        unlock_spec(s, ctx, now).1 is Ok <==> unlock_enabled(s, ctx, now),
{
}

/// Idempotent failure: against one live escrow, an `unlock` before the unlock time
/// changes nothing; the same call once that time has come succeeds; and any
/// further attempt, at any later time, finds no escrow and again changes
/// nothing. Only the one successful call ever mutates the state.
pub proof fn lemma_unlock_idempotent_failure(
    s: LedgerView,
    ctx: Unlock,
    early: i64,
    ripe: i64,
    later: i64,
)
    requires
        s.escrows.contains_key(ctx.timelock),
        early < s.escrows[ctx.timelock].unlock_time,
        ripe >= s.escrows[ctx.timelock].unlock_time,
        ctx.receiver == s.escrows[ctx.timelock].receiver_identity,
        ctx.receiver_tokens == s.escrows[ctx.timelock].receiver_account_id,
    ensures
        unlock_spec(s, ctx, early) == (
            s,
            Err::<(), TimelockError>(TimelockError::HasntUnlockedYet),
        ),
        unlock_spec(s, ctx, ripe).1 is Ok,
        ({
            let s2 = unlock_spec(s, ctx, ripe).0;
            unlock_spec(s2, ctx, later) == (
                s2,
                Err::<(), TimelockError>(TimelockError::NoSuchEscrow),
            )
        }),
{
}

} // verus!
