//! The escrow's error taxonomy. Every failure is terminal for the attempted
//! operation and leaves the ledger byte-for-byte unchanged.

use vstd::prelude::*;

verus! {

/// Why a `lock` or `unlock` attempt was rejected.
#[derive(Clone, Copy, Debug, PartialEq, Eq, Structural)]
pub enum TimelockError {
    /// The requested duration pushes the unlock time past the representable
    /// range of timestamps.
    DurationOverflow,
    /// The initializer is not the current owner of the token account to be
    /// locked.
    NotOwner,
    /// The time gate is not yet satisfied; the attempt may be retried later.
    HasntUnlockedYet,
    /// No escrow record exists at the derived address: it was never created,
    /// or it was already released.
    NoSuchEscrow,
    /// The claimed receiver identity or receiver token account does not match
    /// what the escrow record stores.
    ReceiverMismatch,
    /// A live escrow record for this receiver already exists, so the derived
    /// storage address is occupied and the storage layer rejects the write.
    EscrowAlreadyExists,
}

} // verus!
