//! The plain-value entities the escrow works over: principal identities,
//! token accounts, the persistent escrow record, and the account bundles the
//! two operations reference.

use vstd::prelude::*;

verus! {

/// The identity of a principal that can own token accounts.
///
/// `Keyed(k)` stands for an address backed by a cryptographic secret: its
/// holder can sign and thereby authorize actions attributed to it. Any
/// ordinary caller — initializer or receiver — is a keyed identity.
///
/// `Derived(r)` is the storage address computed one-way from the receiver
/// identity `r` (keyed hash plus disambiguation byte in the concrete
/// encoding). Such an address is guaranteed never to coincide with a valid
/// keyed address, so no external secret holder can ever sign as it: only the
/// escrow logic itself, which can reproduce the derivation, may act as a
/// derived identity. The two variants therefore never collide, which is
/// exactly what the custody scheme relies on.
#[derive(Clone, Copy, Debug, PartialEq, Eq, Structural)]
pub enum Identity {
    Keyed(u64),
    Derived(u64),
}

/// A fungible-token account: who may currently authorize movement of its
/// tokens, and how many it holds.
#[derive(Clone, Copy, Debug, PartialEq, Eq, Structural)]
pub struct TokenAccount {
    pub owner: Identity,
    pub amount: u64,
}

/// The persistent escrow record — the durable state of one timelock.
///
/// It is stored at the address derived from `receiver_identity`, written once
/// by `lock`, never updated, and destroyed by a successful `unlock`.
#[derive(Clone, Copy, Debug, PartialEq, Eq, Structural)]
pub struct Timelock {
    /// Identity of the party entitled to the eventual release; immutable.
    pub receiver_identity: u64,
    /// The token account that will receive the released balance; immutable.
    pub receiver_account_id: u64,
    /// Absolute timestamp before which release is forbidden; immutable.
    pub unlock_time: i64,
    /// The disambiguation byte used to re-derive the record's own storage
    /// address, and with it the authorization for the release transfer.
    pub derivation_tag: u8,
}

/// The accounts a `lock` call references.
#[derive(Clone, Copy, Debug, PartialEq, Eq, Structural)]
pub struct Lock {
    /// The caller; must have signed, so it names a keyed identity.
    pub initializer: u64,
    /// The token account whose custody the escrow takes.
    pub tokens_to_lock: u64,
    /// The receiver identity the escrow is created for.
    pub receiver: u64,
    /// The token account that will receive the balance on release.
    pub receiver_tokens: u64,
}

/// The accounts an `unlock` call references.
#[derive(Clone, Copy, Debug, PartialEq, Eq, Structural)]
pub struct Unlock {
    /// The escrow record's storage address, i.e. the receiver identity it was
    /// derived from.
    pub timelock: u64,
    /// The token account currently under the escrow's custody.
    pub timelocked_tokens: u64,
    /// The claimed receiver identity; must match the record.
    pub receiver: u64,
    /// The claimed receiver token account; must match the record.
    pub receiver_tokens: u64,
}

} // verus!
