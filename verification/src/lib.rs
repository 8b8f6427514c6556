//! A single-asset, single-receiver timelock escrow.
//!
//! The escrow takes exclusive custody of a token account on behalf of an
//! initializer and releases its full balance to one designated receiver once
//! a fixed unlock time has passed. The host ledger and the fungible-token
//! subsystem are modelled explicitly: token accounts carry an `owner`
//! attribute, escrow records live in a key-value store addressed
//! deterministically by the receiver's identity, and every operation is a
//! single atomic transition of that state.

pub mod accounts;
pub mod errors;
pub mod laws;
pub mod ledger;
pub mod model;

pub use accounts::{Identity, Lock, Timelock, TokenAccount, Unlock};
pub use errors::TimelockError;
pub use ledger::{compute_unlock_time, time_gate_open, Ledger};
