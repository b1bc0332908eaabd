//! An on-chain lottery ledger's accounting and authorization core.
//!
//! An operator registers a game with fixed economics; participants register
//! records and purchase tickets, moving funds into custody; at close a winner
//! is picked from the roster by an externally supplied counter; the recorded
//! winner drains the pool exactly once. Every transition is all-or-nothing
//! and uses checked arithmetic. The ledger runtime (account storage,
//! signature checks) and the token transfer service are collaborators outside
//! this crate: they hand the operations plain values and carry out the
//! returned base-unit transfers.

pub mod arith;
pub mod error;
pub mod funds;
pub mod purchase;
pub mod registration;
pub mod selection;
pub mod state;
pub mod transfer;
pub mod withdrawal;
