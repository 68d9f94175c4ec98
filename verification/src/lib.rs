//! A fungible-token ledger: per-account balances, per-(owner, spender)
//! allowances, total-supply accounting with an optional supply cap and mint
//! authority, and a freeze capability.
//!
//! The ledger engine is a pure state machine: the host environment supplies
//! the caller identity with each call, persists the store between calls, and
//! publishes the events that successful operations return. The engine itself
//! performs no I/O.

pub mod ledger;
pub mod store;
