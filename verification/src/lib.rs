//! A time-gated custody vault library.
//!
//! A depositor locks a native-value amount or a fungible-token amount in a
//! vault whose identity is derived deterministically from the depositor, the
//! designated recipient and the unlock time. The deposit becomes releasable
//! only after the unlock time, only to an authorized party, and exactly once.
//!
//! The library is organised around a small state machine:
//! - [`identity`] derives the deterministic vault identity and its bump proof;
//! - [`vault`] holds the persistent record, the error taxonomy and the
//!   transfer actions the hosting ledger is instructed to perform;
//! - [`lifecycle`] validates and applies the per-record create/withdraw
//!   transitions;
//! - [`store`] enforces the one-record-per-identity discipline over a whole
//!   collection of vaults;
//! - [`laws`] states and proves the library-wide guarantees.
//!
//! All asset movement is returned to the caller as [`vault::AssetAction`]
//! values: the hosting ledger performs them as one atomic unit with the
//! record update, so a failed transfer aborts the whole operation.

pub mod identity;
pub mod laws;
pub mod lifecycle;
pub mod store;
pub mod vault;
