//! A minimal on-ledger counter program: one persistent record holding a
//! single 8-bit counter, manipulated through a fixed set of operations
//! (initialize, increment, decrement, set, close) that a host ledger runtime
//! invokes with caller-supplied account references.
//!
//! The interesting part is not the arithmetic but the account lifecycle and
//! authorization model: which account contract each operation demands
//! (signer, writability, existence, ownership), how a record is funded by a
//! storage deposit and how that deposit travels back on destruction, and the
//! guarantee that a failed invocation leaves every account untouched.

pub mod account;
pub mod context;
pub mod dispatch;
pub mod error;
pub mod laws;
pub mod ops;
pub mod state;
