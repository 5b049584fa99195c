//! Local nonce bookkeeping for transactions sent from a single account.
//!
//! The crate tracks the next nonce to assign to an outgoing transaction so
//! that many transactions can be prepared in quick succession without waiting
//! for each one to be acknowledged. It is the decision core of a decorator
//! that sits in front of a lower-level transaction submitter: the submitter
//! owns signing, field completion and broadcasting, while this crate owns
//! nonce assignment, lazy initialization from the remote transaction count,
//! and the single-retry recovery used when the local counter falls behind the
//! remote ledger's view.

pub mod state;
pub mod manager;
pub mod laws;
