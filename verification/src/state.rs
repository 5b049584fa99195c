//! The nonce bookkeeping record and the mathematical transitions on it.
//!
//! Every mutation a manager can perform on its state is one of the three
//! transition functions below; the executable methods in [`crate::manager`]
//! promise in their `ensures` that they step the state by exactly these
//! functions, and the lemmas in [`crate::laws`] reason about runs of them.

use vstd::prelude::*;

verus! {

/// The mutable bookkeeping owned by one manager: a one-shot initialization
/// flag and the counter holding the next nonce to hand out.
///
/// A fresh manager starts at `initialized == false, value == 0`. The flag is
/// set, at most once, by the first call that stores the remote transaction
/// count; no transition ever clears it again.
#[derive(Clone, Copy, Debug, PartialEq, Eq, Structural)]
pub struct NonceState {
    /// Whether `value` has been seeded from the remote transaction count.
    pub initialized: bool,
    /// The next nonce to assign to a transaction with no explicit nonce.
    pub value: u64,
}

/// The successor of a nonce value. The counter deliberately saturates at
/// `u64::MAX` rather than wrapping: a ledger-scale transaction count never
/// reaches that bound, and saturation keeps the counter monotone even there.
pub open spec fn spec_succ(v: u64) -> u64 {
    if v == u64::MAX {
        u64::MAX
    } else {
        (v + 1) as u64
    }
}

/// Lazy initialization: the remote transaction count is stored as the
/// counter and the one-shot flag is set.
pub open spec fn spec_apply_remote(s: NonceState, remote: u64) -> NonceState {
    NonceState { initialized: true, value: remote }
}

/// A fill or send call succeeded with working nonce `working`: the counter
/// advances to the successor of `working` unless it already stands higher.
/// On an ordinary success the counter holds `working` itself (or, for a
/// draft with an externally supplied explicit nonce, the stored value that
/// `working` was read from), so it becomes `working + 1`; after a
/// stale-nonce reconciliation has raised the counter to the remote count,
/// a successful retry leaves it there. The counter never moves backwards.
pub open spec fn spec_record_success(s: NonceState, working: u64) -> NonceState {
    let advanced = spec_succ(working);
    NonceState {
        initialized: s.initialized,
        value: if advanced > s.value {
            advanced
        } else {
            s.value
        },
    }
}

/// Reconciliation after a failed broadcast with working nonce `working`,
/// given the authoritative remote transaction count `remote`: when the
/// remote ledger has advanced past `working` the counter jumps to `remote`;
/// otherwise the state is left untouched.
pub open spec fn spec_reconcile(s: NonceState, working: u64, remote: u64) -> NonceState {
    if remote > working {
        NonceState { initialized: s.initialized, value: remote }
    } else {
        s
    }
}

} // verus!
