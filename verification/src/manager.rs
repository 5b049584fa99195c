//! The nonce-managing decorator core.
//!
//! [`LockedNonceManagerMiddleware`] holds the counter for one account and
//! makes every nonce decision of the fill and send paths. The asynchronous
//! shell around this crate owns the inner submitter and an asynchronous
//! read/write lock; it must hold exclusive access to this value for the whole
//! duration of a fill or send call (across every suspension point), which
//! serializes all nonce-consuming calls on one manager. Under that
//! discipline each call is one run of the methods below:
//!
//! - [`LockedNonceManagerMiddleware::prepare`] fixes the working nonce, or
//!   asks for the remote transaction count when lazy initialization is due;
//! - [`LockedNonceManagerMiddleware::apply_remote_count`] stores a fetched
//!   remote count, completing lazy initialization;
//! - [`LockedNonceManagerMiddleware::record_success`] advances the counter
//!   past a consumed working nonce after a successful delegate call, never
//!   moving it backwards;
//! - [`LockedNonceManagerMiddleware::reconcile`] decides, after a failed
//!   broadcast, whether to retry once with the stale working nonce.
//!
//! Errors of the inner submitter are propagated by the shell without calling
//! any of the mutating methods, so a failed call leaves the state unchanged
//! and a later call safely retries.

use vstd::prelude::*;

use crate::state::{spec_apply_remote, spec_reconcile, spec_record_success, NonceState};

verus! {

/// The account whose outgoing transactions this manager numbers: a 20-byte
/// account identifier, immutable after construction. Each manager tracks
/// exactly one account; parallelism across accounts takes one manager each.
#[derive(Clone, Copy, Debug, PartialEq, Eq)]
pub struct Address {
    /// The identifier's raw bytes.
    pub bytes: [u8; 20],
}

/// What the manager decided at the start of a fill or send call, before the
/// inner submitter is consulted.
#[derive(Clone, Copy, Debug, PartialEq, Eq, Structural)]
pub enum CallPrep {
    /// The draft has no nonce and the counter was never initialized: the
    /// remote transaction count must be fetched and stored (via
    /// [`LockedNonceManagerMiddleware::apply_remote_count`]) before a nonce
    /// can be chosen.
    NeedRemote,
    /// The working nonce for this call is fixed. When `assign` is set the
    /// draft carried no nonce and must be stamped with `working`; otherwise
    /// the draft keeps its explicit nonce and `working` (the stored counter)
    /// is used for bookkeeping only.
    Ready { working: u64, assign: bool },
}

/// What the manager decided after a failed broadcast, once the authoritative
/// remote transaction count is known.
#[derive(Clone, Copy, Debug, PartialEq, Eq, Structural)]
pub enum RecoveryDecision {
    /// The remote ledger advanced past the working nonce: the counter was
    /// set to the remote count, and the broadcast is to be retried exactly
    /// once, with the original (now known-stale) working nonce `nonce` —
    /// that is this manager's fixed retry policy.
    Retry { nonce: u64 },
    /// The remote count is not ahead of the working nonce: no retry; the
    /// original broadcast error is propagated unchanged.
    GiveUp,
}

/// The decision core of the nonce-managing decorator: the counter and
/// one-shot initialization flag for a single account, mutated only through
/// the methods below while the caller holds exclusive access.
#[derive(Clone, Copy, Debug)]
pub struct LockedNonceManagerMiddleware {
    /// The guarded counter and its one-shot initialization flag.
    pub state: NonceState,
    /// The account this manager is bound to.
    pub address: Address,
}

impl LockedNonceManagerMiddleware {
    /// Creates a manager for `address` with an uninitialized zero counter.
    /// The first call that needs a nonce will ask for the remote transaction
    /// count to seed it.
    pub fn new(address: Address) -> (r: Self)
        ensures
            r.state == (NonceState { initialized: false, value: 0 }),
            r.address == address,
    {
        LockedNonceManagerMiddleware {
            state: NonceState { initialized: false, value: 0 },
            address,
        }
    }

    /// Returns the next nonce to be used, without mutating anything. Safe
    /// under shared access; a concurrent exclusive holder delays the caller.
    pub fn next(&self) -> (r: u64)
        ensures
            r == self.state.value,
    {
        self.state.value
    }

    /// Whether lazy initialization is still due, i.e. whether the remote
    /// transaction count has never been stored. The shell queries the inner
    /// submitter only when this holds, so the remote query of lazy
    /// initialization runs at most once per manager (see
    /// [`crate::laws::lemma_remote_query_at_most_once`]).
    pub fn needs_remote_init(&self) -> (r: bool)
        ensures
            r == !self.state.initialized,
    {
        !self.state.initialized
    }

    /// Completes lazy initialization: stores the fetched remote transaction
    /// count as the counter and sets the one-shot flag. If the remote query
    /// failed instead, the shell calls nothing and the state is unchanged,
    /// so a later call retries cleanly.
    pub fn apply_remote_count(&mut self, remote: u64)
        requires
            !old(self).state.initialized,
        ensures
            final(self).state == spec_apply_remote(old(self).state, remote),
            final(self).address == old(self).address,
    {
        self.state = NonceState { initialized: true, value: remote };
    }

    /// Opens a fill or send call: reads the stored counter as the working
    /// nonce. When the draft carries no explicit nonce and the counter was
    /// never initialized, the remote transaction count is demanded first;
    /// otherwise the working nonce is fixed at the stored value, and the
    /// draft is to be stamped with it exactly when it had none. An explicit
    /// nonce never changes the bookkeeping: the working nonce is the stored
    /// counter even when the draft's own nonce differs from it.
    pub fn prepare(&self, has_explicit_nonce: bool) -> (r: CallPrep)
        ensures
            self.state.initialized || has_explicit_nonce ==> r == (CallPrep::Ready {
                working: self.state.value,
                assign: !has_explicit_nonce,
            }),
            !self.state.initialized && !has_explicit_nonce ==> r == CallPrep::NeedRemote,
    {
        if self.state.initialized || has_explicit_nonce {
            CallPrep::Ready { working: self.state.value, assign: !has_explicit_nonce }
        } else {
            CallPrep::NeedRemote
        }
    }

    /// Records a successful delegate call (field fill, first broadcast, or
    /// retried broadcast) that consumed working nonce `working`: the counter
    /// advances to the successor of `working` unless it already stands
    /// higher, and never moves backwards. On an ordinary success the counter
    /// holds `working` itself — even when the draft carried an externally
    /// supplied explicit nonce that differed from the stored value — so it
    /// becomes `working + 1`; after a reconciliation has raised the counter
    /// to the remote count, a successful retry leaves it at that count.
    pub fn record_success(&mut self, working: u64)
        ensures
            final(self).state == spec_record_success(old(self).state, working),
            final(self).address == old(self).address,
    {
        let advanced: u64 = if working == u64::MAX {
            u64::MAX
        } else {
            working + 1
        };
        if advanced > self.state.value {
            self.state = NonceState { initialized: self.state.initialized, value: advanced };
        }
    }

    /// Decides recovery after a failed broadcast with working nonce
    /// `working`, given the authoritative remote transaction count `remote`.
    /// When `remote > working` — another actor advanced the account past the
    /// locally cached nonce — the counter is set to `remote` and exactly one
    /// retry with the stale `working` nonce is ordered; otherwise the state
    /// is untouched and the original error is to be propagated unchanged.
    pub fn reconcile(&mut self, working: u64, remote: u64) -> (r: RecoveryDecision)
        ensures
            final(self).state == spec_reconcile(old(self).state, working, remote),
            final(self).address == old(self).address,
            remote > working ==> r == (RecoveryDecision::Retry { nonce: working }),
            remote <= working ==> r == RecoveryDecision::GiveUp,
    {
        if remote > working {
            self.state = NonceState { initialized: self.state.initialized, value: remote };
            RecoveryDecision::Retry { nonce: working }
        } else {
            RecoveryDecision::GiveUp
        }
    }
}

} // verus!
