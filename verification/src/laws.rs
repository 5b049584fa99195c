//! Laws of the nonce manager, proved over runs of the transition functions
//! of [`crate::state`].
//!
//! The executable methods of [`crate::manager::LockedNonceManagerMiddleware`]
//! promise in their `ensures` that every mutation of the state is one of
//! `spec_apply_remote`, `spec_record_success` or `spec_reconcile`, applied
//! under the exclusive lock; a manager's lifetime is therefore a run of
//! [`spec_step`] over a sequence of [`NonceEvent`]s, and the lemmas below
//! speak of all such runs.

use vstd::prelude::*;

use crate::state::{spec_apply_remote, spec_reconcile, spec_record_success, NonceState};

verus! {

/// One serialized mutation of a manager's state.
pub enum NonceEvent {
    /// Lazy initialization stored the fetched remote transaction count.
    ApplyRemote { remote: u64 },
    /// A fill or send call succeeded with the given working nonce.
    RecordSuccess { working: u64 },
    /// A failed broadcast was reconciled against the remote count.
    Reconcile { working: u64, remote: u64 },
}

/// The state transition performed by one event.
pub open spec fn spec_step(s: NonceState, e: NonceEvent) -> NonceState {
    match e {
        NonceEvent::ApplyRemote { remote } => spec_apply_remote(s, remote),
        NonceEvent::RecordSuccess { working } => spec_record_success(s, working),
        NonceEvent::Reconcile { working, remote } => spec_reconcile(s, working, remote),
    }
}

/// The state after a whole sequence of events, applied in order from `s`.
pub open spec fn spec_run(s: NonceState, es: Seq<NonceEvent>) -> NonceState
    decreases es.len(),
{
    if es.len() == 0 {
        s
    } else {
        spec_step(spec_run(s, es.drop_last()), es.last())
    }
}

/// Running a concatenation is running the two halves in order.
pub proof fn lemma_run_concat(s: NonceState, a: Seq<NonceEvent>, b: Seq<NonceEvent>)
    ensures
        spec_run(s, a + b) == spec_run(spec_run(s, a), b),
    decreases b.len(),
{
    if b.len() == 0 {
        assert(a + b =~= a);
    } else {
        lemma_run_concat(s, a, b.drop_last());
        assert((a + b).drop_last() =~= a + b.drop_last());
    }
}

/// The one-shot flag is monotone: no event ever clears it.
pub proof fn lemma_initialized_monotone(s: NonceState, es: Seq<NonceEvent>)
    requires
        s.initialized,
    ensures
        spec_run(s, es).initialized,
    decreases es.len(),
{
    if es.len() > 0 {
        lemma_initialized_monotone(s, es.drop_last());
    }
}

/// The lazy-initialization discipline that the manager's methods enforce:
/// the remote transaction count is fetched and stored only while the state
/// is still uninitialized (the shell is told so by `needs_remote_init` and
/// `prepare`, and `apply_remote_count` requires it).
pub open spec fn lazy_init_disciplined(s: NonceState, es: Seq<NonceEvent>) -> bool {
    forall|i: int|
        0 <= i < es.len() && #[trigger] es[i] is ApplyRemote ==> !spec_run(
            s,
            es.take(i),
        ).initialized
}

/// The remote nonce query of lazy initialization runs at most once across a
/// manager's lifetime: in any disciplined run, two distinct events cannot
/// both store a remote count — the first one sets the one-shot flag, the
/// flag is monotone, and a set flag forbids another store. Under the
/// exclusive lock this holds even when many first callers race: whichever
/// call wins the lock initializes, and every later call finds the flag set.
pub proof fn lemma_remote_query_at_most_once(
    s: NonceState,
    es: Seq<NonceEvent>,
    i: int,
    j: int,
)
    requires
        lazy_init_disciplined(s, es),
        0 <= i < j < es.len(),
        es[i] is ApplyRemote,
    ensures
        !(es[j] is ApplyRemote),
{
    let after_i = spec_run(s, es.take(i + 1));
    assert(es.take(i + 1).drop_last() =~= es.take(i));
    assert(es.take(i + 1).last() == es[i]);
    assert(after_i.initialized);
    assert(es.take(j) =~= es.take(i + 1) + es.subrange(i + 1, j));
    lemma_run_concat(s, es.take(i + 1), es.subrange(i + 1, j));
    lemma_initialized_monotone(after_i, es.subrange(i + 1, j));
    assert(spec_run(s, es.take(j)).initialized);
}

/// The reconciliation discipline that the exclusive lock enforces: a failed
/// broadcast is reconciled against the working nonce the call read from the
/// counter when it opened, and the counter cannot have moved in between,
/// because the call holds exclusive access throughout — so every
/// reconciliation compares the remote count against the current counter.
pub open spec fn reconcile_disciplined(s: NonceState, es: Seq<NonceEvent>) -> bool {
    forall|i: int|
        0 <= i < es.len() && #[trigger] es[i] is Reconcile ==> es[i]->Reconcile_working
            == spec_run(s, es.take(i)).value
}

/// Once the counter is initialized, the stored nonce never decreases: an
/// ordinary success advances it by one, a stale-nonce reconciliation raises
/// it to the remote count, a successful retry then leaves it at that count,
/// and a failed call leaves it unchanged. In particular a send call that
/// recovers from a stale nonce ends with the counter at the remote count,
/// whether or not its single retry succeeds.
pub proof fn lemma_counter_monotone(s: NonceState, es: Seq<NonceEvent>)
    requires
        s.initialized,
        lazy_init_disciplined(s, es),
        reconcile_disciplined(s, es),
    ensures
        spec_run(s, es).value >= s.value,
    decreases es.len(),
{
    if es.len() > 0 {
        let prefix = es.drop_last();
        let n = es.len() - 1;
        assert forall|i: int|
            0 <= i < prefix.len() && #[trigger] prefix[i] is ApplyRemote implies !spec_run(
            s,
            prefix.take(i),
        ).initialized by {
            assert(es[i] is ApplyRemote);
            assert(prefix.take(i) =~= es.take(i));
        }
        assert forall|i: int|
            0 <= i < prefix.len() && #[trigger] prefix[i] is Reconcile
            implies prefix[i]->Reconcile_working == spec_run(s, prefix.take(i)).value by {
            assert(es[i] is Reconcile);
            assert(prefix.take(i) =~= es.take(i));
        }
        lemma_counter_monotone(s, prefix);
        lemma_initialized_monotone(s, prefix);
        assert(es.take(n) =~= prefix);
        if es[n] is ApplyRemote {
            assert(!spec_run(s, prefix).initialized);
            assert(false);
        }
        if es[n] is Reconcile {
            assert(es[n]->Reconcile_working == spec_run(s, prefix).value);
        }
    }
}

/// The state after `k` successful nonce-consuming calls that carried no
/// explicit nonce, starting from `s`: each call reads the stored counter as
/// its working nonce and, on success, advances the counter past it.
pub open spec fn spec_after_implicit_successes(s: NonceState, k: nat) -> NonceState
    decreases k,
{
    if k == 0 {
        s
    } else {
        let prev = spec_after_implicit_successes(s, (k - 1) as nat);
        spec_record_success(prev, prev.value)
    }
}

/// The working nonces assigned by those `k` calls, in call order.
pub open spec fn spec_implicit_nonces(s: NonceState, k: nat) -> Seq<u64>
    decreases k,
{
    if k == 0 {
        Seq::empty()
    } else {
        spec_implicit_nonces(s, (k - 1) as nat).push(
            spec_after_implicit_successes(s, (k - 1) as nat).value,
        )
    }
}

/// Sequential fills, and serialized concurrent sends, hand out consecutive
/// nonces: starting from a counter initialized to `i`, the `j`-th of `k`
/// successful calls with no explicit nonce (counting from zero) is assigned
/// nonce `i + j` — so the `k` nonces are pairwise distinct and cover exactly
/// `{i, ..., i + k - 1}`, with no duplicate and no gap — and the stored
/// counter afterwards reads `i + k`. Concurrent senders are serialized by
/// the exclusive lock, so their calls form exactly such a sequence. The
/// bound `i + k <= u64::MAX` keeps the saturating counter out of its
/// saturation point.
pub proof fn lemma_consecutive_nonces(s: NonceState, k: nat)
    requires
        s.initialized,
        s.value + k <= u64::MAX,
    ensures
        spec_after_implicit_successes(s, k).initialized,
        spec_after_implicit_successes(s, k).value == s.value + k,
        spec_implicit_nonces(s, k).len() == k,
        forall|j: int| 0 <= j < k ==> #[trigger] spec_implicit_nonces(s, k)[j] == s.value + j,
    decreases k,
{
    if k > 0 {
        lemma_consecutive_nonces(s, (k - 1) as nat);
        assert forall|j: int| 0 <= j < k implies #[trigger] spec_implicit_nonces(s, k)[j]
            == s.value + j by {
            if j < k - 1 {
                assert(spec_implicit_nonces(s, k)[j] == spec_implicit_nonces(s, (k - 1) as nat)[j]);
            }
        }
    }
}

/// The nonces of `k` serialized successful implicit calls are pairwise
/// distinct, and every value of `{i, ..., i + k - 1}` occurs among them:
/// no two transactions ever receive the same nonce, and none is skipped.
pub proof fn lemma_nonces_distinct_and_gapless(s: NonceState, k: nat)
    requires
        s.initialized,
        s.value + k <= u64::MAX,
    ensures
        forall|j1: int, j2: int|
            0 <= j1 < k && 0 <= j2 < k && j1 != j2 ==> spec_implicit_nonces(s, k)[j1]
                != spec_implicit_nonces(s, k)[j2],
        forall|n: u64|
            s.value <= n < s.value + k ==> #[trigger] spec_implicit_nonces(s, k).contains(n),
{
    lemma_consecutive_nonces(s, k);
    assert forall|n: u64|
        s.value <= n < s.value + k implies #[trigger] spec_implicit_nonces(s, k).contains(n) by {
        assert(spec_implicit_nonces(s, k)[n - s.value] == n);
    }
}

} // verus!
