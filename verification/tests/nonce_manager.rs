use locked_nonce_manager::manager::Address;
use locked_nonce_manager::manager::CallPrep;
use locked_nonce_manager::manager::LockedNonceManagerMiddleware;
use locked_nonce_manager::manager::RecoveryDecision;

fn addr(tag: u8) -> Address {
    let mut bytes = [0u8; 20];
    bytes[19] = tag;
    Address { bytes }
}

// Runs the pre-delegate phase of a fill or send call the way the
// asynchronous shell does, with `remote` standing in for the inner
// submitter's answer to the transaction-count query, and returns the
// working nonce together with whether the draft was to be stamped.
fn open_call(
    m: &mut LockedNonceManagerMiddleware,
    has_explicit_nonce: bool,
    remote: u64,
) -> (u64, bool) {
    match m.prepare(has_explicit_nonce) {
        CallPrep::NeedRemote => {
            if m.needs_remote_init() {
                m.apply_remote_count(remote);
            }
            (m.next(), true)
        }
        CallPrep::Ready { working, assign } => (working, assign),
    }
}

#[test]
fn new_manager_is_uninitialized_at_zero() {
    let m = LockedNonceManagerMiddleware::new(addr(1));
    assert!(m.needs_remote_init());
    assert_eq!(m.next(), 0);
    assert_eq!(m.address.bytes, addr(1).bytes);
}

#[test]
fn first_implicit_call_demands_the_remote_count() {
    let m = LockedNonceManagerMiddleware::new(addr(1));
    assert!(matches!(m.prepare(false), CallPrep::NeedRemote));
}

#[test]
fn explicit_nonce_skips_initialization() {
    let m = LockedNonceManagerMiddleware::new(addr(1));
    // a draft that already carries a nonce never triggers the remote query
    assert_eq!(
        m.prepare(true),
        CallPrep::Ready { working: 0, assign: false }
    );
}

#[test]
fn applying_the_remote_count_initializes_once() {
    let mut m = LockedNonceManagerMiddleware::new(addr(2));
    m.apply_remote_count(42);
    assert!(!m.needs_remote_init());
    assert_eq!(m.next(), 42);
    // a later implicit call finds the counter ready: no second query
    assert_eq!(
        m.prepare(false),
        CallPrep::Ready { working: 42, assign: true }
    );
}

#[test]
fn failed_initialization_leaves_a_clean_retry() {
    let m = LockedNonceManagerMiddleware::new(addr(3));
    // the remote query failed: the shell stores nothing, so the state is
    // untouched and the next caller asks again
    assert!(matches!(m.prepare(false), CallPrep::NeedRemote));
    assert!(m.needs_remote_init());
    assert_eq!(m.next(), 0);
    assert!(matches!(m.prepare(false), CallPrep::NeedRemote));
}

#[test]
fn two_fills_from_remote_count_five() {
    // remote transaction count at construction is 5: the first fill with no
    // explicit nonce is assigned 5 and leaves the counter at 6, the second
    // is assigned 6 and leaves it at 7
    let mut m = LockedNonceManagerMiddleware::new(addr(4));
    let (working, assign) = open_call(&mut m, false, 5);
    assert_eq!((working, assign), (5, true));
    m.record_success(working);
    assert_eq!(m.next(), 6);
    let (working2, assign2) = open_call(&mut m, false, 99);
    assert_eq!((working2, assign2), (6, true));
    m.record_success(working2);
    assert_eq!(m.next(), 7);
}

#[test]
fn sequential_fills_receive_consecutive_nonces() {
    // k-th call on a manager initialized to 10 receives 10 + k - 1, and the
    // counter afterwards reads 10 + k
    let mut m = LockedNonceManagerMiddleware::new(addr(5));
    m.apply_remote_count(10);
    for k in 1u64..=4 {
        let (working, assign) = open_call(&mut m, false, 0);
        assert!(assign);
        assert_eq!(working, 10 + k - 1);
        m.record_success(working);
        assert_eq!(m.next(), 10 + k);
    }
}

#[test]
fn serialized_sends_cover_a_contiguous_range() {
    // three send calls, serialized by the lock, all succeeding on the first
    // attempt: their nonces are pairwise distinct and cover {7, 8, 9}
    let mut m = LockedNonceManagerMiddleware::new(addr(6));
    m.apply_remote_count(7);
    let mut nonces = vec![];
    for _ in 0..3 {
        let (working, _) = open_call(&mut m, false, 0);
        m.record_success(working);
        nonces.push(working);
    }
    assert_eq!(nonces, vec![7, 8, 9]);
    for i in 0..nonces.len() {
        for j in 0..nonces.len() {
            if i != j {
                assert_ne!(nonces[i], nonces[j]);
            }
        }
    }
    assert_eq!(m.next(), 10);
}

#[test]
fn explicit_nonce_still_advances_the_counter() {
    // the counter advances past the stored value after every successful
    // call, even when the draft carried a divergent explicit nonce
    let mut m = LockedNonceManagerMiddleware::new(addr(7));
    m.apply_remote_count(20);
    let (working, assign) = open_call(&mut m, true, 0);
    assert_eq!((working, assign), (20, false));
    m.record_success(working);
    assert_eq!(m.next(), 21);
}

#[test]
fn stale_nonce_recovery_jumps_to_the_remote_count() {
    // stored value 3, a failing send, remote count 10 > 3: the counter
    // becomes 10 and exactly one retry with the stale nonce is ordered
    let mut m = LockedNonceManagerMiddleware::new(addr(8));
    m.apply_remote_count(3);
    let (working, _) = open_call(&mut m, false, 0);
    assert_eq!(working, 3);
    let decision = m.reconcile(working, 10);
    assert_eq!(decision, RecoveryDecision::Retry { nonce: 3 });
    assert_eq!(m.next(), 10);
}

#[test]
fn no_recovery_when_the_remote_count_is_not_ahead() {
    // stored value 5, a failing send, remote count 5 (and then 2): the
    // original error is propagated and the counter stays at 5
    let mut m = LockedNonceManagerMiddleware::new(addr(9));
    m.apply_remote_count(5);
    let (working, _) = open_call(&mut m, false, 0);
    assert_eq!(working, 5);
    assert_eq!(m.reconcile(working, 5), RecoveryDecision::GiveUp);
    assert_eq!(m.next(), 5);
    assert_eq!(m.reconcile(working, 2), RecoveryDecision::GiveUp);
    assert_eq!(m.next(), 5);
}

#[test]
fn send_retry_after_two_external_transactions() {
    // stored value 7; the send fails and the follow-up remote count query
    // returns 9 (two transactions were submitted by another actor): the
    // counter is set to 9 and the broadcast is retried exactly once, whose
    // outcome the call then returns
    let mut m = LockedNonceManagerMiddleware::new(addr(10));
    m.apply_remote_count(7);
    let (working, _) = open_call(&mut m, false, 0);
    assert_eq!(working, 7);
    let mut retries = 0;
    match m.reconcile(working, 9) {
        RecoveryDecision::Retry { nonce } => {
            assert_eq!(nonce, 7);
            retries += 1;
        }
        RecoveryDecision::GiveUp => {}
    }
    assert_eq!(retries, 1);
    assert_eq!(m.next(), 9);
    // the retry succeeded: the counter stays at the remote count, which is
    // already past the consumed stale nonce — it never moves backwards
    m.record_success(working);
    assert_eq!(m.next(), 9);
}

#[test]
fn recovery_keeps_the_remote_count_on_any_retry_outcome() {
    // once a reconciliation has raised the counter to the remote count, it
    // ends the call there whether the single retry succeeds or fails
    let mut succeeded = LockedNonceManagerMiddleware::new(addr(14));
    succeeded.apply_remote_count(2);
    assert_eq!(
        succeeded.reconcile(2, 12),
        RecoveryDecision::Retry { nonce: 2 }
    );
    succeeded.record_success(2);
    assert_eq!(succeeded.next(), 12);

    let mut failed = LockedNonceManagerMiddleware::new(addr(15));
    failed.apply_remote_count(2);
    assert_eq!(failed.reconcile(2, 12), RecoveryDecision::Retry { nonce: 2 });
    // the retry failed: its error propagates and nothing more is recorded
    assert_eq!(failed.next(), 12);
}

#[test]
fn counter_saturates_at_the_maximum() {
    // the counter saturates at u64::MAX instead of wrapping around
    let mut m = LockedNonceManagerMiddleware::new(addr(11));
    m.apply_remote_count(u64::MAX);
    let (working, _) = open_call(&mut m, false, 0);
    assert_eq!(working, u64::MAX);
    m.record_success(working);
    assert_eq!(m.next(), u64::MAX);
}

#[test]
fn managers_for_different_accounts_are_independent() {
    let mut a = LockedNonceManagerMiddleware::new(addr(12));
    let mut b = LockedNonceManagerMiddleware::new(addr(13));
    a.apply_remote_count(100);
    b.apply_remote_count(5);
    let (wa, _) = open_call(&mut a, false, 0);
    a.record_success(wa);
    assert_eq!(a.next(), 101);
    assert_eq!(b.next(), 5);
}
