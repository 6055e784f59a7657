//! Single-threaded behavior of the wait handle: the flag follows the last
//! signal/reset, checking never blocks, a timed wait without a signal times
//! out, and clones share the event.

use std::time::Duration;
use std::time::Instant;

use waithandle::WaitHandle;

#[test]
fn fresh_pair_not_signaled() {
    let (_signaler, listener) = waithandle::new();
    assert_eq!(listener.try_check().unwrap(), false);
}

#[test]
fn check_follows_last_signal() {
    let (signaler, listener) = waithandle::new();
    signaler.try_signal().unwrap();
    assert_eq!(listener.try_check().unwrap(), true);
}

#[test]
fn check_follows_last_reset() {
    let (signaler, listener) = waithandle::new();
    signaler.try_signal().unwrap();
    signaler.try_reset().unwrap();
    assert_eq!(listener.try_check().unwrap(), false);
}

#[test]
fn check_follows_last_of_many_sets() {
    let (signaler, listener) = waithandle::new();
    signaler.try_reset().unwrap();
    signaler.try_signal().unwrap();
    signaler.try_reset().unwrap();
    signaler.try_signal().unwrap();
    assert_eq!(listener.try_check().unwrap(), true);
}

#[test]
fn repeated_sets_are_idempotent() {
    let (signaler, listener) = waithandle::new();
    signaler.try_signal().unwrap();
    signaler.try_signal().unwrap();
    assert_eq!(listener.try_check().unwrap(), true);
    signaler.try_reset().unwrap();
    signaler.try_reset().unwrap();
    assert_eq!(listener.try_check().unwrap(), false);
}

#[test]
fn wait_zero_equals_check_when_clear() {
    let (_signaler, listener) = waithandle::new();
    let by_wait = listener.try_wait(Duration::ZERO).unwrap();
    let by_check = listener.try_check().unwrap();
    assert_eq!(by_wait, by_check);
    assert_eq!(by_wait, false);
}

#[test]
fn wait_zero_equals_check_when_signaled() {
    let (signaler, listener) = waithandle::new();
    signaler.try_signal().unwrap();
    let by_wait = listener.try_wait(Duration::ZERO).unwrap();
    let by_check = listener.try_check().unwrap();
    assert_eq!(by_wait, by_check);
    assert_eq!(by_wait, true);
}

#[test]
fn unsignaled_wait_times_out_within_bounds() {
    let (_signaler, listener) = waithandle::new();
    let timeout = Duration::from_millis(150);
    let start = Instant::now();
    let observed = listener.try_wait(timeout).unwrap();
    let elapsed = start.elapsed();
    assert_eq!(observed, false);
    assert!(elapsed >= timeout);
    assert!(elapsed < Duration::from_secs(5));
}

#[test]
fn signaled_wait_returns_true_immediately() {
    let (signaler, listener) = waithandle::new();
    signaler.try_signal().unwrap();
    let start = Instant::now();
    let observed = listener.try_wait(Duration::from_secs(10)).unwrap();
    assert_eq!(observed, true);
    assert!(start.elapsed() < Duration::from_secs(5));
}

#[test]
fn reset_makes_wait_block_again() {
    let (signaler, listener) = waithandle::new();
    signaler.try_signal().unwrap();
    assert_eq!(listener.try_check().unwrap(), true);
    signaler.try_reset().unwrap();
    assert_eq!(listener.try_wait(Duration::from_millis(50)).unwrap(), false);
}

#[test]
fn single_handle_offers_both_roles() {
    let handle = WaitHandle::new();
    assert_eq!(handle.check().unwrap(), false);
    handle.signal().unwrap();
    assert_eq!(handle.check().unwrap(), true);
    assert_eq!(handle.wait(Duration::ZERO).unwrap(), true);
    handle.reset().unwrap();
    assert_eq!(handle.wait(Duration::from_millis(20)).unwrap(), false);
}

#[test]
fn default_handle_is_not_signaled() {
    let handle = WaitHandle::default();
    assert_eq!(handle.check().unwrap(), false);
}

#[test]
fn handle_clone_shares_the_event() {
    let handle = WaitHandle::new();
    let other = handle.clone();
    handle.signal().unwrap();
    assert_eq!(other.check().unwrap(), true);
    other.reset().unwrap();
    assert_eq!(handle.check().unwrap(), false);
}

#[test]
fn role_clones_share_the_event() {
    let (signaler, listener) = waithandle::new();
    let second_listener = listener.clone();
    let second_signaler = signaler.clone();
    signaler.try_signal().unwrap();
    assert_eq!(listener.try_check().unwrap(), true);
    assert_eq!(second_listener.try_check().unwrap(), true);
    second_signaler.try_reset().unwrap();
    assert_eq!(listener.try_check().unwrap(), false);
    assert_eq!(second_listener.try_check().unwrap(), false);
}

#[test]
fn error_compares_equal_to_itself() {
    let e = waithandle::WaitHandleError::LockPoisoned;
    assert_eq!(e, e.clone());
    assert_eq!(format!("{:?}", e), "LockPoisoned");
}

#[test]
fn error_message_text() {
    let e = waithandle::WaitHandleError::LockPoisoned;
    assert_eq!(e.message(), "wait handle lock poisoned");
}

#[test]
fn poison_error_becomes_lock_poisoned() {
    let e = waithandle::WaitHandleError::from(std::sync::PoisonError::new(0u8));
    assert_eq!(e, waithandle::WaitHandleError::LockPoisoned);
}
