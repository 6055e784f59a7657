//! The two role-restricted views of one event.
//!
//! A signaler may only set or clear the flag; a listener may only observe or
//! wait on it. The split is a type-level capability boundary: holding only a
//! signaler makes blocking impossible, holding only a listener makes
//! mutation impossible. Both are thin shared references to the same event
//! and clone freely; a clone is a new handle to the old event, never a new
//! event.

use vstd::prelude::*;
use std::time::Duration;
use crate::error::WaitHandleError;
use crate::event::WaitHandle;
use crate::WaitHandleResult;

verus! {

/// The signaling half of a wait handle.
#[derive(Debug)]
pub struct WaitHandleSignaler {
    handle: WaitHandle,
}

impl WaitHandleSignaler {
    /// The event this signaler sets and clears.
    pub closed spec fn event(&self) -> WaitHandle {
        self.handle
    }

    pub(crate) fn new(handle: WaitHandle) -> (s: WaitHandleSignaler)
        ensures
            s.event() == handle,
    {
        WaitHandleSignaler { handle }
    }

    /// Tries to reset the wait handle to non-signaled. Fails only when the
    /// lock is poisoned.
    pub fn try_reset(&self) -> (r: WaitHandleResult<()>)
        ensures
            r is Err ==> r == Err::<(), WaitHandleError>(WaitHandleError::LockPoisoned),
    {
        self.handle.reset()
    }

    /// Tries to signal the wait handle, releasing every waiter until the
    /// handle is reset. Fails only when the lock is poisoned.
    pub fn try_signal(&self) -> (r: WaitHandleResult<()>)
        ensures
            r is Err ==> r == Err::<(), WaitHandleError>(WaitHandleError::LockPoisoned),
    {
        self.handle.signal()
    }
}

impl Clone for WaitHandleSignaler {
    /// A clone signals the same event as the original.
    fn clone(&self) -> (r: Self)
        ensures
            r == *self,
    {
        WaitHandleSignaler { handle: self.handle.clone() }
    }
}

/// The listening half of a wait handle.
#[derive(Debug)]
pub struct WaitHandleListener {
    handle: WaitHandle,
}

impl WaitHandleListener {
    /// The event this listener observes.
    pub closed spec fn event(&self) -> WaitHandle {
        self.handle
    }

    pub(crate) fn new(handle: WaitHandle) -> (l: WaitHandleListener)
        ensures
            l.event() == handle,
    {
        WaitHandleListener { handle }
    }

    /// Tries to check whether the wait handle is signaled, without blocking.
    /// Fails only when the lock is poisoned.
    pub fn try_check(&self) -> (r: WaitHandleResult<bool>)
        ensures
            r is Err ==> r == Err::<bool, WaitHandleError>(WaitHandleError::LockPoisoned),
    {
        self.handle.check()
    }

    /// Tries to wait until the wait handle is signaled or the timeout
    /// elapses, whichever comes first; returns whether the flag was set when
    /// the wait ended. Fails only when the lock is poisoned.
    pub fn try_wait(&self, timeout: Duration) -> (r: WaitHandleResult<bool>)
        ensures
            r is Err ==> r == Err::<bool, WaitHandleError>(WaitHandleError::LockPoisoned),
    {
        self.handle.wait(timeout)
    }
}

impl Clone for WaitHandleListener {
    /// A clone observes the same event as the original.
    fn clone(&self) -> (r: Self)
        ensures
            r == *self,
    {
        WaitHandleListener { handle: self.handle.clone() }
    }
}

} // verus!
