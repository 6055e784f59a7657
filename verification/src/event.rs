//! The event primitive: a shared boolean flag behind a mutex, with a
//! condition variable to park and wake the threads waiting on it.

use vstd::prelude::*;
use std::sync::Arc;
use std::sync::Condvar;
use std::sync::Mutex;
use std::sync::MutexGuard;
use std::time::Duration;
use crate::error::WaitHandleError;
use crate::lock::guard_flag;
use crate::lock::lock_flag;
use crate::lock::mutex_init;
use crate::lock::new_condvar;
use crate::lock::new_mutex;
use crate::lock::notify_all;
use crate::lock::read_flag;
use crate::lock::wait_timeout_pending;
use crate::lock::write_flag;
use crate::lock::duration_micros;
use crate::model::flag_after_set;
use crate::model::set_changes;
use crate::WaitHandleResult;

verus! {

/// The shared state of one event: the flag and the condition variable the
/// waiters park on, bound to the flag's lock.
#[derive(Debug)]
pub(crate) struct EventState {
    pub(crate) flag: Mutex<bool>,
    pub(crate) cond: Condvar,
}

/// A wait handle: a manual-reset event usable as both signaler and listener.
///
/// The handle is a shared reference to one event; cloning it duplicates the
/// reference, never the event. Once signaled the event stays signaled, and
/// releases every waiter, until it is explicitly reset.
#[derive(Debug)]
pub struct WaitHandle {
    pub(crate) state: Arc<EventState>,
}

/// Relies on `std::sync::Arc::clone`: the clone is a new reference to the
/// same allocation, not a copy of the state, so as a value it equals the
/// original.
#[verifier::external_body]
pub(crate) fn share_state(state: &Arc<EventState>) -> (r: Arc<EventState>)
    ensures
        r == *state,
{
    Arc::clone(state)
}

/// One guarded `set` step: writes `value` through the held guard if it
/// differs from the current flag, and reports whether anything changed.
/// This is the entire state machine of the event; everything else is
/// locking around it.
pub(crate) fn apply_set(g: &mut MutexGuard<bool>, value: bool) -> (changed: bool)
    ensures
        guard_flag(*final(g)) == flag_after_set(guard_flag(*old(g)), value),
        changed == set_changes(guard_flag(*old(g)), value),
{
    let current = read_flag(g);
    if current != value {
        write_flag(g, value);
        true
    } else {
        false
    }
}

impl WaitHandle {
    /// The value the event's flag was created with.
    pub closed spec fn init_flag(&self) -> bool {
        mutex_init(self.state.flag)
    }

    /// Creates a new event in the non-signaled state.
    pub fn new() -> (h: WaitHandle)
        ensures
            !h.init_flag(),
    {
        let state = Arc::new(EventState { flag: new_mutex(false), cond: new_condvar() });
        WaitHandle { state }
    }

    /// Checks whether the event is signaled, without blocking: a wait with a
    /// zero timeout. Fails only when the lock is poisoned.
    pub fn check(&self) -> (r: WaitHandleResult<bool>)
        ensures
            r is Err ==> r == Err::<bool, WaitHandleError>(WaitHandleError::LockPoisoned),
    {
        self.wait(duration_micros(0))
    }

    /// Waits until the event is signaled or the timeout elapses, whichever
    /// comes first, and returns whether the flag was set when the wait ended.
    /// A signaled event returns `true` at once; otherwise the thread parks on
    /// the condition variable, re-checking the flag under the lock on every
    /// wake so that a spurious wakeup cannot be mistaken for a signal. A
    /// zero timeout never blocks. Fails only when the lock is poisoned.
    pub fn wait(&self, timeout: Duration) -> (r: WaitHandleResult<bool>)
        ensures
            r is Err ==> r == Err::<bool, WaitHandleError>(WaitHandleError::LockPoisoned),
    {
        let guard = match lock_flag(&self.state.flag) {
            Ok(g) => g,
            Err(e) => {
                return Err(WaitHandleError::from(e));
            },
        };
        match wait_timeout_pending(&self.state.cond, guard, timeout) {
            Ok((g, _timed_out)) => Ok(read_flag(&g)),
            Err(e) => Err(WaitHandleError::from(e)),
        }
    }

    /// Clears the event to non-signaled. Fails only when the lock is
    /// poisoned.
    pub fn reset(&self) -> (r: WaitHandleResult<()>)
        ensures
            r is Err ==> r == Err::<(), WaitHandleError>(WaitHandleError::LockPoisoned),
    {
        self.set(false)
    }

    /// Sets the event to signaled, releasing every current and future
    /// waiter until the event is reset. Fails only when the lock is
    /// poisoned.
    pub fn signal(&self) -> (r: WaitHandleResult<()>)
        ensures
            r is Err ==> r == Err::<(), WaitHandleError>(WaitHandleError::LockPoisoned),
    {
        self.set(true)
    }

    /// Sets the flag to `value` under the lock. Waiters are woken only when
    /// the value actually changes: every parked thread is notified
    /// (broadcast), since any number of listeners may be waiting on a
    /// manual-reset event. Restating the current value wakes nobody.
    fn set(&self, value: bool) -> (r: WaitHandleResult<()>)
        ensures
            r is Err ==> r == Err::<(), WaitHandleError>(WaitHandleError::LockPoisoned),
    {
        let mut guard = match lock_flag(&self.state.flag) {
            Ok(g) => g,
            Err(e) => {
                return Err(WaitHandleError::from(e));
            },
        };
        let changed = apply_set(&mut guard, value);
        if changed {
            notify_all(&self.state.cond);
        }
        Ok(())
    }
}

impl Default for WaitHandle {
    /// The default handle is a fresh event in the non-signaled state.
    fn default() -> (h: Self)
        ensures
            !h.init_flag(),
    {
        WaitHandle::new()
    }
}

impl Clone for WaitHandle {
    /// A clone is another handle to the same event: it shares the flag and
    /// the condition variable with the original.
    fn clone(&self) -> (r: Self)
        ensures
            r == *self,
    {
        WaitHandle { state: share_state(&self.state) }
    }
}

} // verus!
