//! A manual-reset event for signaling between threads, built on a mutex and a
//! condition variable.
//!
//! A wait handle is a boolean condition shared by any number of threads. A
//! signaler sets or clears it; listeners observe it, either with a
//! non-blocking check or by blocking with a bounded timeout until it becomes
//! set. Once signaled, the condition stays set until it is explicitly reset,
//! and every waiting listener is released, not just one.

use vstd::prelude::*;

mod error;
mod event;
mod lock;
pub mod model;
mod roles;

pub use error::WaitHandleError;
pub use event::WaitHandle;
pub use roles::WaitHandleListener;
pub use roles::WaitHandleSignaler;

verus! {

/// The result of a wait handle operation.
pub type WaitHandleResult<T> = Result<T, WaitHandleError>;

/// Creates a wait handle pair for signaling and listening.
///
/// Both halves reference the same event, which starts non-signaled: what the
/// signaler sets is what the listener observes. Either half may be cloned to
/// hand more threads a handle to the same event.
pub fn new() -> (r: (WaitHandleSignaler, WaitHandleListener))
    ensures
        r.0.event() == r.1.event(),
        !r.0.event().init_flag(),
{
    let handle = WaitHandle::new();
    let shared = handle.clone();
    (WaitHandleSignaler::new(handle), WaitHandleListener::new(shared))
}

} // verus!
