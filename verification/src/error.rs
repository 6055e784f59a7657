use vstd::prelude::*;
use vstd::string::StringExecFns;
use std::sync::PoisonError;

verus! {

/// Represents a wait handle error.
///
/// The only way an operation on a wait handle can fail is that the lock
/// guarding the shared flag was poisoned: an earlier holder panicked while
/// holding it, so the flag's last value can no longer be trusted. The
/// handle never recovers from this by itself; every later operation keeps
/// reporting it and the caller decides how to proceed.
#[derive(Debug, Clone, Copy, PartialEq, Eq, Structural)]
pub enum WaitHandleError {
    LockPoisoned,
}

impl WaitHandleError {
    /// The error's description, in place of a `Display` impl.
    pub fn message(&self) -> (r: String)
        ensures
            r@ == "wait handle lock poisoned"@,
    {
        String::from_str("wait handle lock poisoned")
    }
}

impl<T> From<PoisonError<T>> for WaitHandleError {
    /// A poisoned-lock error from std, whatever guard it carries, becomes
    /// the library's one error kind.
    fn from(_v: PoisonError<T>) -> Self {
        WaitHandleError::LockPoisoned
    }
}

impl<T> vstd::std_specs::convert::FromSpecImpl<PoisonError<T>> for WaitHandleError {
    open spec fn obeys_from_spec() -> bool {
        true
    }

    open spec fn from_spec(v: PoisonError<T>) -> WaitHandleError {
        WaitHandleError::LockPoisoned
    }
}

} // verus!
