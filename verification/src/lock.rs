//! The trusted boundary around `std::sync`'s mutex and condition variable.
//!
//! vstd gives no specification for `Mutex`, `Condvar` or the guard, so this
//! module declares the types and wraps the handful of calls the event needs,
//! one call per wrapper. The protected boolean is reachable only through a
//! guard, and while a guard exists nothing else can touch the value, so the
//! value a guard protects is a function of the guard itself: `guard_flag`
//! names it, and the read/write wrappers are specified over that name. What
//! no contract here promises — above all, the flag another thread may have
//! left behind when a lock is acquired — the verified callers must do
//! without.

use vstd::prelude::*;
use std::sync::Condvar;
use std::sync::Mutex;
use std::sync::MutexGuard;
use std::sync::PoisonError;
use std::sync::WaitTimeoutResult;
use std::time::Duration;

verus! {

#[verifier::external_type_specification]
#[verifier::external_body]
#[verifier::reject_recursive_types(T)]
pub struct ExMutex<T: ?Sized>(Mutex<T>);

#[verifier::external_type_specification]
#[verifier::external_body]
pub struct ExCondvar(Condvar);

#[verifier::external_type_specification]
#[verifier::external_body]
#[verifier::reject_recursive_types(T)]
pub struct ExMutexGuard<'a, T: ?Sized + 'a>(MutexGuard<'a, T>);

#[verifier::external_type_specification]
#[verifier::external_body]
#[verifier::reject_recursive_types(T)]
pub struct ExPoisonError<T>(PoisonError<T>);

#[verifier::external_type_specification]
#[verifier::external_body]
pub struct ExWaitTimeoutResult(WaitTimeoutResult);

/// The boolean a held guard protects. While the guard exists the lock is
/// held, so no other thread can change the value: it is determined by the
/// guard alone, changing only when a new value is written through the guard.
pub uninterp spec fn guard_flag(g: MutexGuard<bool>) -> bool;

/// The value a mutex was constructed around, before any thread changed it.
pub uninterp spec fn mutex_init(m: Mutex<bool>) -> bool;

/// Relies on `std::sync::Mutex::new`: the new mutex holds exactly the given
/// value until someone locks it and writes another.
#[verifier::external_body]
pub(crate) fn new_mutex(value: bool) -> (m: Mutex<bool>)
    ensures
        mutex_init(m) == value,
{
    Mutex::new(value)
}

/// Relies on `std::sync::Condvar::new`: a condition variable with no waiters.
#[verifier::external_body]
pub(crate) fn new_condvar() -> Condvar {
    Condvar::new()
}

/// Relies on `std::sync::Mutex::lock`: blocks until the lock is held and
/// hands back the guard, or reports poisoning if an earlier holder panicked.
/// Nothing is promised about the value found under the lock: any thread may
/// have written it since this mutex was last observed. std leaves a
/// re-entrant lock free to panic; that is no function of the arguments, so
/// callers keep to the discipline instead: each operation takes the lock
/// once and releases it before returning.
#[verifier::external_body]
pub(crate) fn lock_flag(m: &Mutex<bool>) -> Result<MutexGuard<bool>, PoisonError<MutexGuard<bool>>> {
    m.lock()
}

/// Relies on the guard's `Deref`: reads the protected boolean.
#[verifier::external_body]
pub(crate) fn read_flag(g: &MutexGuard<bool>) -> (b: bool)
    ensures
        b == guard_flag(*g),
{
    **g
}

/// Relies on the guard's `DerefMut`: writes the protected boolean.
#[verifier::external_body]
pub(crate) fn write_flag(g: &mut MutexGuard<bool>, value: bool)
    ensures
        guard_flag(*final(g)) == value,
{
    **g = value;
}

/// Relies on `std::sync::Condvar::notify_all`: wakes every thread currently
/// blocked on this condition variable. Purely a wake-up; no state changes.
#[verifier::external_body]
pub(crate) fn notify_all(cv: &Condvar) {
    cv.notify_all();
}

/// The wait predicate: a listener keeps waiting while the flag is still
/// clear. Re-checked under the lock on every wake, so a spurious wakeup with
/// the flag still clear just parks the thread again.
pub(crate) fn still_pending(flag: bool) -> (r: bool)
    ensures
        r == !flag,
{
    !flag
}

/// Relies on `std::sync::Condvar::wait_timeout_while`: atomically releases
/// the guard's lock and parks the thread until the predicate — the flag is
/// still clear — turns false or the timeout elapses, then reacquires the
/// lock and returns the guard; reports poisoning if the lock was poisoned
/// while parked. A zero timeout parks no thread; the call still re-evaluates
/// the flag under the lock before returning. Nothing is promised about the
/// flag on return — a timed-out wait finds it either way, so the caller
/// re-reads it through the returned guard. std leaves a condition variable
/// used with two different mutexes free to panic; callers keep each
/// condition variable paired with the one mutex beside it in the event's
/// state.
#[verifier::external_body]
pub(crate) fn wait_timeout_pending<'a>(cv: &Condvar, g: MutexGuard<'a, bool>, timeout: Duration) -> Result<
    (MutexGuard<'a, bool>, WaitTimeoutResult),
    PoisonError<(MutexGuard<'a, bool>, WaitTimeoutResult)>,
> {
    cv.wait_timeout_while(g, timeout, |pending: &mut bool| still_pending(*pending))
}

/// Relies on `std::time::Duration::from_micros`: the duration of that many
/// microseconds; zero microseconds is the zero duration.
#[verifier::external_body]
pub(crate) fn duration_micros(micros: u64) -> Duration {
    Duration::from_micros(micros)
}

} // verus!
