//! The trusted boundary: declarations of the host lock and signal
//! primitives, and thin wrappers around the calls the cell makes. Verus
//! believes the contracts written here without proof; everything else in
//! the crate is verified against them.

use vstd::prelude::*;

use crate::cvar::LockFault;

verus! {

#[verifier::external_type_specification]
#[verifier::external_body]
#[verifier::reject_recursive_types(T)]
pub struct ExMutex<T: ?Sized>(std::sync::Mutex<T>);

#[verifier::external_type_specification]
#[verifier::external_body]
pub struct ExCondvar(std::sync::Condvar);

#[verifier::external_type_specification]
#[verifier::external_body]
#[verifier::reject_recursive_types(T)]
pub struct ExMutexGuard<'a, T: ?Sized + 'a>(std::sync::MutexGuard<'a, T>);

/// Relies on std::sync::Mutex::new: a fresh unlocked mutex owning `value`.
#[verifier::external_body]
pub(crate) fn mutex_new<T>(value: T) -> std::sync::Mutex<T> {
    std::sync::Mutex::new(value)
}

/// Relies on std::sync::Condvar::new: a fresh signal channel.
#[verifier::external_body]
pub(crate) fn condvar_new() -> std::sync::Condvar {
    std::sync::Condvar::new()
}

/// Relies on std::sync::Mutex::lock: blocks until the calling thread holds
/// the lock exclusively; returns the guard, or a fault exactly when the
/// lock is poisoned.
#[verifier::external_body]
pub(crate) fn mutex_lock<'a, T>(m: &'a std::sync::Mutex<T>) -> Result<
    std::sync::MutexGuard<'a, T>,
    LockFault,
> {
    match m.lock() {
        Ok(g) => Ok(g),
        Err(_) => Err(LockFault),
    }
}

/// Relies on MutexGuard's Deref and T::clone: an independent copy of the
/// value the guard protects.
#[verifier::external_body]
pub(crate) fn guard_clone<'a, T: Clone>(g: &std::sync::MutexGuard<'a, T>) -> T {
    (**g).clone()
}

/// Relies on MutexGuard's DerefMut: overwrites the protected value; the
/// previous value is dropped.
#[verifier::external_body]
pub(crate) fn guard_replace<'a, T>(g: &mut std::sync::MutexGuard<'a, T>, value: T) {
    **g = value;
}

/// Relies on std::sync::Condvar::wait: atomically releases the lock held
/// through `g` and blocks; on wake-up (notification or spurious) the lock
/// is reacquired before the call returns. A fault exactly when the lock is
/// poisoned on reacquisition.
#[verifier::external_body]
pub(crate) fn condvar_wait<'a, T>(
    cv: &std::sync::Condvar,
    g: std::sync::MutexGuard<'a, T>,
) -> Result<std::sync::MutexGuard<'a, T>, LockFault> {
    match cv.wait(g) {
        Ok(g2) => Ok(g2),
        Err(_) => Err(LockFault),
    }
}

/// Relies on std::sync::Condvar::wait_timeout (with
/// core::time::Duration::from_millis for the bound and
/// WaitTimeoutResult::timed_out for the flag): as `condvar_wait`, but the
/// sleep also ends once roughly `ms` milliseconds have elapsed; the flag
/// is true when the wait ended by timeout rather than by a wake-up.
#[verifier::external_body]
pub(crate) fn condvar_wait_timeout<'a, T>(
    cv: &std::sync::Condvar,
    g: std::sync::MutexGuard<'a, T>,
    ms: u32,
) -> Result<(std::sync::MutexGuard<'a, T>, bool), LockFault> {
    match cv.wait_timeout(g, std::time::Duration::from_millis(ms as u64)) {
        Ok((g2, out)) => Ok((g2, out.timed_out())),
        Err(_) => Err(LockFault),
    }
}

/// Relies on std::sync::Condvar::wait_while: blocks until `cond_func`
/// holds of the protected value, releasing the lock for the duration of
/// each sleep and re-checking the predicate on every wake-up, so that
/// spurious wake-ups do not end the wait. On success the predicate
/// returned true of the value observed under the lock. A fault exactly
/// when the lock is poisoned.
///
/// (`wait_while` waits while its condition is true, so it is handed the
/// complement of `cond_func`, through the verified
/// [`crate::cvar::predicate_fails`].)
#[verifier::external_body]
pub(crate) fn condvar_wait_while<'a, T, F: Fn(&T) -> bool>(
    cv: &std::sync::Condvar,
    g: std::sync::MutexGuard<'a, T>,
    cond_func: &F,
) -> (r: Result<std::sync::MutexGuard<'a, T>, LockFault>)
    requires
        forall|v: &T| cond_func.requires((v,)),
    ensures
        r is Ok ==> exists|v: &T| cond_func.ensures((v,), true),
{
    match cv.wait_while(g, |v: &mut T| crate::cvar::predicate_fails(cond_func, v)) {
        Ok(g2) => Ok(g2),
        Err(_) => Err(LockFault),
    }
}

/// Relies on std::sync::Condvar::wait_timeout_while (with
/// core::time::Duration::from_millis for the bound): blocks until
/// `cond_func` holds of the protected value or until roughly `ms`
/// milliseconds of budget, accounted across wake-ups on a monotonic
/// clock, have elapsed; the predicate is re-checked on every wake-up.
/// Nothing is promised of the outcome: the caller re-checks the
/// predicate itself once the lock is held again. A fault exactly when
/// the lock is poisoned.
#[verifier::external_body]
pub(crate) fn condvar_wait_timeout_while<'a, T, F: Fn(&T) -> bool>(
    cv: &std::sync::Condvar,
    g: std::sync::MutexGuard<'a, T>,
    ms: u64,
    cond_func: &F,
) -> Result<std::sync::MutexGuard<'a, T>, LockFault>
    requires
        forall|v: &T| cond_func.requires((v,)),
{
    let dur = std::time::Duration::from_millis(ms);
    match cv.wait_timeout_while(g, dur, |v: &mut T| crate::cvar::predicate_fails(cond_func, v)) {
        Ok((g2, _)) => Ok(g2),
        Err(_) => Err(LockFault),
    }
}

/// Relies on std::sync::Condvar::notify_one: wakes one blocked waiter, if
/// any; which one is unspecified.
#[verifier::external_body]
pub(crate) fn condvar_notify_one(cv: &std::sync::Condvar) {
    cv.notify_one()
}

/// Relies on std::sync::Condvar::notify_all: wakes every blocked waiter.
#[verifier::external_body]
pub(crate) fn condvar_notify_all(cv: &std::sync::Condvar) {
    cv.notify_all()
}

/// Relies on time::precise_time_ns: a reading of a monotonic clock, in
/// nanoseconds from an unspecified epoch. Nothing is promised of the
/// value: it depends on when the call runs.
#[verifier::external_body]
pub(crate) fn monotonic_now_ns() -> u64 {
    time::precise_time_ns()
}

} // verus!
