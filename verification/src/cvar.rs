use vstd::prelude::*;
use vstd::std_specs::cmp::PartialEqSpec;

use crate::sys;

verus! {

/// How many blocked waiters a `set` call wakes.
pub enum Notify {
    /// Wake a single blocked waiter (which one is unspecified).
    One,
    /// Wake every blocked waiter.
    All,
}

/// The single failure mode of the cell: the exclusive lock guarding the
/// value was poisoned by a panic in a thread that held it. There is no
/// recovery; every later operation on the same cell fails with this fault.
#[derive(Clone, Copy, Debug, PartialEq, Eq, Structural)]
pub struct LockFault;

/// Membership of `x` in `s`, measured by `T`'s own equality.
pub open spec fn seq_has<T: PartialEq>(s: Seq<T>, x: T) -> bool {
    exists|i: int| 0 <= i < s.len() && s[i].eq_spec(&x)
}

/// Whether some element of `s` equals `x`, by `T`'s `==`.
pub fn slice_contains<T: PartialEq>(s: &[T], x: &T) -> (r: bool)
    ensures
        T::obeys_eq_spec() ==> (r <==> seq_has(s@, *x)),
{
    let mut i: usize = 0;
    while i < s.len()
        invariant
            0 <= i <= s@.len(),
            T::obeys_eq_spec() ==> forall|j: int| 0 <= j < i ==> !s@[j].eq_spec(x),
        decreases s@.len() - i,
    {
        if s[i] == *x {
            return true;
        }
        i = i + 1;
    }
    false
}

/// The complement of `cond_func` on `v`: the "keep waiting" condition of
/// the host primitive's own re-check loop.
pub(crate) fn predicate_fails<T, F: Fn(&T) -> bool>(cond_func: &F, v: &T) -> (r: bool)
    requires
        cond_func.requires((v,)),
    ensures
        cond_func.ensures((v,), !r),
{
    !cond_func(v)
}

/// How many wake-and-recheck cycles a wait runs in this crate's own loop
/// before handing the rest of the wait to the host primitive's equivalent
/// re-check loop in one call. Verus admits only loops with a termination
/// bound, and a wait that keeps being woken without its predicate holding
/// is genuinely unbounded; past this many cycles (a count no well-behaved
/// workload reaches) the host primitive carries the same loop on.
pub(crate) const WAKE_CYCLE_BOUND: u64 = 1000000;

/// A typed value guarded by an exclusive lock, with a signal channel for
/// waiting until the value satisfies a predicate.
///
/// The value is only ever read or written while the lock is held; waiting
/// releases the lock atomically for the duration of the sleep and holds it
/// again when the sleep ends. Every operation that touches the lock
/// surfaces a [`LockFault`] once the lock has been poisoned.
#[verifier::reject_recursive_types(T)]
pub struct ConditionVariable<T> {
    lock: std::sync::Mutex<T>,
    cvar: std::sync::Condvar,
}

impl<T: PartialEq + Clone> ConditionVariable<T> {
    /// A fresh cell holding `value`, with no waiters.
    pub fn new(value: T) -> ConditionVariable<T> {
        ConditionVariable { lock: sys::mutex_new(value), cvar: sys::condvar_new() }
    }

    /// Replaces the stored value with `value` (the previous value is
    /// discarded), releases the lock, and wakes waiters as `notify` asks.
    /// Fails exactly when the lock is poisoned, in which case nothing is
    /// stored and nobody is woken.
    pub fn set(&self, value: T, notify: Notify) -> Result<(), LockFault> {
        {
            let mut guard = sys::mutex_lock(&self.lock)?;
            sys::guard_replace(&mut guard, value);
        }
        match notify {
            Notify::One => sys::condvar_notify_one(&self.cvar),
            Notify::All => sys::condvar_notify_all(&self.cvar),
        }
        Ok(())
    }

    /// Blocks the calling thread until the stored value satisfies
    /// `cond_func`, tolerating spurious wake-ups by re-checking the
    /// predicate on every wake. The predicate is applied to a snapshot
    /// taken while the lock is held; the lock is released again before the
    /// call returns. Success is reported only after some observed value
    /// satisfied the predicate; if no such value is ever stored the call
    /// blocks indefinitely. Fails exactly when the lock is poisoned at an
    /// acquisition or a reacquisition, abandoning the wait.
    pub fn wait_for_condition<F: Fn(&T) -> bool>(&self, cond_func: F) -> (r: Result<
        (),
        LockFault,
    >)
        requires
            forall|v: &T| cond_func.requires((v,)),
        ensures
            r is Ok ==> exists|v: &T| cond_func.ensures((v,), true),
    {
        let mut guard = sys::mutex_lock(&self.lock)?;
        let mut cycles_left: u64 = WAKE_CYCLE_BOUND;
        loop
            invariant
                forall|v: &T| cond_func.requires((v,)),
            ensures
                exists|v: &T| cond_func.ensures((v,), true),
            decreases cycles_left,
        {
            let current = sys::guard_clone(&guard);
            if cond_func(&current) {
                break;
            }
            if cycles_left == 0 {
                guard = sys::condvar_wait_while(&self.cvar, guard, &cond_func)?;
                break;
            }
            cycles_left = cycles_left - 1;
            guard = sys::condvar_wait(&self.cvar, guard)?;
        }
        Ok(())
    }

    /// Blocks until the stored value equals `expected`; the one-element
    /// case of [`Self::wait_for_in`]. Success is reported only after a
    /// value equal to `expected` was observed. Fails exactly when the
    /// lock is poisoned.
    pub fn wait_for(&self, expected: T) -> (r: Result<(), LockFault>)
        ensures
            r is Ok && T::obeys_eq_spec() ==> exists|v: &T| expected.eq_spec(v),
    {
        let pred = |actual: &T| -> (b: bool)
            ensures
                T::obeys_eq_spec() ==> (b <==> expected.eq_spec(actual)),
            { expected == *actual };
        let r = self.wait_for_condition(pred);
        proof {
            if r is Ok && T::obeys_eq_spec() {
                let v = choose|v: &T| pred.ensures((v,), true);
                assert(expected.eq_spec(v));
            }
        }
        r
    }

    /// Blocks until the stored value equals some element of `expected`
    /// (set membership). Success is reported only after a value equal to
    /// an element of `expected` was observed; with an empty `expected`
    /// the call can never succeed. Fails exactly when the lock is
    /// poisoned.
    pub fn wait_for_in(&self, expected: &[T]) -> (r: Result<(), LockFault>)
        ensures
            r is Ok && T::obeys_eq_spec() ==> exists|v: &T| seq_has(expected@, *v),
    {
        let pred = |actual: &T| -> (b: bool)
            ensures
                T::obeys_eq_spec() ==> (b <==> seq_has(expected@, *actual)),
            { slice_contains(expected, actual) };
        let r = self.wait_for_condition(pred);
        proof {
            if r is Ok && T::obeys_eq_spec() {
                let v = choose|v: &T| pred.ensures((v,), true);
                assert(seq_has(expected@, *v));
            }
        }
        r
    }

    /// Timed version of [`Self::wait_for`]: `Ok(true)` once the stored
    /// value equals `expected`, and only if a value equal to `expected`
    /// was observed; `Ok(false)` once the `timeout_ms` budget is spent
    /// with no match. Fails exactly when the lock is poisoned.
    pub fn wait_for_ms(&self, expected: T, timeout_ms: i64) -> (r: Result<bool, LockFault>)
        ensures
            r == Ok::<bool, LockFault>(true) && T::obeys_eq_spec() ==> exists|v: &T|
                expected.eq_spec(v),
    {
        let pred = |actual: &T| -> (b: bool)
            ensures
                T::obeys_eq_spec() ==> (b <==> expected.eq_spec(actual)),
            { expected == *actual };
        let r = self.wait_for_condition_ms(pred, timeout_ms);
        proof {
            if r == Ok::<bool, LockFault>(true) && T::obeys_eq_spec() {
                let v = choose|v: &T| pred.ensures((v,), true);
                assert(expected.eq_spec(v));
            }
        }
        r
    }

    /// Timed version of [`Self::wait_for_in`]: `Ok(true)` once the
    /// stored value equals some element of `expected`, and only if such
    /// a value was observed — so with an empty `expected` the result is
    /// never `Ok(true)`; `Ok(false)` once the `timeout_ms` budget is
    /// spent with no match. Fails exactly when the lock is poisoned.
    pub fn wait_for_in_ms(&self, expected: &[T], timeout_ms: i64) -> (r: Result<bool, LockFault>)
        ensures
            r == Ok::<bool, LockFault>(true) && T::obeys_eq_spec() ==> exists|v: &T| seq_has(
                expected@,
                *v,
            ),
            expected@.len() == 0 && T::obeys_eq_spec() ==> (r matches Ok(b) ==> !b),
    {
        let pred = |actual: &T| -> (b: bool)
            ensures
                T::obeys_eq_spec() ==> (b <==> seq_has(expected@, *actual)),
            { slice_contains(expected, actual) };
        let r = self.wait_for_condition_ms(pred, timeout_ms);
        proof {
            if r == Ok::<bool, LockFault>(true) && T::obeys_eq_spec() {
                let v = choose|v: &T| pred.ensures((v,), true);
                assert(seq_has(expected@, *v));
            }
        }
        r
    }

    /// An independent copy of the value stored at some moment between the
    /// call and the return; blocks only for ordinary lock contention.
    /// Fails exactly when the lock is poisoned.
    pub fn get(&self) -> Result<T, LockFault> {
        let guard = sys::mutex_lock(&self.lock)?;
        Ok(sys::guard_clone(&guard))
    }

    /// Timed version of [`Self::wait_for_condition`]: blocks until the
    /// stored value satisfies `cond_func` or a budget of `timeout_ms`
    /// milliseconds, measured on a monotonic clock across possibly many
    /// wake-and-recheck cycles, is spent. The returned flag is the
    /// predicate, evaluated once more on the value held under the lock
    /// after the loop ends, whichever way it ended; so `Ok(true)` is
    /// reported only when some observed value satisfied the predicate,
    /// and a predicate that can never return true yields `Ok(false)`.
    /// Fails exactly when the lock is poisoned.
    pub fn wait_for_condition_ms<F: Fn(&T) -> bool>(&self, cond_func: F, timeout_ms: i64) -> (r:
        Result<bool, LockFault>)
        requires
            forall|v: &T| cond_func.requires((v,)),
        ensures
            r matches Ok(b) ==> exists|v: &T| cond_func.ensures((v,), b),
            (forall|v: &T| !cond_func.ensures((v,), true)) ==> (r matches Ok(b) ==> !b),
    {
        let mut guard = sys::mutex_lock(&self.lock)?;
        let mut remaining_ms: i64 = timeout_ms;
        let mut zero_ms_wakes_left: u64 = WAKE_CYCLE_BOUND;
        loop
            invariant
                forall|v: &T| cond_func.requires((v,)),
            decreases remaining_ms, zero_ms_wakes_left,
        {
            let current = sys::guard_clone(&guard);
            if cond_func(&current) {
                break;
            }
            if remaining_ms <= 0 {
                break;
            }
            if zero_ms_wakes_left == 0 {
                // A run of WAKE_CYCLE_BOUND wake-ups within a single
                // measured millisecond: no termination bound fits such a
                // wait, so the rest of the budget goes to the host
                // primitive's own accounting loop in one call.
                guard = sys::condvar_wait_timeout_while(
                    &self.cvar,
                    guard,
                    remaining_ms as u64,
                    &cond_func,
                )?;
                break;
            }
            let before_ns = sys::monotonic_now_ns();
            let chunk: u32 = if remaining_ms < (u32::MAX as i64) {
                remaining_ms as u32
            } else {
                u32::MAX
            };
            let woken = sys::condvar_wait_timeout(&self.cvar, guard, chunk)?;
            guard = woken.0;
            let after_ns = sys::monotonic_now_ns();
            let elapsed: u64 = elapsed_ms(before_ns, after_ns);
            if elapsed == 0 {
                zero_ms_wakes_left = zero_ms_wakes_left - 1;
            } else {
                let spent: i64 = if elapsed < (i64::MAX as u64) {
                    elapsed as i64
                } else {
                    i64::MAX
                };
                // A long final sleep may overshoot the whole budget; the
                // budget then bottoms out, the loop stops, and the final
                // predicate check decides the result.
                remaining_ms = if spent < remaining_ms {
                    remaining_ms - spent
                } else {
                    0
                };
                zero_ms_wakes_left = WAKE_CYCLE_BOUND;
            }
        }
        let current = sys::guard_clone(&guard);
        let matched = cond_func(&current);
        let r: Result<bool, LockFault> = Ok(matched);
        proof {
            assert(cond_func.ensures((&current,), matched));
            assert(exists|v: &T| cond_func.ensures((v,), matched));
            assert(r->Ok_0 == matched);
        }
        r
    }
}

impl ConditionVariable<()> {
    /// Single-shot timed wait for a notification, for a cell used purely
    /// as a signal carrying no payload: blocks until notified (or woken
    /// spuriously) or until roughly `timeout_ms` milliseconds have
    /// passed, and reports with `Ok(true)` that the wait ended by
    /// timeout rather than by a wake-up. It does not loop on a
    /// predicate: with no payload there is nothing to re-check. Fails
    /// exactly when the lock is poisoned, surfaced as a fault here too
    /// for uniformity with every other operation on the cell.
    pub fn wait_ms(&self, timeout_ms: u32) -> Result<bool, LockFault> {
        let guard = sys::mutex_lock(&self.lock)?;
        let woken = sys::condvar_wait_timeout(&self.cvar, guard, timeout_ms)?;
        Ok(woken.1)
    }
}

/// Whole milliseconds of a monotonic clock between two nanosecond
/// readings; a reading pair out of order counts as no time spent.
pub(crate) fn elapsed_ms(before_ns: u64, after_ns: u64) -> (r: u64)
    ensures
        r == spec_elapsed_ms(before_ns, after_ns),
{
    if after_ns >= before_ns {
        (after_ns - before_ns) / 1000000
    } else {
        0
    }
}

/// The milliseconds that passed between two nanosecond clock readings.
pub open spec fn spec_elapsed_ms(before_ns: u64, after_ns: u64) -> int {
    if after_ns >= before_ns {
        (after_ns - before_ns) / 1000000
    } else {
        0
    }
}

} // verus!
