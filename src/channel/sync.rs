//! The std synchronisation primitives that the handles use: a mutex, its guard, and
//! condition variables. Verus sees these types as opaque.
use std::sync::{Arc, Condvar, Mutex, MutexGuard};
use std::time::Duration;
use vstd::prelude::*;

verus! {

/// `std::sync::Mutex`, carried through unread.
#[verifier::external_type_specification]
#[verifier::external_body]
#[verifier::reject_recursive_types(T)]
pub struct ExMutex<T: ?Sized>(Mutex<T>);

/// `std::sync::MutexGuard`: holding one is holding the lock; dropping it releases the lock.
#[verifier::external_type_specification]
#[verifier::external_body]
#[verifier::reject_recursive_types(T)]
pub struct ExMutexGuard<'a, T: ?Sized + 'a>(MutexGuard<'a, T>);

/// `std::sync::Condvar`, carried through unread.
#[verifier::external_type_specification]
#[verifier::external_body]
pub struct ExCondvar(Condvar);

/// Relies on `Mutex::new`: makes an unlocked mutex around `t`.
pub assume_specification<T>[ Mutex::<T>::new ](t: T) -> Mutex<T>;

/// Relies on `Condvar::new`: makes a condition variable that no thread waits on.
pub assume_specification[ Condvar::new ]() -> Condvar;

/// Relies on `Condvar::notify_one`: wakes one thread waiting on `cv`, if any.
pub assume_specification[ Condvar::notify_one ](cv: &Condvar);

/// Relies on `Condvar::notify_all`: wakes every thread waiting on `cv`.
pub assume_specification[ Condvar::notify_all ](cv: &Condvar);

/// Relies on `Mutex::lock`: blocks until the calling thread holds the lock. It fails only on a
/// lock that a thread left by panicking while it held it, and the steps taken under these locks
/// are verified not to panic; a poisoned lock is a fatal fault, and panics here. `lock` may also
/// panic where the calling thread already holds the lock: no caller here takes a lock while it
/// holds one.
#[verifier::external_body]
pub(crate) fn lock<'a, T>(m: &'a Mutex<T>) -> MutexGuard<'a, T>
{
    m.lock().unwrap()
}

/// Relies on `Condvar::wait_while`: releases the lock, sleeps, and takes the lock again until
/// `blocked` is false of the guarded value, testing it under the lock after every wakeup.
/// Poisoning is treated as in `lock`.
#[verifier::external_body]
pub(crate) fn wait_while<'a, T, F: Fn(&T) -> bool>(
    cv: &Condvar,
    guard: MutexGuard<'a, T>,
    blocked: F,
) -> MutexGuard<'a, T> {
    cv.wait_while(guard, |v| blocked(v)).unwrap()
}

/// Relies on `Condvar::wait_timeout_while`: as `wait_while`, but gives up once `millis`
/// milliseconds have passed, and then hands the lock back whatever `blocked` says.
#[verifier::external_body]
pub(crate) fn wait_timeout_while<'a, T, F: Fn(&T) -> bool>(
    cv: &Condvar,
    guard: MutexGuard<'a, T>,
    millis: u64,
    blocked: F,
) -> MutexGuard<'a, T> {
    let waited = cv.wait_timeout_while(guard, Duration::from_millis(millis), |v| blocked(v));
    waited.unwrap().0
}

/// Relies on `Arc::strong_count`: how many `Arc`s share the value at this instant. Other
/// threads may change it at once, so nothing is stated of it.
#[verifier::external_body]
pub(crate) fn strong_count<T>(a: &Arc<T>) -> usize {
    Arc::strong_count(a)
}

/// Relies on `std::mem::replace` through the guard: puts `v` under the lock and hands back the
/// value that was there. What that value is depends on the other threads, so nothing is stated
/// of it.
#[verifier::external_body]
pub(crate) fn exchange<'a, T>(guard: &mut MutexGuard<'a, T>, v: T) -> T
{
    std::mem::replace(&mut **guard, v)
}

} // verus!
