//! The standard library's blocking primitives (`Mutex`, `MutexGuard`,
//! `Condvar`), as the rest of the library sees them.

use std::sync::{Arc, Condvar, Mutex, MutexGuard, PoisonError};
use vstd::prelude::*;

verus! {

#[verifier::external_type_specification]
#[verifier::external_body]
#[verifier::reject_recursive_types(T)]
pub struct ExMutex<T: ?Sized>(Mutex<T>);

#[verifier::external_type_specification]
#[verifier::external_body]
#[verifier::reject_recursive_types(T)]
pub struct ExMutexGuard<'a, T: ?Sized + 'a>(MutexGuard<'a, T>);

#[verifier::external_type_specification]
#[verifier::external_body]
pub struct ExCondvar(Condvar);

/// `std::sync::Mutex::new`: a fresh, unlocked mutex around `value`.
/// Nothing is stated of the result: what it holds is only ever read back
/// through a guard.
#[verifier::external_body]
pub(crate) fn new_mutex<T>(value: T) -> Mutex<T> {
    Mutex::new(value)
}

/// `std::sync::Condvar::new`: a condition variable with no waiters.
#[verifier::external_body]
pub(crate) fn new_condvar() -> Condvar {
    Condvar::new()
}

/// `std::sync::Mutex::lock`: blocks until this thread holds the mutex.
/// A lock poisoned by a panicking holder still hands out its guard (the
/// library's own code never panics while it holds one). What the guard
/// holds depends on the other threads, so nothing is stated of it.
#[verifier::external_body]
pub(crate) fn lock<T>(mutex: &Mutex<T>) -> MutexGuard<'_, T> {
    mutex.lock().unwrap_or_else(PoisonError::into_inner)
}

/// `std::sync::Condvar::notify_one`: wakes one thread blocked on `condvar`,
/// if there is one.
#[verifier::external_body]
pub(crate) fn notify_one(condvar: &Condvar) {
    condvar.notify_one()
}

/// `Clone` of `std::sync::Arc`: another pointer to the same allocation.
#[verifier::external_body]
pub(crate) fn share<T>(shared: &Arc<T>) -> (other: Arc<T>)
    ensures
        other == *shared,
{
    Arc::clone(shared)
}

} // verus!
