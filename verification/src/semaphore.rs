//! A counting semaphore: at most `max` threads hold it at a time.

use crate::locking::{lock, new_condvar, new_mutex, notify_one};
use std::sync::{Condvar, Mutex, MutexGuard, PoisonError};
use vstd::prelude::*;

verus! {

/// The semaphore's counter: how many threads hold the semaphore. The limit
/// it is held against is the semaphore's `max`, kept beside the mutex.
#[derive(Clone, Copy)]
pub struct Permits {
    held: isize,
}

impl Permits {
    /// Number of current holders.
    pub closed spec fn held(self) -> int {
        self.held as int
    }

    /// Number of current holders.
    pub fn holders(&self) -> (n: isize)
        ensures
            n == self.held(),
    {
        self.held
    }

    /// A counter with no holders.
    pub fn new() -> (p: Permits)
        ensures
            p.held() == 0,
    {
        Permits { held: 0 }
    }

    /// Whether a newcomer has to wait before a semaphore of limit `max`.
    pub fn is_full(&self, max: isize) -> (full: bool)
        ensures
            full == (self.held() >= max),
    {
        self.held >= max
    }

    /// One more holder; only allowed below the limit `max`, so the count
    /// never goes past it.
    pub fn acquire(&mut self, max: isize)
        requires
            old(self).held() < max,
        ensures
            final(self).held() == old(self).held() + 1,
            final(self).held() <= max,
            call_step(old(self).held(), max as int, SemaphoreCall::Wait) == Some(final(self).held()),
    {
        self.held = self.held + 1;
    }

    /// One holder less; reports whether a waiter should be woken, that is,
    /// whether the count is now at or under the limit `max`. The count never
    /// goes below `isize::MIN`.
    pub fn release(&mut self, max: isize) -> (wake: bool)
        ensures
            final(self).held() == released_count(old(self).held()),
            call_step(old(self).held(), max as int, SemaphoreCall::Post) == Some(final(self).held()),
            wake == (final(self).held() <= max),
    {
        if self.held > isize::MIN {
            self.held = self.held - 1;
        }
        self.held <= max
    }
}

/// The count after one holder leaves.
pub open spec fn released_count(held: int) -> int {
    if held > isize::MIN {
        held - 1
    } else {
        held
    }
}

/// A holder that comes in and goes out leaves the count where it was.
pub proof fn lemma_release_undoes_acquire(held: int, max: int)
    requires
        isize::MIN <= held < max <= isize::MAX,
    ensures
        released_count(held + 1) == held,
{
}

/// Letting a holder out of a counter within the limit always wakes a
/// waiter.
pub proof fn lemma_release_within_limit_wakes(held: int, max: int)
    requires
        held <= max,
    ensures
        released_count(held) <= max,
{
}

/// A call made on a semaphore.
#[derive(PartialEq, Eq, Structural, Clone, Copy, Debug)]
pub enum SemaphoreCall {
    Wait,
    Post,
}

/// The count after `call` from `held`, against the limit `max`; `None` where
/// `wait` would have to block.
pub open spec fn call_step(held: int, max: int, call: SemaphoreCall) -> Option<int> {
    match call {
        SemaphoreCall::Wait => if held < max {
            Some(held + 1)
        } else {
            None
        },
        SemaphoreCall::Post => Some(released_count(held)),
    }
}

/// The count after the calls `calls`, made one after the other from `held`;
/// `None` where one of them would have to block.
pub open spec fn run_calls(held: int, max: int, calls: Seq<SemaphoreCall>) -> Option<int>
    decreases calls.len(),
{
    if calls.len() == 0 {
        Some(held)
    } else {
        match call_step(held, max, calls[0]) {
            Some(next) => run_calls(next, max, calls.drop_first()),
            None => None,
        }
    }
}

/// Whatever calls are made, one after the other, on a semaphore that
/// starts with no holder, it never has more than `max` holders, unless it
/// has none at all.
pub proof fn lemma_never_more_than_max(max: int, calls: Seq<SemaphoreCall>)
    ensures
        run_calls(0, max, calls) matches Some(h) ==> h <= max || h <= 0,
{
    lemma_bound_kept(0, max, calls);
}

/// The bound of [`lemma_never_more_than_max`], from any count within it.
proof fn lemma_bound_kept(held: int, max: int, calls: Seq<SemaphoreCall>)
    requires
        held <= max || held <= 0,
    ensures
        run_calls(held, max, calls) matches Some(h) ==> h <= max || h <= 0,
    decreases calls.len(),
{
    if calls.len() > 0 {
        match call_step(held, max, calls[0]) {
            Some(next) => lemma_bound_kept(next, max, calls.drop_first()),
            None => {},
        }
    }
}

/// The counter that a held guard of the semaphore's mutex gives access to.
pub uninterp spec fn guarded_permits(guard: MutexGuard<'_, Permits>) -> Permits;

/// `std::sync::Condvar::wait_while`, with the condition "the counter has
/// `max` holders or more": blocks, releasing the mutex while asleep, until
/// the counter that `guard` gives access to is below `max`, and hands the
/// guard back then.
#[verifier::external_body]
fn wait_while_full<'a>(condvar: &Condvar, guard: MutexGuard<'a, Permits>, max: isize) -> (free:
    MutexGuard<'a, Permits>)
    ensures
        guarded_permits(free).held() < max,
{
    condvar.wait_while(guard, |p| p.is_full(max)).unwrap_or_else(PoisonError::into_inner)
}

/// Reads the counter through `guard` (`Deref` of `std::sync::MutexGuard`).
#[verifier::external_body]
fn read_permits(guard: &MutexGuard<'_, Permits>) -> (p: Permits)
    ensures
        p == guarded_permits(*guard),
{
    **guard
}

/// Stores `p` through `guard` (`DerefMut` of `std::sync::MutexGuard`).
#[verifier::external_body]
fn write_permits(guard: &mut MutexGuard<'_, Permits>, p: Permits)
    ensures
        guarded_permits(*final(guard)) == p,
{
    **guard = p;
}

/// A counting semaphore shared between threads: `wait` lets a thread in
/// while fewer than `max` hold it, `post` lets one out.
pub struct Semaphore {
    mutex: Mutex<Permits>,
    condvar: Condvar,
    max: isize,
}

impl Semaphore {
    /// Largest number of simultaneous holders.
    pub closed spec fn max(&self) -> int {
        self.max as int
    }

    /// A semaphore with no holders that admits `max` at a time.
    pub fn new(max: isize) -> (s: Semaphore)
        ensures
            s.max() == max,
    {
        Semaphore { mutex: new_mutex(Permits::new()), condvar: new_condvar(), max }
    }

    /// Under the lock, with the count below `max`: one more holder.
    fn enter(&self, guard: &mut MutexGuard<'_, Permits>)
        requires
            guarded_permits(*old(guard)).held() < self.max(),
        ensures
            guarded_permits(*final(guard)).held() == guarded_permits(*old(guard)).held() + 1,
            guarded_permits(*final(guard)).held() <= self.max(),
    {
        let mut permits = read_permits(guard);
        permits.acquire(self.max);
        write_permits(guard, permits);
    }

    /// Under the lock: one holder less; reports whether a waiter is to be
    /// woken, that is, whether the count is now within `max`.
    fn leave(&self, guard: &mut MutexGuard<'_, Permits>) -> (wake: bool)
        ensures
            guarded_permits(*final(guard)).held() == released_count(
                guarded_permits(*old(guard)).held(),
            ),
            wake == (guarded_permits(*final(guard)).held() <= self.max()),
    {
        let mut permits = read_permits(guard);
        let wake = permits.release(self.max);
        write_permits(guard, permits);
        wake
    }

    /// Blocks until fewer than `max` hold the semaphore, then becomes a
    /// holder.
    pub fn wait(&self) {
        let guard = lock(&self.mutex);
        let mut guard = wait_while_full(&self.condvar, guard, self.max);
        self.enter(&mut guard);
    }

    /// Stops holding, and wakes one waiter once the count is back within
    /// the limit.
    pub fn post(&self) {
        let mut guard = lock(&self.mutex);
        if self.leave(&mut guard) {
            notify_one(&self.condvar);
        }
    }
}

} // verus!
