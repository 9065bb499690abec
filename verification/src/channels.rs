//! A bounded channel: any number of senders, one receiver. A sender blocks
//! while `max` items are on their way; the receiver blocks while none is.

use crate::locking::{lock, new_condvar, new_mutex, notify_one, share};
use crate::semaphore::Semaphore;
use std::collections::VecDeque;
use std::sync::{Arc, Condvar, Mutex, MutexGuard, PoisonError};
use vstd::prelude::*;

verus! {

/// Whether the buffer is empty; the condition that the receiver sleeps on.
fn buffer_is_empty<T>(buffer: &mut VecDeque<T>) -> (empty: bool)
    ensures
        empty == (old(buffer)@.len() == 0),
        final(buffer)@ == old(buffer)@,
{
    buffer.len() == 0
}

/// Moves the buffer out of the mutex that `guard` holds, leaving an empty
/// one in its place (`std::mem::take` through the guard's `DerefMut`).
/// What the buffer holds depends on the other threads, so nothing is stated
/// of it.
#[verifier::external_body]
fn take_buffer<T>(guard: &mut MutexGuard<'_, VecDeque<T>>) -> VecDeque<T> {
    std::mem::take(&mut **guard)
}

/// Moves `buffer` back into the mutex that `guard` holds (assignment
/// through the guard's `DerefMut`).
#[verifier::external_body]
fn restore_buffer<T>(guard: &mut MutexGuard<'_, VecDeque<T>>, buffer: VecDeque<T>) {
    **guard = buffer;
}

/// `std::sync::Condvar::wait_while`, with the condition "the buffer is
/// empty", then `std::mem::take` of the buffer through the guard it hands
/// back. `wait_while` returns only once the condition is false for the
/// buffer, so the buffer taken out is not empty.
#[verifier::external_body]
fn wait_take_nonempty<'a, T>(condvar: &Condvar, guard: MutexGuard<'a, VecDeque<T>>) -> (r: (
    MutexGuard<'a, VecDeque<T>>,
    VecDeque<T>,
))
    ensures
        r.1@.len() > 0,
{
    let mut guard = condvar.wait_while(guard, |q| buffer_is_empty(q)).unwrap_or_else(
        PoisonError::into_inner,
    );
    let buffer = std::mem::take(&mut *guard);
    (guard, buffer)
}

/// Queues `item` behind the items already in `buffer`.
pub fn enqueue<T>(buffer: &mut VecDeque<T>, item: T)
    ensures
        final(buffer)@ == old(buffer)@.push(item),
{
    buffer.push_back(item);
}

/// Takes the oldest item out of a non-empty `buffer`.
pub fn dequeue_oldest<T>(buffer: &mut VecDeque<T>) -> (item: T)
    requires
        old(buffer)@.len() > 0,
    ensures
        item == old(buffer)@[0],
        final(buffer)@ == old(buffer)@.drop_first(),
{
    buffer.pop_front().unwrap()
}

/// The sending end of a channel; it can be cloned for more senders.
#[verifier::reject_recursive_types(T)]
pub struct Sender<T> {
    sem: Arc<Semaphore>,
    buf: Arc<Mutex<VecDeque<T>>>,
    cond: Arc<Condvar>,
}

/// The receiving end of a channel.
#[verifier::reject_recursive_types(T)]
pub struct Receiver<T> {
    sem: Arc<Semaphore>,
    buf: Arc<Mutex<VecDeque<T>>>,
    cond: Arc<Condvar>,
}

impl<T> Sender<T> {
    /// Largest number of items on their way at a time.
    pub closed spec fn capacity(&self) -> int {
        self.sem.max()
    }

    /// Whether this sender and `rx` hold the same semaphore, buffer and
    /// condition variable handles (as values: in this library they are
    /// always clones of one `Arc`), that is, are the two ends of one channel.
    pub closed spec fn same_channel(&self, rx: &Receiver<T>) -> bool {
        &&& self.sem == rx.sem
        &&& self.buf == rx.buf
        &&& self.cond == rx.cond
    }

    /// Whether this sender and `other` hold the same semaphore, buffer and
    /// condition variable handles (as values), that is, send into one
    /// channel.
    pub closed spec fn same_sender(&self, other: &Sender<T>) -> bool {
        &&& self.sem == other.sem
        &&& self.buf == other.buf
        &&& self.cond == other.cond
    }
}

/// A sender that sends into the same channel as one end of a channel is an
/// end of that channel too.
pub proof fn lemma_same_sender_same_channel<T>(a: &Sender<T>, b: &Sender<T>, rx: &Receiver<T>)
    requires
        b.same_sender(a),
        a.same_channel(rx),
    ensures
        b.same_channel(rx),
        b.capacity() == rx.capacity(),
{
}

impl<T> Receiver<T> {
    /// Largest number of items on their way at a time.
    pub closed spec fn capacity(&self) -> int {
        self.sem.max()
    }
}

impl<T> Clone for Sender<T> {
    /// Another sender into the same channel.
    fn clone(&self) -> (s: Self)
        ensures
            s.same_sender(self),
            s.capacity() == self.capacity(),
    {
        Sender { sem: share(&self.sem), buf: share(&self.buf), cond: share(&self.cond) }
    }
}

impl<T: Send> Sender<T> {
    /// Waits until fewer than `capacity` items are on their way, then queues
    /// `data` behind those already queued and wakes the receiver.
    pub fn send(&self, data: T) {
        self.sem.wait();
        let mut guard = lock(&self.buf);
        let mut buffer = take_buffer(&mut guard);
        enqueue(&mut buffer, data);
        restore_buffer(&mut guard, buffer);
        notify_one(&self.cond);
    }
}

impl<T> Receiver<T> {
    /// Waits until an item is queued, takes the oldest one, and lets the
    /// next sender in.
    pub fn recv(&self) -> T {
        let guard = lock(&self.buf);
        let (mut guard, mut buffer) = wait_take_nonempty(&self.cond, guard);
        let data = dequeue_oldest(&mut buffer);
        restore_buffer(&mut guard, buffer);
        self.sem.post();
        data
    }
}

/// A channel that lets at most `max` items be on their way at a time.
pub fn channels<T>(max: isize) -> (r: (Sender<T>, Receiver<T>))
    ensures
        r.0.same_channel(&r.1),
        r.0.capacity() == max,
        r.1.capacity() == max,
{
    let sem = Arc::new(Semaphore::new(max));
    let buf = Arc::new(new_mutex(VecDeque::new()));
    let cond = Arc::new(new_condvar());
    let sender = Sender { sem: share(&sem), buf: share(&buf), cond: share(&cond) };
    let receiver = Receiver { sem, buf, cond };
    (sender, receiver)
}

} // verus!
