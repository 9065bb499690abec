//! Synchronisation building blocks (a counting semaphore, a bounded
//! channel) and the decision logic of a small coroutine executor and of a
//! readiness-based I/O selector.

pub mod channels;
pub mod coroutine;
pub mod locking;
pub mod scheduling;
pub mod selector;
pub mod semaphore;
