# concurrency

Thread-synchronisation building blocks and the decision logic of a small
asynchronous runtime, verified with Verus.

- `src/semaphore.rs`: a counting semaphore over a `std::sync::Mutex` and
  `Condvar`; the counter steps (`Permits`) are exact, and any sequence of
  waits and posts from no holder keeps the count at most `max` (or none).
  That this count matches the threads inside is not proved.
- `src/channels.rs`: a bounded multi-sender channel built on the semaphore.
- `src/coroutine.rs`, `src/scheduling.rs`: the greeting coroutines as state
  machines, with the text each step prints.
- `src/selector.rs`: the waker table and request queue of a kqueue(2)
  selector; each event is turned into the kernel changes to submit and the
  wakers to wake.
- `src/locking.rs`: the standard library's lock primitives as the library
  calls them.
- `app/`: the `Future` impls, the executor and the kqueue driver, which the
  library's decisions plug into.
