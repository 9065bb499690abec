//! The coroutine run by the task executor: like the plain one, but it asks
//! to be scheduled again each time it is left pending.

use crate::coroutine::HelloPoll;
use vstd::prelude::*;

verus! {

/// Where the coroutine stands.
#[derive(PartialEq, Eq, Structural, Clone, Copy, Debug)]
pub enum HelloState {
    HELLO,
    WORLD,
    END,
}

/// What one resumption does: its result, the text it prints, and whether it
/// wakes its own task so that the executor polls it again.
#[derive(Clone, Copy, Debug)]
pub struct Resumption {
    pub poll: HelloPoll,
    pub text: &'static str,
    pub wake: bool,
}

/// A coroutine that prints "Hello " and then "World!", rescheduling itself
/// after each step.
pub struct Hello {
    state: HelloState,
}

/// The state after one resumption from `s`.
pub open spec fn next_state(s: HelloState) -> HelloState {
    match s {
        HelloState::HELLO => HelloState::WORLD,
        HelloState::WORLD => HelloState::END,
        HelloState::END => HelloState::END,
    }
}

/// What one resumption from `s` reports.
pub open spec fn poll_result(s: HelloState) -> HelloPoll {
    match s {
        HelloState::END => HelloPoll::Ready,
        _ => HelloPoll::Pending,
    }
}

/// What one resumption from `s` prints.
pub open spec fn printed(s: HelloState) -> Seq<char> {
    match s {
        HelloState::HELLO => "Hello "@,
        HelloState::WORLD => "World!\n"@,
        HelloState::END => ""@,
    }
}

impl Hello {
    pub closed spec fn state(&self) -> HelloState {
        self.state
    }

    /// A coroutine that has not run yet.
    pub fn new() -> (h: Hello)
        ensures
            h.state() == HelloState::HELLO,
    {
        Hello { state: HelloState::HELLO }
    }

    /// One resumption. The task is woken exactly when the coroutine is left
    /// pending.
    pub fn poll(&mut self) -> (r: Resumption)
        ensures
            final(self).state() == next_state(old(self).state()),
            r.poll == poll_result(old(self).state()),
            r.text@ == printed(old(self).state()),
            r.wake == (r.poll == HelloPoll::Pending),
    {
        match self.state {
            HelloState::HELLO => {
                self.state = HelloState::WORLD;
                Resumption { poll: HelloPoll::Pending, text: "Hello ", wake: true }
            },
            HelloState::WORLD => {
                self.state = HelloState::END;
                Resumption { poll: HelloPoll::Pending, text: "World!\n", wake: true }
            },
            HelloState::END => Resumption { poll: HelloPoll::Ready, text: "", wake: false },
        }
    }
}

/// Run by an executor that polls a task whenever it is woken, the coroutine
/// is polled exactly three times: it wakes itself after the first two polls
/// and not after the third, which finds it ready.
pub proof fn lemma_polled_three_times()
    ensures
        poll_result(HelloState::HELLO) == HelloPoll::Pending,
        poll_result(next_state(HelloState::HELLO)) == HelloPoll::Pending,
        poll_result(next_state(next_state(HelloState::HELLO))) == HelloPoll::Ready,
        printed(HelloState::HELLO) + printed(next_state(HelloState::HELLO)) == "Hello "@
            + "World!\n"@,
{
}

/// Once finished, the coroutine stays finished and asks for no more polls.
pub proof fn lemma_end_is_final(s: HelloState)
    requires
        poll_result(s) == HelloPoll::Ready,
    ensures
        next_state(s) == s,
        poll_result(next_state(s)) == HelloPoll::Ready,
{
}

} // verus!
