//! A hand-written coroutine: the first resumption greets, the second
//! finishes the line, every later one reports completion.

use vstd::prelude::*;

verus! {

/// Where the coroutine stands.
#[derive(PartialEq, Eq, Structural, Clone, Copy, Debug)]
pub enum StateHello {
    HELLO,
    WORLD,
    END,
}

/// The outcome of one resumption, as `std::task::Poll<()>` has it.
#[derive(PartialEq, Eq, Structural, Clone, Copy, Debug)]
pub enum HelloPoll {
    Pending,
    Ready,
}

/// A coroutine that prints "Hello, " and then "World!" over two resumptions.
pub struct Hello {
    state: StateHello,
}

/// The state after one resumption from `s`.
pub open spec fn next_state(s: StateHello) -> StateHello {
    match s {
        StateHello::HELLO => StateHello::WORLD,
        StateHello::WORLD => StateHello::END,
        StateHello::END => StateHello::END,
    }
}

/// What one resumption from `s` reports.
pub open spec fn poll_result(s: StateHello) -> HelloPoll {
    match s {
        StateHello::END => HelloPoll::Ready,
        _ => HelloPoll::Pending,
    }
}

/// What one resumption from `s` prints.
pub open spec fn printed(s: StateHello) -> Seq<char> {
    match s {
        StateHello::HELLO => "Hello, "@,
        StateHello::WORLD => "World!\n"@,
        StateHello::END => ""@,
    }
}

impl Hello {
    pub closed spec fn state(&self) -> StateHello {
        self.state
    }

    /// A coroutine that has not run yet.
    pub fn new() -> (h: Hello)
        ensures
            h.state() == StateHello::HELLO,
    {
        Hello { state: StateHello::HELLO }
    }

    /// One resumption: the text to print and whether the coroutine is done.
    pub fn poll(&mut self) -> (r: (HelloPoll, &'static str))
        ensures
            final(self).state() == next_state(old(self).state()),
            r.0 == poll_result(old(self).state()),
            r.1@ == printed(old(self).state()),
    {
        match self.state {
            StateHello::HELLO => {
                self.state = StateHello::WORLD;
                (HelloPoll::Pending, "Hello, ")
            },
            StateHello::WORLD => {
                self.state = StateHello::END;
                (HelloPoll::Pending, "World!\n")
            },
            StateHello::END => (HelloPoll::Ready, ""),
        }
    }
}

/// From its start, the coroutine is pending twice, printing "Hello, " and
/// then "World!\n", and is ready from the third resumption on.
pub proof fn lemma_hello_runs_to_completion()
    ensures
        poll_result(StateHello::HELLO) == HelloPoll::Pending,
        printed(StateHello::HELLO) == "Hello, "@,
        poll_result(next_state(StateHello::HELLO)) == HelloPoll::Pending,
        printed(next_state(StateHello::HELLO)) == "World!\n"@,
        poll_result(next_state(next_state(StateHello::HELLO))) == HelloPoll::Ready,
{
}

/// Once finished, the coroutine stays finished and prints nothing more.
pub proof fn lemma_end_is_final(s: StateHello)
    requires
        poll_result(s) == HelloPoll::Ready,
    ensures
        next_state(s) == s,
        poll_result(next_state(s)) == HelloPoll::Ready,
        printed(next_state(s)) == ""@,
{
}

/// Every state reaches the end within two resumptions.
pub proof fn lemma_ends_within_two(s: StateHello)
    ensures
        next_state(next_state(s)) == StateHello::END,
{
}

} // verus!
