use concurrency::coroutine::{Hello, HelloPoll};
use concurrency::scheduling;

#[test]
fn use_hello_coroutine() {
    let mut hello = Hello::new();
    assert_eq!(hello.poll(), (HelloPoll::Pending, "Hello, "));
    assert_eq!(hello.poll(), (HelloPoll::Pending, "World!\n"));
    assert_eq!(hello.poll(), (HelloPoll::Ready, ""));
    assert_eq!(hello.poll(), (HelloPoll::Ready, ""));
}

#[test]
fn main_scheculing() {
    // Poll the task each time it wakes itself, as the executor does.
    let mut hello = scheduling::Hello::new();
    let mut printed = String::new();
    let mut polls = 0;
    loop {
        let r = hello.poll();
        polls += 1;
        printed.push_str(r.text);
        if !r.wake {
            assert_eq!(r.poll, HelloPoll::Ready);
            break;
        }
        assert_eq!(r.poll, HelloPoll::Pending);
    }
    assert_eq!(polls, 3);
    assert_eq!(printed, "Hello World!\n");
}
