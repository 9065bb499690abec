use concurrency::selector::{
    register, retry_submission, trigger_change, KeventError, ReadLine, unregister, user_event_change, Action, AsyncReader, Filter, IOOps,
    KeventChange, Readiness, WakerTable, EV_ADD, EV_CLEAR, EV_DELETE, EV_ONESHOT, NOTE_TRIGGER,
};
use std::collections::VecDeque;

fn delete_change(fd: i32) -> KeventChange {
    KeventChange {
        ident: fd as usize,
        filter: Filter::Read,
        flags: EV_DELETE,
        fflags: 0,
        data: 0,
        udata: fd as isize,
    }
}

#[test]
fn user_event_registration_and_trigger() {
    assert_eq!(
        user_event_change(0),
        KeventChange { ident: 0, filter: Filter::User, flags: EV_ADD | EV_CLEAR, fflags: 0, data: 0, udata: 0 }
    );
    assert_eq!(user_event_change(0).flags, 0x0021);
    assert_eq!(
        trigger_change(7),
        KeventChange { ident: 7, filter: Filter::User, flags: EV_ADD, fflags: NOTE_TRIGGER, data: 0, udata: 0 }
    );
}

#[test]
fn register_queues_an_add_request_and_fires_the_user_event() {
    let mut queue: VecDeque<IOOps<&str>> = VecDeque::new();
    let t = register(&mut queue, 3, 0x4000, 11, "waker");
    assert_eq!(t, trigger_change(3));
    assert_eq!(queue.len(), 1);
    match &queue[0] {
        IOOps::Add(flags, fd, w) => {
            assert_eq!(*flags, 0x4000);
            assert_eq!(*fd, 11);
            assert_eq!(*w, "waker");
        }
        IOOps::Remove(_) => panic!("expected an add request"),
    }
}

#[test]
fn queued_requests_are_carried_out_in_order() {
    let mut table: WakerTable<&str> = WakerTable::new();
    let mut queue: VecDeque<IOOps<&str>> = VecDeque::new();
    assert_eq!(unregister(&mut queue, 0, 5), trigger_change(0));
    assert_eq!(unregister(&mut queue, 0, 6), trigger_change(0));
    let actions = table.handle_event(Readiness { ident: 0, udata: 0 }, 0, &mut queue);
    assert!(queue.is_empty());
    assert_eq!(actions.len(), 2);
    for (a, fd) in actions.iter().zip([5, 6]) {
        match a {
            Action::Apply(c) => assert_eq!(*c, delete_change(fd)),
            Action::Wake(_) => panic!("expected a change"),
        }
    }
    assert!(!table.contains(5));
    assert!(!table.contains(6));
}

#[test]
fn user_event_with_nothing_queued_does_nothing() {
    let mut table: WakerTable<u8> = WakerTable::new();
    let mut queue: VecDeque<IOOps<u8>> = VecDeque::new();
    let actions = table.handle_event(Readiness { ident: 9, udata: 4 }, 9, &mut queue);
    assert!(actions.is_empty());
}

#[test]
fn removing_an_unwatched_descriptor_is_harmless() {
    let mut table: WakerTable<u8> = WakerTable::new();
    assert_eq!(table.rm_event(2), delete_change(2));
    assert_eq!(table.apply(IOOps::Remove(4)), delete_change(4));
    assert!(!table.contains(2));
}

#[test]
fn async_reader_hands_out_a_line_read() {
    let reader = AsyncReader {};
    assert_eq!(reader.read_line(), ReadLine {});
}

#[test]
fn first_registration_adds_the_waker_and_readiness_hands_it_back() {
    let mut table: WakerTable<&str> = WakerTable::new();
    let mut queue: VecDeque<IOOps<&str>> = VecDeque::new();
    register(&mut queue, 0, 0, 8, "w8");
    let actions = table.handle_event(Readiness { ident: 0, udata: 0 }, 0, &mut queue);
    assert_eq!(actions.len(), 1);
    match &actions[0] {
        Action::Apply(c) => assert_eq!(
            *c,
            KeventChange {
                ident: 8,
                filter: Filter::Read,
                flags: EV_ADD | EV_ONESHOT,
                fflags: 0,
                data: 0,
                udata: 8,
            }
        ),
        Action::Wake(_) => panic!("expected a change"),
    }
    assert!(table.contains(8));
    let actions = table.handle_event(Readiness { ident: 8, udata: 8 }, 0, &mut queue);
    assert_eq!(actions.len(), 1);
    match &actions[0] {
        Action::Wake(w) => assert_eq!(*w, "w8"),
        Action::Apply(_) => panic!("expected a waker"),
    }
    assert!(!table.contains(8));
}

#[test]
fn add_event_replaces_a_waker_and_rm_event_forgets_it() {
    let mut table: WakerTable<u32> = WakerTable::new();
    let c = table.add_event(0x4000, 3, 1);
    assert_eq!(c.flags, 0x4000 | EV_ADD | EV_ONESHOT);
    table.add_event(0, 3, 2);
    assert_eq!(table.take_ready(3), 2);
    table.add_event(0, 4, 5);
    assert_eq!(table.rm_event(4), delete_change(4));
    assert!(!table.contains(4));
}

#[test]
fn register_then_unregister_leaves_no_waker() {
    let mut table: WakerTable<u8> = WakerTable::new();
    let mut queue: VecDeque<IOOps<u8>> = VecDeque::new();
    register(&mut queue, 0, 0, 6, 1);
    unregister(&mut queue, 0, 6);
    let actions = table.handle_event(Readiness { ident: 0, udata: 0 }, 0, &mut queue);
    assert_eq!(actions.len(), 2);
    assert!(!table.contains(6));
}

#[test]
fn only_an_existing_registration_is_retried() {
    assert!(retry_submission(KeventError::AlreadyExists));
    assert!(!retry_submission(KeventError::Other));
}
