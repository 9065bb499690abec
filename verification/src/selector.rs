//! The decisions of a readiness-based I/O selector built on kqueue(2): which
//! descriptors it watches, which waker it keeps for each, and which waker a
//! readiness event wakes. The kernel calls themselves, and the waking, are
//! left to the caller: each decision hands back the change to submit.

use std::collections::{HashMap, VecDeque};
use vstd::prelude::*;
use vstd::std_specs::hash::group_hash_axioms;

verus! {

broadcast use group_hash_axioms;

/// kqueue(2) `EV_ADD`: add the event to the queue.
pub const EV_ADD: u16 = 0x0001;

/// kqueue(2) `EV_DELETE`: remove the event from the queue.
pub const EV_DELETE: u16 = 0x0002;

/// kqueue(2) `EV_ONESHOT`: report the event once, then delete it.
pub const EV_ONESHOT: u16 = 0x0010;

/// kqueue(2) `EV_CLEAR`: reset the event's state once it is reported.
pub const EV_CLEAR: u16 = 0x0020;

/// kqueue(2) `NOTE_TRIGGER`: fire a user event.
pub const NOTE_TRIGGER: u32 = 0x0100_0000;

/// The kqueue filters that the selector uses.
#[derive(PartialEq, Eq, Structural, Clone, Copy, Debug)]
pub enum Filter {
    /// `EVFILT_READ`: the descriptor has data to read.
    Read,
    /// `EVFILT_USER`: an event fired by the program itself.
    User,
}

/// One entry of a kevent change list, field for field as kqueue(2) takes it.
#[derive(PartialEq, Eq, Structural, Clone, Copy, Debug)]
pub struct KeventChange {
    pub ident: usize,
    pub filter: Filter,
    pub flags: u16,
    pub fflags: u32,
    pub data: isize,
    pub udata: isize,
}

/// An event that the kernel reported: what it was registered for, and the
/// user datum it was registered with.
#[derive(PartialEq, Eq, Structural, Clone, Copy, Debug)]
pub struct Readiness {
    pub ident: usize,
    pub udata: isize,
}

/// A request, queued by any thread, for the selector thread to carry out.
pub enum IOOps<W> {
    /// Watch `fd` for reading, with these extra kqueue flags, and wake
    /// `W` when it is ready.
    Add(u16, i32, W),
    /// Stop watching `fd`.
    Remove(i32),
}

/// What the selector thread has to do after an event.
pub enum Action<W> {
    /// Submit this change to the kqueue.
    Apply(KeventChange),
    /// Wake this waker.
    Wake(W),
}

/// The change that watches `fd` for reading, once, with the extra `flags`.
pub open spec fn watch_change(flags: u16, fd: i32) -> KeventChange {
    KeventChange {
        ident: fd as usize,
        filter: Filter::Read,
        flags: flags | EV_ADD | EV_ONESHOT,
        fflags: 0,
        data: 0,
        udata: fd as isize,
    }
}

/// The change that stops watching `fd`.
pub open spec fn unwatch_change(fd: i32) -> KeventChange {
    KeventChange {
        ident: fd as usize,
        filter: Filter::Read,
        flags: EV_DELETE,
        fflags: 0,
        data: 0,
        udata: fd as isize,
    }
}

/// The kqueue change that a queued request comes down to.
pub open spec fn op_change<W>(op: IOOps<W>) -> KeventChange {
    match op {
        IOOps::Add(flags, fd, _) => watch_change(flags, fd),
        IOOps::Remove(fd) => unwatch_change(fd),
    }
}

/// The waker table after one request.
pub open spec fn apply_op<W>(m: Map<i32, W>, op: IOOps<W>) -> Map<i32, W> {
    match op {
        IOOps::Add(_, fd, w) => m.insert(fd, w),
        IOOps::Remove(fd) => m.remove(fd),
    }
}

/// The table after carrying out `ops` one after the other from `m`.
pub open spec fn table_after<W>(m: Map<i32, W>, ops: Seq<IOOps<W>>) -> Map<i32, W>
    decreases ops.len(),
{
    if ops.len() == 0 {
        m
    } else {
        table_after(apply_op(m, ops[0]), ops.drop_first())
    }
}

/// The kqueue changes that `ops` come down to, in order.
pub open spec fn changes_for<W>(ops: Seq<IOOps<W>>) -> Seq<Action<W>> {
    ops.map_values(|op: IOOps<W>| Action::Apply(op_change(op)))
}

/// How the kernel refused a change.
#[derive(PartialEq, Eq, Structural, Clone, Copy, Debug)]
pub enum KeventError {
    /// `EEXIST`: the event is registered already.
    AlreadyExists,
    /// Any other failure.
    Other,
}

/// Whether a refused change is submitted once more: an event that is
/// registered already is registered again, any other refusal is fatal.
pub fn retry_submission(err: KeventError) -> (retry: bool)
    ensures
        retry == (err == KeventError::AlreadyExists),
{
    match err {
        KeventError::AlreadyExists => true,
        KeventError::Other => false,
    }
}

/// The change that registers the selector's own user event, which other
/// threads fire to hand it requests.
pub fn user_event_change(ident: usize) -> (c: KeventChange)
    ensures
        c == (KeventChange {
            ident,
            filter: Filter::User,
            flags: EV_ADD | EV_CLEAR,
            fflags: 0,
            data: 0,
            udata: 0,
        }),
{
    KeventChange { ident, filter: Filter::User, flags: EV_ADD | EV_CLEAR, fflags: 0, data: 0, udata: 0 }
}

/// The change that fires the selector's user event.
pub fn trigger_change(ident: usize) -> (c: KeventChange)
    ensures
        c == (KeventChange {
            ident,
            filter: Filter::User,
            flags: EV_ADD,
            fflags: NOTE_TRIGGER,
            data: 0,
            udata: 0,
        }),
{
    KeventChange { ident, filter: Filter::User, flags: EV_ADD, fflags: NOTE_TRIGGER, data: 0, udata: 0 }
}

/// Queues a request to watch `fd` and wake `waker`; the result fires the
/// selector's user event `ident` so that it picks the request up.
pub fn register<W>(queue: &mut VecDeque<IOOps<W>>, ident: usize, flags: u16, fd: i32, waker: W) -> (c:
    KeventChange)
    ensures
        final(queue)@ == old(queue)@.push(IOOps::Add(flags, fd, waker)),
        c == trigger_change_spec(ident),
{
    queue.push_back(IOOps::Add(flags, fd, waker));
    trigger_change(ident)
}

/// Queues a request to stop watching `fd`; the result fires the selector's
/// user event `ident` so that it picks the request up.
pub fn unregister<W>(queue: &mut VecDeque<IOOps<W>>, ident: usize, fd: i32) -> (c: KeventChange)
    ensures
        final(queue)@ == old(queue)@.push(IOOps::Remove(fd)),
        c == trigger_change_spec(ident),
{
    queue.push_back(IOOps::Remove(fd));
    trigger_change(ident)
}

/// The change that fires the user event `ident`.
pub open spec fn trigger_change_spec(ident: usize) -> KeventChange {
    KeventChange { ident, filter: Filter::User, flags: EV_ADD, fflags: NOTE_TRIGGER, data: 0, udata: 0 }
}

/// The wakers of the watched descriptors, by descriptor.
#[verifier::reject_recursive_types(W)]
pub struct WakerTable<W> {
    wakers: HashMap<i32, W>,
}

impl<W> View for WakerTable<W> {
    type V = Map<i32, W>;

    closed spec fn view(&self) -> Map<i32, W> {
        self.wakers@
    }
}

impl<W> WakerTable<W> {
    /// A table with no waker.
    pub fn new() -> (t: WakerTable<W>)
        ensures
            t@ == Map::<i32, W>::empty(),
    {
        WakerTable { wakers: HashMap::new() }
    }

    /// Whether `fd` has a waker.
    pub fn contains(&self, fd: i32) -> (b: bool)
        ensures
            b == self@.contains_key(fd),
    {
        self.wakers.contains_key(&fd)
    }

    /// Watches `fd` for reading with the extra `flags` and keeps `waker` for
    /// it, in place of any waker that it had.
    pub fn add_event(&mut self, flags: u16, fd: i32, waker: W) -> (c: KeventChange)
        ensures
            final(self)@ == old(self)@.insert(fd, waker),
            c == watch_change(flags, fd),
    {
        let c = KeventChange {
            ident: fd as usize,
            filter: Filter::Read,
            flags: flags | EV_ADD | EV_ONESHOT,
            fflags: 0,
            data: 0,
            udata: fd as isize,
        };
        self.wakers.insert(fd, waker);
        c
    }

    /// Stops watching `fd` and forgets its waker, if it has one.
    pub fn rm_event(&mut self, fd: i32) -> (c: KeventChange)
        ensures
            final(self)@ == old(self)@.remove(fd),
            c == unwatch_change(fd),
    {
        let c = KeventChange {
            ident: fd as usize,
            filter: Filter::Read,
            flags: EV_DELETE,
            fflags: 0,
            data: 0,
            udata: fd as isize,
        };
        self.wakers.remove(&fd);
        c
    }

    /// Carries out one queued request.
    pub fn apply(&mut self, op: IOOps<W>) -> (c: KeventChange)
        ensures
            final(self)@ == apply_op(old(self)@, op),
            c == op_change(op),
            op matches IOOps::Add(_, fd, w) ==> final(self)@ == old(self)@.insert(fd, w),
            op matches IOOps::Add(_, fd, w) ==> final(self)@.contains_key(fd) && final(self)@[fd]
                == w,
            op matches IOOps::Remove(fd) ==> final(self)@ == old(self)@.remove(fd),
            op matches IOOps::Remove(fd) ==> !final(self)@.contains_key(fd),
    {
        match op {
            IOOps::Add(flags, fd, waker) => self.add_event(flags, fd, waker),
            IOOps::Remove(fd) => self.rm_event(fd),
        }
    }

    /// Takes the waker of the descriptor `fd`, which has become ready; a
    /// one-shot watch ends with its event.
    pub fn take_ready(&mut self, fd: i32) -> (w: W)
        requires
            old(self)@.contains_key(fd),
        ensures
            w == old(self)@[fd],
            final(self)@ == old(self)@.remove(fd),
    {
        self.wakers.remove(&fd).unwrap()
    }

    /// Handles one event reported by the kernel. The selector's own user
    /// event `user` means that requests are queued: they are all carried
    /// out, in order, and the changes they come down to are handed back.
    /// Any other event is a watched descriptor (its user datum) becoming
    /// ready: its waker is taken out of the table and handed back to be
    /// woken.
    pub fn handle_event(
        &mut self,
        event: Readiness,
        user: usize,
        queue: &mut VecDeque<IOOps<W>>,
    ) -> (actions: Vec<Action<W>>)
        requires
            event.ident != user ==> old(self)@.contains_key(event.udata as i32),
        ensures
            event.ident == user ==> {
                &&& final(self)@ == table_after(old(self)@, old(queue)@)
                &&& final(queue)@ == Seq::<IOOps<W>>::empty()
                &&& actions@ == changes_for(old(queue)@)
            },
            event.ident != user ==> {
                &&& final(self)@ == old(self)@.remove(event.udata as i32)
                &&& final(queue)@ == old(queue)@
                &&& actions@ == seq![Action::Wake(old(self)@[event.udata as i32])]
            },
    {
        let mut actions: Vec<Action<W>> = Vec::new();
        if event.ident == user {
            let ghost m0 = self@;
            let ghost q0 = queue@;
            while queue.len() > 0
                invariant
                    table_after(self@, queue@) == table_after(m0, q0),
                    actions@ + changes_for(queue@) == changes_for(q0),
                decreases queue@.len(),
            {
                let ghost q = queue@;
                let op = queue.pop_front().unwrap();
                proof {
                    assert(q.drop_first() == queue@);
                    assert(changes_for(q) == seq![Action::Apply(op_change(op))] + changes_for(
                        queue@,
                    ));
                }
                let c = self.apply(op);
                actions.push(Action::Apply(c));
                proof {
                    assert(actions@ + changes_for(queue@) == changes_for(q0));
                }
            }
            proof {
                assert(changes_for(queue@) == Seq::<Action<W>>::empty());
                assert(actions@ == actions@ + changes_for(queue@));
            }
        } else {
            let fd = event.udata as i32;
            let w = self.take_ready(fd);
            actions.push(Action::Wake(w));
        }
        actions
    }
}

/// Requests split over two rounds of the user event leave the table as if
/// they had been carried out in one.
pub proof fn lemma_rounds_compose<W>(m: Map<i32, W>, first: Seq<IOOps<W>>, second: Seq<IOOps<W>>)
    ensures
        table_after(m, first + second) == table_after(table_after(m, first), second),
        changes_for(first + second) == changes_for(first) + changes_for(second),
    decreases first.len(),
{
    if first.len() == 0 {
        assert(first + second == second);
    } else {
        assert((first + second).drop_first() == first.drop_first() + second);
        lemma_rounds_compose(apply_op(m, first[0]), first.drop_first(), second);
    }
    assert(changes_for(first + second) == changes_for(first) + changes_for(second));
}

/// A queued add leaves its descriptor mapped to the added waker, whatever
/// the descriptor was mapped to before, and every other descriptor as the
/// earlier requests left it.
pub proof fn lemma_last_add_wins<W>(m: Map<i32, W>, ops: Seq<IOOps<W>>, flags: u16, fd: i32, w: W)
    ensures
        table_after(m, ops.push(IOOps::Add(flags, fd, w))) == table_after(m, ops).insert(fd, w),
        table_after(m, ops.push(IOOps::Add(flags, fd, w))).contains_key(fd),
        table_after(m, ops.push(IOOps::Add(flags, fd, w)))[fd] == w,
        forall|other: i32|
            other != fd ==> (#[trigger] table_after(m, ops.push(IOOps::Add(flags, fd, w))).contains_key(
                other,
            ) == table_after(m, ops).contains_key(other)),
{
    lemma_append_one(m, ops, IOOps::Add(flags, fd, w));
    assert(m.insert(fd, w).contains_key(fd));
}

/// A queued remove leaves its descriptor without a waker, and every other
/// descriptor as the earlier requests left it.
pub proof fn lemma_last_remove_clears<W>(m: Map<i32, W>, ops: Seq<IOOps<W>>, fd: i32)
    ensures
        table_after(m, ops.push(IOOps::Remove(fd))) == table_after(m, ops).remove(fd),
        !table_after(m, ops.push(IOOps::Remove(fd))).contains_key(fd),
{
    lemma_append_one(m, ops, IOOps::Remove(fd));
}

/// Carrying out one more request after `ops`.
proof fn lemma_append_one<W>(m: Map<i32, W>, ops: Seq<IOOps<W>>, op: IOOps<W>)
    ensures
        table_after(m, ops.push(op)) == match op {
            IOOps::Add(_, fd, w) => table_after(m, ops).insert(fd, w),
            IOOps::Remove(fd) => table_after(m, ops).remove(fd),
        },
    decreases ops.len(),
{
    if ops.len() == 0 {
        assert(ops.push(op).drop_first() == Seq::<IOOps<W>>::empty());
        reveal_with_fuel(table_after, 2);
    } else {
        assert(ops.push(op).drop_first() == ops.drop_first().push(op));
        assert(ops.push(op)[0] == ops[0]);
        lemma_append_one(apply_op(m, ops[0]), ops.drop_first(), op);
    }
}

/// A descriptor that is registered and then unregistered, before the
/// selector runs, is left without a waker, whatever it had before.
pub proof fn lemma_unregister_cancels_register<W>(m: Map<i32, W>, flags: u16, fd: i32, w: W)
    ensures
        table_after(m, seq![IOOps::Add(flags, fd, w), IOOps::Remove(fd)]) == m.remove(fd),
{
    let ops = seq![IOOps::Add(flags, fd, w), IOOps::Remove(fd)];
    assert(ops.drop_first() == seq![IOOps::<W>::Remove(fd)]);
    assert(ops.drop_first().drop_first() == Seq::<IOOps<W>>::empty());
    assert(m.insert(fd, w).remove(fd) == m.remove(fd));
    reveal_with_fuel(table_after, 3);
}

/// The reading half of an accepted connection.
pub struct AsyncReader {}

/// The pending read of one line from an [`AsyncReader`].
#[derive(PartialEq, Eq, Structural, Debug)]
pub struct ReadLine {}

impl AsyncReader {
    /// The read of the next line, which completes when the line is there.
    pub fn read_line(&self) -> (r: ReadLine)
        ensures
            r == (ReadLine {}),
    {
        ReadLine {}
    }
}

} // verus!
