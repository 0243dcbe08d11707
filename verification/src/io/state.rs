//! Readiness of one direction of an I/O object, and the bookkeeping of which
//! task waits for which direction.
//!
//! The task that waits is given as a function that yields it (in a poll,
//! `futures::task::current`), called only when a task has to wait.

use vstd::prelude::*;

use futures::task::Task;

use super::{has_flag, with_flag, IoCondition, G_IO_IN, G_IO_OUT};

verus! {

/// A handle to a futures task, used to wake it up.
#[verifier::external_type_specification]
#[verifier::external_body]
pub struct ExTask(Task);

/// Whether one direction (reading or writing) of an I/O object is ready.
#[derive(Debug)]
pub enum State {
    /// Not known to be ready, and nobody waits.
    NotReady,
    /// Ready: an operation may go ahead.
    Ready,
    /// Not ready, with the given task waiting for it.
    Blocked(Task),
}

/// What `block` answers in state `s` with current task `t`, and the state it
/// leaves: whether to wait, and who waits.
pub open spec fn block_spec(s: State, t: Task) -> (bool, State) {
    match s {
        State::Ready => (false, State::Ready),
        _ => (true, State::Blocked(t)),
    }
}

/// What `unblock` hands back in state `s`, and the state it leaves.
pub open spec fn unblock_spec(s: State) -> (Option<Task>, State) {
    match s {
        State::Blocked(t) => (Some(t), State::Ready),
        _ => (None, State::Ready),
    }
}

impl State {
    /// Records the task that `current` yields as waiting, unless the
    /// direction is ready (then `current` is not called). Returns whether
    /// the caller must wait.
    pub fn block<G: FnOnce() -> Task>(&mut self, current: G) -> (r: bool)
        requires
            current.requires(()),
        ensures
            exists|t: Task|
                #![trigger block_spec(*old(self), t)]
                (r, *final(self)) == block_spec(*old(self), t) && (r ==> current.ensures((), t)),
    {
        match *self {
            State::Ready => {
                assert(block_spec(*self, arbitrary()) == (false, State::Ready));
                false
            },
            State::Blocked(_) | State::NotReady => {
                let t = current();
                assert(block_spec(*self, t) == (true, State::Blocked(t)));
                *self = State::Blocked(t);
                true
            },
        }
    }

    /// Whether the direction is ready.
    pub fn is_ready(&self) -> (r: bool)
        ensures
            r == (*self is Ready),
    {
        match *self {
            State::Ready => true,
            _ => false,
        }
    }

    /// Marks the direction ready, and hands back the task that waited for
    /// it, if any.
    pub fn unblock(&mut self) -> (r: Option<Task>)
        ensures
            (r, *final(self)) == unblock_spec(*old(self)),
    {
        let mut previous = State::Ready;
        std::mem::swap(self, &mut previous);
        match previous {
            State::Ready | State::NotReady => None,
            State::Blocked(task) => Some(task),
        }
    }

    /// Whether a task waits for this direction.
    pub fn is_blocked(&self) -> (r: bool)
        ensures
            r == (*self is Blocked),
    {
        match *self {
            State::Blocked(_) => true,
            _ => false,
        }
    }
}

/// The task that blocks on a direction that is not ready is the one that
/// unblocking the direction hands back, and the direction is then ready.
pub proof fn lemma_block_then_unblock_wakes_blocker(s: State, t: Task)
    requires
        !(s is Ready),
    ensures
        block_spec(s, t).0,
        block_spec(s, t).1.is_blocked_spec(),
        unblock_spec(block_spec(s, t).1) == (Some(t), State::Ready),
{
}

/// Once a direction has been unblocked it stays ready: blocking on it does
/// not wait and records nobody, and unblocking it again hands back nobody.
pub proof fn lemma_unblocked_stays_ready(s: State, t: Task)
    ensures
        !block_spec(unblock_spec(s).1, t).0,
        block_spec(unblock_spec(s).1, t).1 == State::Ready,
        unblock_spec(unblock_spec(s).1).0 is None,
{
}

impl State {
    /// Whether a task waits in state `self`.
    pub open spec fn is_blocked_spec(self) -> bool {
        self is Blocked
    }
}

/// The state of a direction after a dispatch in which it was (`fired`) or
/// was not reported ready.
pub open spec fn on_event(s: State, fired: bool) -> State {
    if fired {
        unblock_spec(s).1
    } else {
        s
    }
}

/// A task that waits on a direction stops waiting (and is handed on to be
/// woken up) exactly when a dispatch reports that direction ready; after
/// that, the direction is ready for the next poll.
pub proof fn lemma_event_wakes_waiter(s: State, fired: bool)
    ensures
        s is Blocked ==> (unblock_spec(s).0 == Some(s->0)),
        fired ==> on_event(s, fired) == State::Ready,
        !fired ==> on_event(s, fired) == s,
{
}

/// Whether `bits` has `flag` cleared when `clear` holds, unchanged otherwise.
pub open spec fn clear_if(bits: u32, clear: bool, flag: u32) -> u32 {
    if clear {
        with_flag(bits, false, flag)
    } else {
        bits
    }
}

/// What a read or write on the channel gave.
#[derive(Clone, Copy, Debug, PartialEq, Eq)]
pub enum Transfer {
    /// It moved this many bytes.
    Done(usize),
    /// It would have blocked.
    WouldBlock,
    /// It failed otherwise.
    Failed,
}

/// What a poll for a read or write answers.
#[derive(Clone, Copy, Debug, PartialEq, Eq)]
pub enum Progress {
    /// The operation moved this many bytes.
    Ready(usize),
    /// The operation has to wait; the polling task is woken up later.
    NotReady,
    /// The operation failed.
    Failed,
}

/// The readiness bookkeeping of an I/O object registered with a glib source:
/// the conditions the source watches for, and the state of each direction.
#[derive(Debug)]
pub struct Readiness {
    pub active: IoCondition,
    pub read: State,
    pub write: State,
}

/// The task that a dispatch wakes up for a direction in state `s` that was
/// (`fired`) or was not reported ready.
pub open spec fn woken_by(s: State, fired: bool) -> Option<Task> {
    if fired {
        unblock_spec(s).0
    } else {
        None
    }
}

impl Readiness {
    /// Watches for `active`, with neither direction ready yet.
    pub fn new(active: IoCondition) -> (r: Readiness)
        ensures
            r.active == active,
            r.read == State::NotReady,
            r.write == State::NotReady,
    {
        Readiness { active, read: State::NotReady, write: State::NotReady }
    }

    /// Blocks the task that `current` yields on `condition`: on reading
    /// where the condition holds the input flag, on writing otherwise, and
    /// watches for it.
    pub fn block<G: FnOnce() -> Task>(&mut self, condition: &IoCondition, current: G)
        requires
            current.requires(()),
        ensures
            exists|t: Task|
                #![trigger current.ensures((), t)]
                current.ensures((), t) && (has_flag(condition@, G_IO_IN) ==> {
                    &&& final(self).read == State::Blocked(t)
                    &&& final(self).write == old(self).write
                    &&& final(self).active@ == with_flag(old(self).active@, true, G_IO_IN)
                }) && (!has_flag(condition@, G_IO_IN) ==> {
                    &&& final(self).write == State::Blocked(t)
                    &&& final(self).read == old(self).read
                    &&& final(self).active@ == with_flag(old(self).active@, true, G_IO_OUT)
                }),
    {
        let t = current();
        if condition.is_input() {
            self.read = State::Blocked(t);
            self.active.input(true);
        } else {
            self.write = State::Blocked(t);
            self.active.output(true);
        }
    }

    /// Whether the events `ready` on the descriptor give a waiting task work
    /// to do: it is readable and a reader waits, or writable and a writer
    /// waits.
    pub fn check(&self, ready: &IoCondition) -> (r: bool)
        ensures
            r == ((has_flag(ready@, G_IO_IN) && self.read is Blocked) || (has_flag(ready@, G_IO_OUT)
                && self.write is Blocked)),
    {
        (ready.is_input() && self.read.is_blocked()) || (ready.is_output()
            && self.write.is_blocked())
    }

    /// Handles the events `ready`: each direction that is ready becomes
    /// ready, and the source stops watching for it until a task blocks on
    /// it again. Returns the tasks to wake up: the reader that waited, if the
    /// descriptor is readable, and the writer that waited, if it is
    /// writable.
    pub fn dispatch(&mut self, ready: &IoCondition) -> (woken: (Option<Task>, Option<Task>))
        ensures
            woken.0 == woken_by(old(self).read, has_flag(ready@, G_IO_IN)),
            woken.1 == woken_by(old(self).write, has_flag(ready@, G_IO_OUT)),
            final(self).read == on_event(old(self).read, has_flag(ready@, G_IO_IN)),
            final(self).write == on_event(old(self).write, has_flag(ready@, G_IO_OUT)),
            final(self).active@ == clear_if(
                clear_if(old(self).active@, has_flag(ready@, G_IO_IN), G_IO_IN),
                has_flag(ready@, G_IO_OUT),
                G_IO_OUT,
            ),
    {
        let mut reader = None;
        let mut writer = None;
        if ready.is_input() {
            reader = self.read.unblock();
            self.active.input(false);
        }
        if ready.is_output() {
            writer = self.write.unblock();
            self.active.output(false);
        }
        (reader, writer)
    }

    /// Handles the events `ready` as `dispatch` does, but keeps watching for
    /// everything it watched for.
    pub fn dispatch_keep_interest(&mut self, ready: &IoCondition) -> (woken: (
        Option<Task>,
        Option<Task>,
    ))
        ensures
            woken.0 == woken_by(old(self).read, has_flag(ready@, G_IO_IN)),
            woken.1 == woken_by(old(self).write, has_flag(ready@, G_IO_OUT)),
            final(self).read == on_event(old(self).read, has_flag(ready@, G_IO_IN)),
            final(self).write == on_event(old(self).write, has_flag(ready@, G_IO_OUT)),
            final(self).active == old(self).active,
    {
        let mut reader = None;
        let mut writer = None;
        if ready.is_input() {
            reader = self.read.unblock();
        }
        if ready.is_output() {
            writer = self.write.unblock();
        }
        (reader, writer)
    }

    /// Polls for readability, consuming it: where reading is ready, marks
    /// it not ready and answers `true`; otherwise records the task that
    /// `current` yields as the waiting reader and answers `false`.
    pub fn poll_read<G: FnOnce() -> Task>(&mut self, current: G) -> (r: bool)
        requires
            current.requires(()),
        ensures
            r == (old(self).read is Ready),
            r ==> final(self).read == State::NotReady,
            !r ==> exists|t: Task|
                #![trigger current.ensures((), t)]
                current.ensures((), t) && final(self).read == State::Blocked(t),
            final(self).write == old(self).write,
            final(self).active == old(self).active,
    {
        if self.read.block(current) {
            false
        } else {
            self.read = State::NotReady;
            true
        }
    }

    /// Tests whether reading may go ahead. Where it may not, the task that
    /// `current` yields waits for readability, and the source watches for
    /// it.
    pub fn poll_readable<G: FnOnce() -> Task>(&mut self, current: G) -> (r: bool)
        requires
            current.requires(()),
        ensures
            r == (old(self).read is Ready),
            r ==> final(self).read == old(self).read && final(self).active == old(self).active,
            !r ==> exists|t: Task|
                #![trigger current.ensures((), t)]
                current.ensures((), t) && final(self).read == State::Blocked(t)
                    && final(self).active@ == with_flag(old(self).active@, true, G_IO_IN),
            final(self).write == old(self).write,
    {
        if self.read.is_ready() {
            true
        } else {
            let t = current();
            self.read = State::Blocked(t);
            self.active.input(true);
            false
        }
    }

    /// Tests whether writing may go ahead. Where it may not, the task that
    /// `current` yields waits for writability, and the source watches for
    /// it.
    pub fn poll_writable<G: FnOnce() -> Task>(&mut self, current: G) -> (r: bool)
        requires
            current.requires(()),
        ensures
            r == (old(self).write is Ready),
            r ==> final(self).write == old(self).write && final(self).active == old(self).active,
            !r ==> exists|t: Task|
                #![trigger current.ensures((), t)]
                current.ensures((), t) && final(self).write == State::Blocked(t)
                    && final(self).active@ == with_flag(old(self).active@, true, G_IO_OUT),
            final(self).read == old(self).read,
    {
        if self.write.is_ready() {
            true
        } else {
            let t = current();
            self.write = State::Blocked(t);
            self.active.output(true);
            false
        }
    }

    /// What a read that gave `result` answers: the bytes it moved, or, where
    /// it would have blocked, the task that `current` yields waits for
    /// readability; a failure stays a failure.
    pub fn after_read<G: FnOnce() -> Task>(&mut self, result: Transfer, current: G) -> (r: Progress)
        requires
            current.requires(()),
        ensures
            match result {
                Transfer::Done(n) => r == Progress::Ready(n) && final(self).read == old(self).read
                    && final(self).write == old(self).write && final(self).active == old(self).active,
                Transfer::Failed => r == Progress::Failed && final(self).read == old(self).read
                    && final(self).write == old(self).write && final(self).active == old(self).active,
                Transfer::WouldBlock => r == Progress::NotReady && exists|t: Task|
                    #![trigger current.ensures((), t)]
                    current.ensures((), t) && final(self).read == State::Blocked(t)
                        && final(self).write == old(self).write && final(self).active@ == with_flag(
                        old(self).active@,
                        true,
                        G_IO_IN,
                    ),
            },
    {
        match result {
            Transfer::Done(n) => Progress::Ready(n),
            Transfer::Failed => Progress::Failed,
            Transfer::WouldBlock => {
                let t = current();
                self.read = State::Blocked(t);
                self.active.input(true);
                Progress::NotReady
            },
        }
    }

    /// What a write (or flush) that gave `result` answers: the bytes it
    /// moved, or, where it would have blocked, the task that `current`
    /// yields waits for writability; a failure stays a failure.
    pub fn after_write<G: FnOnce() -> Task>(&mut self, result: Transfer, current: G) -> (r: Progress)
        requires
            current.requires(()),
        ensures
            match result {
                Transfer::Done(n) => r == Progress::Ready(n) && final(self).read == old(self).read
                    && final(self).write == old(self).write && final(self).active == old(self).active,
                Transfer::Failed => r == Progress::Failed && final(self).read == old(self).read
                    && final(self).write == old(self).write && final(self).active == old(self).active,
                Transfer::WouldBlock => r == Progress::NotReady && exists|t: Task|
                    #![trigger current.ensures((), t)]
                    current.ensures((), t) && final(self).write == State::Blocked(t)
                        && final(self).read == old(self).read && final(self).active@ == with_flag(
                        old(self).active@,
                        true,
                        G_IO_OUT,
                    ),
            },
    {
        match result {
            Transfer::Done(n) => Progress::Ready(n),
            Transfer::Failed => Progress::Failed,
            Transfer::WouldBlock => {
                let t = current();
                self.write = State::Blocked(t);
                self.active.output(true);
                Progress::NotReady
            },
        }
    }
}

/// A dispatch hands on for waking exactly the tasks that wait on the
/// directions it reports ready: a reader waiting on a readable descriptor is
/// woken, one waiting while only writability is reported is not, and a
/// direction on which nobody waits wakes nobody.
pub proof fn lemma_dispatch_wakes_exactly_waiters(s: State, fired: bool)
    ensures
        woken_by(s, fired) is Some <==> (fired && s is Blocked),
        (fired && s is Blocked) ==> woken_by(s, fired) == Some(s->0),
{
}

/// A dispatch stops watching exactly the directions it reports ready: the
/// input bit is cleared where input fired and kept otherwise, the output
/// bit likewise, and every other bit of the watched condition is kept.
pub proof fn lemma_dispatch_interest(bits: u32, fired_in: bool, fired_out: bool)
    ensures
        clear_if(clear_if(bits, fired_in, G_IO_IN), fired_out, G_IO_OUT) & G_IO_IN == (if fired_in {
            0
        } else {
            bits & G_IO_IN
        }),
        clear_if(clear_if(bits, fired_in, G_IO_IN), fired_out, G_IO_OUT) & G_IO_OUT == (if fired_out {
            0
        } else {
            bits & G_IO_OUT
        }),
        clear_if(clear_if(bits, fired_in, G_IO_IN), fired_out, G_IO_OUT) & !5u32 == bits & !5u32,
{
    let mid = clear_if(bits, fired_in, G_IO_IN);
    let fin = clear_if(mid, fired_out, G_IO_OUT);
    if fired_in {
        assert(mid == bits & !1u32);
        assert((bits & !1u32) & 1u32 == 0u32) by (bit_vector);
        assert((bits & !1u32) & 4u32 == bits & 4u32) by (bit_vector);
        assert((bits & !1u32) & !5u32 == bits & !5u32) by (bit_vector);
    } else {
        assert(mid == bits);
    }
    if fired_out {
        assert(fin == mid & !4u32);
        assert((mid & !4u32) & 4u32 == 0u32) by (bit_vector);
        assert((mid & !4u32) & 1u32 == mid & 1u32) by (bit_vector);
        assert((mid & !4u32) & !5u32 == mid & !5u32) by (bit_vector);
    } else {
        assert(fin == mid);
    }
}

} // verus!
