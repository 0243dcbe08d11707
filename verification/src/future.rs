//! The task table of an executor that runs futures on a glib main loop.
//!
//! The table holds the spawned futures, each under the index by which a
//! wake-up names it; a slab hands the indices out and takes them back. One
//! task is the executor's own: it stands for the queue of messages from
//! other threads and never holds a future. A dispatch round takes the
//! indices that were woken up since the last round and polls, in that
//! order, each future that they name and that is still there; the polling
//! itself, and the queue of woken indices that other threads push onto,
//! belong to the caller.

use vstd::prelude::*;

use slab::Slab;

verus! {

/// A slab: a table of values under indices that it chooses.
#[verifier::external_type_specification]
#[verifier::external_body]
#[verifier::reject_recursive_types(T)]
#[verifier::reject_recursive_types(I)]
pub struct ExSlab<T, I>(Slab<T, I>);

/// What a slab of task markers holds, by index.
pub uninterp spec fn slab_items(s: Slab<bool>) -> Map<usize, bool>;

/// The number of slots a slab has room for before it must be grown.
pub uninterp spec fn slab_capacity(s: Slab<bool>) -> nat;

/// Calls `Slab::with_capacity` (slab 0.3). Claimed of it: the slab is empty
/// and has room for `capacity` values. It overflows on `usize::MAX`.
#[verifier::external_body]
fn slab_with_capacity(capacity: usize) -> (r: Slab<bool>)
    requires
        capacity < usize::MAX,
    ensures
        slab_items(r).dom() == Set::<usize>::empty(),
        slab_capacity(r) == capacity,
{
    Slab::with_capacity(capacity)
}

/// Calls `Slab::len`: the number of values held.
#[verifier::external_body]
fn slab_len(s: &Slab<bool>) -> (r: usize)
    ensures
        r == slab_items(*s).len(),
{
    s.len()
}

/// Calls `Slab::capacity`: the number of slots.
#[verifier::external_body]
fn slab_capacity_of(s: &Slab<bool>) -> (r: usize)
    ensures
        r == slab_capacity(*s),
{
    s.capacity()
}

/// Calls `Slab::insert`. Claimed of it: where the slab holds fewer values
/// than it has room for, the value goes under an index that held nothing
/// and lies below the capacity, and that index is returned; otherwise the
/// value is handed back and nothing changes. Which free index is taken is
/// left unsaid (slab 0.3 takes the one freed last).
#[verifier::external_body]
fn slab_insert(s: &mut Slab<bool>, value: bool) -> (r: Result<usize, bool>)
    ensures
        slab_capacity(*final(s)) == slab_capacity(*old(s)),
        r is Ok <==> slab_items(*old(s)).len() < slab_capacity(*old(s)),
        match r {
            Ok(i) => {
                &&& !slab_items(*old(s)).contains_key(i)
                &&& i < slab_capacity(*old(s))
                &&& slab_items(*final(s)) == slab_items(*old(s)).insert(i, value)
            },
            Err(v) => v == value && slab_items(*final(s)) == slab_items(*old(s)),
        },
{
    s.insert(value)
}

/// Calls `Slab::get`: the value under `index`, if any.
#[verifier::external_body]
fn slab_get(s: &Slab<bool>, index: usize) -> (r: Option<bool>)
    ensures
        r == (if slab_items(*s).contains_key(index) {
            Some(slab_items(*s)[index])
        } else {
            None
        }),
{
    s.get(index).cloned()
}

/// Replaces the value under `index` through `Slab`'s `IndexMut`, which
/// panics where the index holds nothing.
#[verifier::external_body]
fn slab_set(s: &mut Slab<bool>, index: usize, value: bool)
    requires
        slab_items(*old(s)).contains_key(index),
    ensures
        slab_items(*final(s)) == slab_items(*old(s)).insert(index, value),
        slab_capacity(*final(s)) == slab_capacity(*old(s)),
{
    s[index] = value;
}

/// Calls `Slab::remove`: takes the value under `index` out, if any.
#[verifier::external_body]
fn slab_remove(s: &mut Slab<bool>, index: usize) -> (r: Option<bool>)
    ensures
        r == (if slab_items(*old(s)).contains_key(index) {
            Some(slab_items(*old(s))[index])
        } else {
            None
        }),
        slab_items(*final(s)) == slab_items(*old(s)).remove(index),
        slab_capacity(*final(s)) == slab_capacity(*old(s)),
{
    s.remove(index)
}

/// Calls `Slab::reserve_exact`: adds `additional` slots. It panics unless
/// `additional < usize::MAX - capacity`.
#[verifier::external_body]
fn slab_reserve_exact(s: &mut Slab<bool>, additional: usize)
    requires
        additional < usize::MAX - slab_capacity(*old(s)),
    ensures
        slab_items(*final(s)) == slab_items(*old(s)),
        slab_capacity(*final(s)) == slab_capacity(*old(s)) + additional,
{
    s.reserve_exact(additional)
}

/// Puts `future` at `index`, growing `futures` with empty places as far as
/// needed.
fn put_future<F>(futures: &mut Vec<Option<F>>, index: usize, future: F)
    requires
        index < usize::MAX,
    ensures
        final(futures)@.len() == (if index < old(futures)@.len() {
            old(futures)@.len() as int
        } else {
            index + 1
        }),
        final(futures)@[index as int] == Some(future),
        forall|i: int|
            #![trigger final(futures)@[i]]
            0 <= i < final(futures)@.len() && i != index ==> final(futures)@[i] == (if i < old(
                futures,
            )@.len() {
                old(futures)@[i]
            } else {
                None
            }),
{
    let ghost before = futures@;
    while futures.len() <= index
        invariant
            before.len() <= futures@.len(),
            futures@.len() <= index + 1 || futures@.len() == before.len(),
            forall|i: int|
                #![trigger futures@[i]]
                0 <= i < futures@.len() ==> futures@[i] == (if i < before.len() {
                    before[i]
                } else {
                    None
                }),
        decreases index + 1 - futures@.len(),
    {
        futures.push(None);
    }
    futures.set(index, Some(future));
}

/// What polling a future gave.
#[derive(Clone, Copy, Debug, PartialEq, Eq)]
pub enum PollOutcome {
    /// The future is not finished; it will be woken up again.
    NotReady,
    /// The future finished.
    Ready,
    /// The future failed.
    Failed,
}

/// The executor's task table.
pub struct TaskQueue<F> {
    id: usize,
    /// One entry per task: whether its future is in place.
    tasks: Slab<bool>,
    /// The futures, at their task's index.
    futures: Vec<Option<F>>,
    pending: Vec<usize>,
    cursor: usize,
}

/// Whether index `i` names a future that a dispatch round polls: it is not
/// the executor's own task `id`, and its task has its future in place.
pub open spec fn runnable<F>(tasks: Map<usize, Option<F>>, id: usize, i: usize) -> bool {
    &&& i != id
    &&& tasks.contains_key(i)
    &&& tasks[i] is Some
}

/// The tasks after `future` is spawned under `index`.
pub open spec fn spawned<F>(tasks: Map<usize, Option<F>>, index: usize, future: F) -> Map<usize, Option<F>> {
    tasks.insert(index, Some(future))
}

/// The tasks after polling the future taken out of task `index` gave
/// `outcome`.
pub open spec fn finished<F>(tasks: Map<usize, Option<F>>, index: usize, future: F, outcome: PollOutcome) -> Map<usize, Option<F>> {
    if outcome == PollOutcome::NotReady {
        tasks.insert(index, Some(future))
    } else {
        tasks.remove(index)
    }
}

/// A spawned future is polled when its index is woken up, and spawning
/// leaves every other task as it was.
pub proof fn lemma_spawned_is_runnable<F>(tasks: Map<usize, Option<F>>, id: usize, index: usize, future: F)
    requires
        index != id,
    ensures
        runnable(spawned(tasks, index, future), id, index),
        forall|j: usize| j != index ==> (runnable(spawned(tasks, index, future), id, j) <==> runnable(tasks, id, j)),
{
}

/// The executor's own task is never dispatched as a future.
pub proof fn lemma_own_slot_never_runs<F>(tasks: Map<usize, Option<F>>, id: usize)
    ensures
        !runnable(tasks, id, id),
{
}

/// A wake-up under an index that names no task (a finished one, say) makes
/// no future run.
pub proof fn lemma_stale_wakeup_ignored<F>(tasks: Map<usize, Option<F>>, id: usize, i: usize)
    requires
        !tasks.contains_key(i),
    ensures
        !runnable(tasks, id, i),
{
}

/// A future that is not finished is polled again the next time it is woken
/// up; a finished or failed one never is, and its index is free again.
pub proof fn lemma_finish_decides_rerun<F>(tasks: Map<usize, Option<F>>, id: usize, index: usize, future: F, outcome: PollOutcome)
    requires
        index != id,
    ensures
        runnable(finished(tasks, index, future, outcome), id, index) <==> outcome == PollOutcome::NotReady,
        outcome != PollOutcome::NotReady ==> !finished(tasks, index, future, outcome).contains_key(index),
        forall|j: usize| j != index ==> (runnable(finished(tasks, index, future, outcome), id, j) <==> runnable(tasks, id, j)),
{
}

impl<F> TaskQueue<F> {
    /// The index of the executor's own task.
    pub closed spec fn spec_id(&self) -> usize {
        self.id
    }

    /// The tasks, by index: each with its future, or `None` while the
    /// future is out being polled (and always for the executor's own task).
    pub closed spec fn spec_tasks(&self) -> Map<usize, Option<F>> {
        Map::new(
            |i: usize| slab_items(self.tasks).contains_key(i),
            |i: usize|
                if slab_items(self.tasks)[i] {
                    self.futures@[i as int]
                } else {
                    None
                },
        )
    }

    /// The number of tasks the table has room for before it grows.
    pub closed spec fn spec_capacity(&self) -> nat {
        slab_capacity(self.tasks)
    }

    /// The woken indices that the current dispatch round has not looked at
    /// yet, in order.
    pub closed spec fn remaining(&self) -> Seq<usize> {
        self.pending@.skip(self.cursor as int)
    }

    /// The executor's own task exists and never holds a future, and a
    /// task's marker says whether its future is in place.
    pub closed spec fn wf(&self) -> bool {
        &&& slab_items(self.tasks).dom().finite()
        &&& slab_items(self.tasks).contains_key(self.id)
        &&& !slab_items(self.tasks)[self.id]
        &&& forall|i: usize|
            #![trigger slab_items(self.tasks)[i]]
            slab_items(self.tasks).contains_key(i) && slab_items(self.tasks)[i] ==> i
                < self.futures@.len() && self.futures@[i as int] is Some
        &&& forall|i: usize|
            #![trigger self.futures@[i as int]]
            i < self.futures@.len() && self.futures@[i as int] is Some ==> slab_items(
                self.tasks,
            ).contains_key(i) && slab_items(self.tasks)[i]
        &&& forall|i: usize|
            #![trigger slab_items(self.tasks).contains_key(i)]
            slab_items(self.tasks).contains_key(i) && i != self.id ==> i < self.futures@.len()
        &&& slab_items(self.tasks).len() <= slab_capacity(self.tasks)
        &&& self.cursor <= self.pending@.len()
    }

    /// An empty table, with room for 128 tasks: only the executor's own
    /// task, and no dispatch round under way. The caller wakes the own
    /// task's index up, so that the first round reads the message queue.
    pub fn new() -> (r: TaskQueue<F>)
        ensures
            r.wf(),
            r.spec_tasks() == Map::<usize, Option<F>>::empty().insert(r.spec_id(), None),
            r.spec_capacity() == 128,
            r.remaining() == Seq::<usize>::empty(),
    {
        let mut tasks = slab_with_capacity(128);
        let id = match slab_insert(&mut tasks, false) {
            Ok(i) => i,
            Err(_) => 0,
        };
        let futures: Vec<Option<F>> = Vec::new();
        let pending: Vec<usize> = Vec::new();
        let r = TaskQueue { id, tasks, futures, pending, cursor: 0 };
        assert(r.pending@.skip(0) =~= Seq::<usize>::empty());
        assert(r.spec_tasks() =~= Map::<usize, Option<F>>::empty().insert(r.spec_id(), None));
        r
    }

    /// The index of the executor's own task.
    pub fn id(&self) -> (r: usize)
        ensures
            r == self.spec_id(),
    {
        self.id
    }

    /// The number of tasks the table has room for before it grows.
    pub fn capacity(&self) -> (r: usize)
        ensures
            r == self.spec_capacity(),
    {
        slab_capacity_of(&self.tasks)
    }

    /// The number of tasks in the table, the executor's own included.
    pub fn task_count(&self) -> (r: usize)
        requires
            self.wf(),
        ensures
            r == self.spec_tasks().len(),
    {
        proof {
            assert(slab_items(self.tasks).dom() =~= self.spec_tasks().dom());
        }
        slab_len(&self.tasks)
    }

    /// Whether the current dispatch round has looked at every woken index.
    pub fn round_over(&self) -> (r: bool)
        requires
            self.wf(),
        ensures
            r == (self.remaining().len() == 0),
    {
        self.cursor >= self.pending.len()
    }

    /// Whether `index` names a task whose future is out being polled: not
    /// the executor's own task, and a task without its future.
    pub fn is_taken(&self, index: usize) -> (r: bool)
        requires
            self.wf(),
        ensures
            r == (index != self.spec_id() && self.spec_tasks().contains_key(index)
                && self.spec_tasks()[index] is None),
    {
        if index == self.id {
            return false;
        }
        match slab_get(&self.tasks, index) {
            Some(in_place) => !in_place,
            None => false,
        }
    }

    /// Adds `future` to the table under an index that names no task, which
    /// it returns; a full table first grows to twice its size (which must
    /// fit in a `usize`). The caller
    /// wakes that index up, so that the future is polled in the next round.
    pub fn spawn(&mut self, future: F) -> (index: usize)
        requires
            old(self).wf(),
            old(self).spec_tasks().len() == old(self).spec_capacity() ==> 2 * old(
                self,
            ).spec_capacity() < usize::MAX,
        ensures
            final(self).wf(),
            final(self).spec_id() == old(self).spec_id(),
            final(self).remaining() == old(self).remaining(),
            !old(self).spec_tasks().contains_key(index),
            index != old(self).spec_id(),
            final(self).spec_tasks() == spawned(old(self).spec_tasks(), index, future),
            final(self).spec_capacity() == (if old(self).spec_tasks().len() == old(self).spec_capacity() {
                2 * old(self).spec_capacity()
            } else {
                old(self).spec_capacity()
            }),
    {
        let ghost old_tasks = self.spec_tasks();
        let ghost old_futures = self.futures@;
        assert(slab_items(self.tasks).dom() =~= old_tasks.dom());
        let len = slab_len(&self.tasks);
        let capacity = slab_capacity_of(&self.tasks);
        if len == capacity {
            slab_reserve_exact(&mut self.tasks, len);
        }
        assert(slab_items(self.tasks).len() > 0) by {
            assert(slab_items(self.tasks).contains_key(self.id));
            vstd::set_lib::lemma_set_empty_equivalency_len(slab_items(self.tasks).dom());
        }
        let index = match slab_insert(&mut self.tasks, true) {
            Ok(i) => i,
            Err(_) => {
                assert(false);
                0
            },
        };
        put_future(&mut self.futures, index, future);
        assert forall|i: usize|
            #![trigger slab_items(self.tasks)[i]]
            slab_items(self.tasks).contains_key(i) && slab_items(self.tasks)[i] implies i
                < self.futures@.len() && self.futures@[i as int] is Some by {
            if i != index {
                assert(self.futures@[i as int] == old_futures[i as int]);
            }
        }
        assert forall|i: usize|
            #![trigger self.futures@[i as int]]
            i < self.futures@.len() && self.futures@[i as int] is Some implies slab_items(
                self.tasks,
            ).contains_key(i) && slab_items(self.tasks)[i] by {
            if i != index {
                assert(i < old_futures.len() && self.futures@[i as int] == old_futures[i as int]);
            }
        }
        assert(self.spec_tasks() =~= spawned(old_tasks, index, future));
        index
    }

    /// Starts a dispatch round over the indices `ready` that were woken up
    /// since the last round. The previous round must be over. Returns
    /// whether there is anything to dispatch.
    pub fn check(&mut self, ready: Vec<usize>) -> (r: bool)
        requires
            old(self).wf(),
            old(self).remaining() == Seq::<usize>::empty(),
        ensures
            final(self).wf(),
            final(self).spec_id() == old(self).spec_id(),
            final(self).spec_tasks() == old(self).spec_tasks(),
            final(self).spec_capacity() == old(self).spec_capacity(),
            final(self).remaining() == ready@,
            r == (ready@.len() > 0),
    {
        let r = ready.len() > 0;
        self.pending = ready;
        self.cursor = 0;
        assert(self.pending@.skip(0) =~= self.pending@);
        r
    }

    /// Takes out the next future of the round to poll: the first remaining
    /// woken index that names a task with its future in place. Indices of
    /// the executor's own task, of futures out being polled and of no task
    /// (a finished one, say) are passed over. Returns the index and the
    /// future; the task stays, without its future, until `finish` says what
    /// polling gave.
    pub fn next_task(&mut self) -> (r: Option<(usize, F)>)
        requires
            old(self).wf(),
        ensures
            final(self).wf(),
            final(self).spec_id() == old(self).spec_id(),
            final(self).spec_capacity() == old(self).spec_capacity(),
            ({
                let rem = old(self).remaining();
                let tasks = old(self).spec_tasks();
                let id = old(self).spec_id();
                let p = rem.len() - final(self).remaining().len() - 1;
                match r {
                    None => {
                        &&& final(self).remaining() == Seq::<usize>::empty()
                        &&& final(self).spec_tasks() == tasks
                        &&& forall|j: int| 0 <= j < rem.len() ==> !runnable(tasks, id, #[trigger] rem[j])
                    },
                    Some((index, future)) => {
                        &&& 0 <= p < rem.len()
                        &&& final(self).remaining() == rem.skip(p + 1)
                        &&& index == rem[p]
                        &&& runnable(tasks, id, index)
                        &&& tasks[index] == Some(future)
                        &&& forall|j: int| 0 <= j < p ==> !runnable(tasks, id, #[trigger] rem[j])
                        &&& final(self).spec_tasks() == tasks.insert(index, None::<F>)
                    },
                }
            }),
    {
        let ghost start = self.cursor as int;
        let ghost rem = self.remaining();
        let ghost tasks = self.spec_tasks();
        while self.cursor < self.pending.len()
            invariant
                self.wf(),
                self.spec_tasks() == tasks,
                tasks == old(self).spec_tasks(),
                self.tasks == old(self).tasks,
                self.futures@ == old(self).futures@,
                self.id == old(self).id,
                self.pending@ == old(self).pending@,
                start == old(self).cursor,
                rem == old(self).remaining(),
                start <= self.cursor <= self.pending@.len(),
                forall|j: int| 0 <= j < self.cursor - start ==> !runnable(tasks, self.id, #[trigger] rem[j]),
            decreases self.pending@.len() - self.cursor,
        {
            let index = self.pending[self.cursor];
            assert(index == rem[self.cursor - start]);
            self.cursor = self.cursor + 1;
            if index != self.id {
                if let Some(true) = slab_get(&self.tasks, index) {
                    let ghost items0 = slab_items(self.tasks);
                    let ghost futures0 = self.futures@;
                    let mut taken: Option<F> = None;
                    std::mem::swap(&mut taken, &mut self.futures[index]);
                    slab_set(&mut self.tasks, index, false);
                    assert(slab_items(self.tasks).dom() =~= items0.dom());
                    assert(self.futures@ =~= futures0.update(index as int, None));
                    assert forall|i: usize|
                        #![trigger slab_items(self.tasks)[i]]
                        slab_items(self.tasks).contains_key(i) && slab_items(self.tasks)[i] implies i
                            < self.futures@.len() && self.futures@[i as int] is Some by {
                        assert(items0[i]);
                    }
                    assert forall|i: usize|
                        #![trigger self.futures@[i as int]]
                        i < self.futures@.len() && self.futures@[i as int] is Some implies slab_items(
                            self.tasks,
                        ).contains_key(i) && slab_items(self.tasks)[i] by {
                        assert(futures0[i as int] is Some);
                    }
                    match taken {
                        Some(future) => {
                            assert(self.pending@.skip(self.cursor as int) =~= rem.skip(
                                self.cursor - start,
                            ));
                            assert(self.spec_tasks() =~= tasks.insert(index, None::<F>));
                            return Some((index, future));
                        },
                        None => {
                            assert(false);
                        },
                    }
                }
            }
        }
        assert(self.pending@.skip(self.cursor as int) =~= Seq::<usize>::empty());
        None
    }

    /// Records what polling the future taken out under `index` gave: a future
    /// that is not finished goes back in place; a finished or failed one is
    /// dropped, and its task leaves the table.
    pub fn finish(&mut self, index: usize, future: F, outcome: PollOutcome)
        requires
            old(self).wf(),
            index != old(self).spec_id(),
            old(self).spec_tasks().contains_key(index),
            old(self).spec_tasks()[index] is None,
        ensures
            final(self).wf(),
            final(self).spec_id() == old(self).spec_id(),
            final(self).spec_capacity() == old(self).spec_capacity(),
            final(self).remaining() == old(self).remaining(),
            final(self).spec_tasks() == finished(old(self).spec_tasks(), index, future, outcome),
    {
        let ghost old_tasks = self.spec_tasks();
        match outcome {
            PollOutcome::NotReady => {
                slab_set(&mut self.tasks, index, true);
                if index < self.futures.len() {
                    self.futures.set(index, Some(future));
                } else {
                    assert(false);
                }
            },
            PollOutcome::Ready | PollOutcome::Failed => {
                slab_remove(&mut self.tasks, index);
            },
        }
        assert(self.spec_tasks() =~= finished(old_tasks, index, future, outcome));
    }
}

} // verus!
