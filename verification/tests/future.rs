use futures_glib::future::{PollOutcome, TaskQueue};

#[test]
fn new_queue_has_own_slot() {
    let mut q: TaskQueue<&'static str> = TaskQueue::new();
    assert_eq!(q.id(), 0);
    // Waking the executor's own index dispatches no future.
    assert!(q.check(vec![0]));
    assert!(q.next_task().is_none());
}

#[test]
fn spawned_future_is_polled() {
    let mut q = TaskQueue::new();
    let a = q.spawn("a");
    let b = q.spawn("b");
    assert_eq!(a, 1);
    assert_eq!(b, 2);
    assert!(q.check(vec![0, b, a]));
    assert_eq!(q.next_task(), Some((2, "b")));
    q.finish(2, "b", PollOutcome::NotReady);
    assert_eq!(q.next_task(), Some((1, "a")));
    q.finish(1, "a", PollOutcome::Ready);
    assert_eq!(q.next_task(), None);
}

#[test]
fn empty_round() {
    let mut q: TaskQueue<u8> = TaskQueue::new();
    assert!(!q.check(Vec::new()));
    assert!(q.next_task().is_none());
}

#[test]
fn not_ready_future_runs_again() {
    let mut q = TaskQueue::new();
    let a = q.spawn(10u32);
    q.check(vec![a]);
    let (i, f) = q.next_task().unwrap();
    q.finish(i, f, PollOutcome::NotReady);
    assert!(q.next_task().is_none());
    q.check(vec![a]);
    assert_eq!(q.next_task(), Some((a, 10)));
}

#[test]
fn finished_future_never_runs_again_and_slot_is_reused() {
    let mut q = TaskQueue::new();
    let a = q.spawn(1u32);
    let b = q.spawn(2u32);
    q.check(vec![a]);
    let (i, f) = q.next_task().unwrap();
    q.finish(i, f, PollOutcome::Failed);
    // A stale wake-up of the finished future is passed over.
    q.check(vec![a, b]);
    assert_eq!(q.next_task(), Some((b, 2)));
    q.finish(b, 2, PollOutcome::NotReady);
    assert_eq!(q.next_task(), None);
    // The freed slot is the first vacant one.
    assert_eq!(q.spawn(3u32), a);
}

#[test]
fn duplicate_and_unknown_wakeups() {
    let mut q = TaskQueue::new();
    let a = q.spawn('x');
    q.check(vec![a, 99, a]);
    let (i, f) = q.next_task().unwrap();
    assert_eq!((i, f), (a, 'x'));
    // While the future is out being polled, its index is passed over.
    assert_eq!(q.next_task(), None);
    q.finish(i, f, PollOutcome::NotReady);
}

#[test]
fn full_table_doubles() {
    let mut q = TaskQueue::new();
    assert_eq!(q.capacity(), 128);
    let mut seen = std::collections::HashSet::new();
    seen.insert(q.id());
    for n in 0..200u32 {
        assert!(seen.insert(q.spawn(n)));
    }
    assert_eq!(q.capacity(), 256);
}

#[test]
fn freed_index_is_reused() {
    let mut q = TaskQueue::new();
    let a = q.spawn(1u8);
    let b = q.spawn(2u8);
    q.check(vec![a, b]);
    let (i, f) = q.next_task().unwrap();
    q.finish(i, f, PollOutcome::Ready);
    assert!(!q.is_taken(a));
    let (j, g) = q.next_task().unwrap();
    assert!(q.is_taken(j));
    q.finish(j, g, PollOutcome::NotReady);
    assert!(!q.is_taken(j));
    let c = q.spawn(3u8);
    assert_eq!(c, a);
    assert!(q.round_over());
}

/// A task that finished and is woken up afterwards (its index pushed onto
/// the ready queue again) makes nothing run and nothing panic.
#[test]
fn unpark_after_done() {
    let mut q = TaskQueue::new();
    let done = q.spawn("done");
    let alive = q.spawn("alive");
    assert_eq!(q.task_count(), 3);
    q.check(vec![done]);
    let (i, f) = q.next_task().unwrap();
    q.finish(i, f, PollOutcome::Ready);
    assert_eq!(q.task_count(), 2);
    // The stale wake-up of the finished task, then one of the live task.
    assert!(q.check(vec![done, q.id(), alive]));
    assert_eq!(q.next_task(), Some((alive, "alive")));
    q.finish(alive, "alive", PollOutcome::NotReady);
    assert_eq!(q.next_task(), None);
    assert!(q.round_over());
}
