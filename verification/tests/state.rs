use std::sync::{Arc, Mutex};

use futures::executor::{self, Notify, NotifyHandle};
use futures::task::{self, Task};
use futures::{future, Async, Poll};

use futures_glib::io::state::{Progress, Readiness, State, Transfer};
use futures_glib::io::{bits, bits_new, IoCondition, G_IO_IN, G_IO_OUT};

struct Recorder {
    woken: Mutex<Vec<usize>>,
}

impl Notify for Recorder {
    fn notify(&self, id: usize) {
        self.woken.lock().unwrap().push(id);
    }
}

fn recorder() -> Arc<Recorder> {
    Arc::new(Recorder { woken: Mutex::new(Vec::new()) })
}

/// A task whose wake-ups `rec` records under `id`.
fn task_for(rec: &Arc<Recorder>, id: usize) -> Task {
    let mut s = executor::spawn(future::poll_fn(|| -> Poll<Task, ()> {
        Ok(Async::Ready(task::current()))
    }));
    match s.poll_future_notify(&NotifyHandle::from(rec.clone()), id) {
        Ok(Async::Ready(t)) => t,
        _ => unreachable!(),
    }
}

fn woken(rec: &Arc<Recorder>) -> Vec<usize> {
    rec.woken.lock().unwrap().clone()
}

#[test]
fn block_when_not_ready() {
    let rec = recorder();
    let mut s = State::NotReady;
    assert!(s.block(|| task_for(&rec, 1)));
    assert!(s.is_blocked());
}

#[test]
fn block_when_ready_does_not_wait() {
    let rec = recorder();
    let mut s = State::Ready;
    assert!(!s.block(|| task_for(&rec, 1)));
    assert!(!s.is_blocked());
    assert!(matches!(s, State::Ready));
}

#[test]
fn unblock_hands_back_the_blocker() {
    let rec = recorder();
    let mut s = State::NotReady;
    s.block(|| task_for(&rec, 7));
    let t = s.unblock().unwrap();
    assert!(matches!(s, State::Ready));
    t.notify();
    assert_eq!(woken(&rec), vec![7]);
}

#[test]
fn unblocked_stays_ready() {
    let rec = recorder();
    let mut s = State::NotReady;
    assert!(s.unblock().is_none());
    assert!(!s.block(|| task_for(&rec, 1)));
    assert!(s.unblock().is_none());
}

fn both() -> IoCondition {
    let mut c = IoCondition::new();
    c.input(true).output(true);
    c
}

#[test]
fn readiness_block_read_and_write() {
    let rec = recorder();
    let mut r = Readiness::new(IoCondition::new());
    r.block(&bits_new(G_IO_IN), || task_for(&rec, 1));
    assert!(r.read.is_blocked());
    assert!(!r.write.is_blocked());
    assert_eq!(bits(&r.active), G_IO_IN);
    r.block(&bits_new(G_IO_OUT), || task_for(&rec, 2));
    assert!(r.write.is_blocked());
    assert_eq!(bits(&r.active), G_IO_IN | G_IO_OUT);
}

#[test]
fn readiness_check() {
    let rec = recorder();
    let mut r = Readiness::new(both());
    assert!(!r.check(&both()));
    r.block(&bits_new(G_IO_IN), || task_for(&rec, 1));
    assert!(r.check(&bits_new(G_IO_IN)));
    assert!(!r.check(&bits_new(G_IO_OUT)));
}

/// Wakes up the tasks that a dispatch handed back.
fn wake(woken: (Option<Task>, Option<Task>)) {
    if let Some(t) = woken.0 {
        t.notify();
    }
    if let Some(t) = woken.1 {
        t.notify();
    }
}

#[test]
fn readiness_dispatch_wakes_and_stops_watching() {
    let rec = recorder();
    let mut r = Readiness::new(IoCondition::new());
    r.block(&bits_new(G_IO_IN), || task_for(&rec, 1));
    r.block(&bits_new(G_IO_OUT), || task_for(&rec, 2));
    let handed = r.dispatch(&bits_new(G_IO_IN));
    assert!(handed.0.is_some());
    assert!(handed.1.is_none());
    wake(handed);
    assert_eq!(woken(&rec), vec![1]);
    assert!(matches!(r.read, State::Ready));
    assert!(r.write.is_blocked());
    assert_eq!(bits(&r.active), G_IO_OUT);
    let handed = r.dispatch(&bits_new(G_IO_OUT));
    assert!(handed.0.is_none());
    wake(handed);
    assert_eq!(woken(&rec), vec![1, 2]);
    assert_eq!(bits(&r.active), 0);
}

#[test]
fn readiness_dispatch_without_waiters_wakes_nobody() {
    let mut r = Readiness::new(both());
    let handed = r.dispatch(&both());
    assert!(handed.0.is_none());
    assert!(handed.1.is_none());
    assert!(matches!(r.read, State::Ready));
    assert!(matches!(r.write, State::Ready));
}

#[test]
fn readiness_dispatch_keep_interest() {
    let rec = recorder();
    let mut r = Readiness::new(both());
    r.block(&bits_new(G_IO_IN), || task_for(&rec, 3));
    wake(r.dispatch_keep_interest(&both()));
    assert_eq!(woken(&rec), vec![3]);
    assert!(matches!(r.read, State::Ready));
    assert!(matches!(r.write, State::Ready));
    assert_eq!(bits(&r.active), G_IO_IN | G_IO_OUT);
}

#[test]
fn readiness_poll_read() {
    let rec = recorder();
    let mut r = Readiness::new(both());
    assert!(!r.poll_read(|| task_for(&rec, 4)));
    assert!(r.read.is_blocked());
    wake(r.dispatch_keep_interest(&bits_new(G_IO_IN)));
    assert_eq!(woken(&rec), vec![4]);
    assert!(r.poll_read(|| -> Task { panic!("no task is needed") }));
    assert!(matches!(r.read, State::NotReady));
}

#[test]
fn readiness_poll_readable_and_writable() {
    let rec = recorder();
    let mut r = Readiness::new(IoCondition::new());
    assert!(!r.poll_readable(|| task_for(&rec, 5)));
    assert!(r.read.is_blocked());
    assert_eq!(bits(&r.active), G_IO_IN);
    assert!(!r.poll_writable(|| task_for(&rec, 6)));
    assert_eq!(bits(&r.active), G_IO_IN | G_IO_OUT);
    wake(r.dispatch(&bits_new(G_IO_IN | G_IO_OUT)));
    assert_eq!(woken(&rec), vec![5, 6]);
    // Ready directions answer at once, without asking for a task.
    assert!(r.poll_readable(|| -> Task { panic!("no task is needed") }));
    assert!(r.poll_writable(|| -> Task { panic!("no task is needed") }));
}

#[test]
fn block_on_ready_does_not_ask_for_a_task() {
    let mut s = State::Ready;
    assert!(!s.block(|| -> Task { panic!("no task is needed") }));
    assert!(s.is_ready());
}

#[test]
fn after_read_outcomes() {
    let rec = recorder();
    let mut r = Readiness::new(IoCondition::new());
    assert_eq!(r.after_read(Transfer::Done(3), || -> Task { panic!("no task is needed") }), Progress::Ready(3));
    assert_eq!(r.after_read(Transfer::Failed, || -> Task { panic!("no task is needed") }), Progress::Failed);
    assert!(!r.read.is_blocked());
    assert_eq!(r.after_read(Transfer::WouldBlock, || task_for(&rec, 8)), Progress::NotReady);
    assert!(r.read.is_blocked());
    assert!(!r.write.is_blocked());
    assert_eq!(bits(&r.active), G_IO_IN);
    wake(r.dispatch(&bits_new(G_IO_IN)));
    assert_eq!(woken(&rec), vec![8]);
}

#[test]
fn after_write_outcomes() {
    let rec = recorder();
    let mut r = Readiness::new(IoCondition::new());
    assert_eq!(r.after_write(Transfer::Done(0), || -> Task { panic!("no task is needed") }), Progress::Ready(0));
    assert_eq!(r.after_write(Transfer::WouldBlock, || task_for(&rec, 9)), Progress::NotReady);
    assert!(r.write.is_blocked());
    assert!(!r.read.is_blocked());
    assert_eq!(bits(&r.active), G_IO_OUT);
    wake(r.dispatch(&bits_new(G_IO_IN)));
    assert!(woken(&rec).is_empty());
    wake(r.dispatch(&bits_new(G_IO_OUT)));
    assert_eq!(woken(&rec), vec![9]);
}
