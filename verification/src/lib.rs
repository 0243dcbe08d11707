//! Futures on top of the glib main loop: the decision logic of the runtime,
//! verified with Verus.

pub mod error;
pub mod future;
pub mod io;
pub mod rt;
pub mod utils;

use vstd::prelude::*;

use crate::utils::{millis, millis_spec};

verus! {

/// Holds a value that must never be dropped by this side: a borrowed glib
/// handle that another owner releases.
pub struct MyDrop<T> {
    inner: std::mem::ManuallyDrop<T>,
}

impl<T> View for MyDrop<T> {
    type V = T;

    /// The value held.
    closed spec fn view(&self) -> T {
        self.inner@
    }
}

impl<T> MyDrop<T> {
    /// Holds `t`; it is not dropped when the holder is.
    pub fn new(t: T) -> (r: MyDrop<T>)
        ensures
            r@ == t,
    {
        MyDrop { inner: std::mem::ManuallyDrop::new(t) }
    }

    /// The value held.
    pub fn get_ref(&self) -> (r: &T)
        ensures
            *r == self@,
    {
        &*self.inner
    }
}

/// When a source is to be dispatched, as far as its ready time goes.
#[derive(Clone, Copy, Debug, PartialEq, Eq)]
pub enum Deadline {
    /// The source has no ready time.
    Never,
    /// The ready time has already passed.
    Passed,
    /// The ready time lies this many milliseconds ahead.
    In(u64),
}

/// When a source with ready time `ready` is to be dispatched: `None` where it
/// has no ready time; otherwise `Some` of how far the ready time lies ahead
/// of now (its whole seconds and the nanoseconds beyond them), `None` where
/// it lies behind.
pub open spec fn deadline_spec(ready: Option<Option<(u64, u32)>>) -> Deadline {
    match ready {
        None => Deadline::Never,
        Some(None) => Deadline::Passed,
        Some(Some((secs, nanos))) => if secs == 0 && nanos == 0 {
            Deadline::Passed
        } else {
            Deadline::In(millis_spec(secs, nanos) as u64)
        },
    }
}

/// Classifies the ready time of a source (see `deadline_spec`): none, one
/// that is not later than now, or one that lies some milliseconds ahead,
/// rounded up.
pub fn deadline(ready: Option<Option<(u64, u32)>>) -> (r: Deadline)
    requires
        ready matches Some(Some((_, nanos))) ==> nanos < 1_000_000_000,
    ensures
        r == deadline_spec(ready),
{
    match ready {
        None => Deadline::Never,
        Some(None) => Deadline::Passed,
        Some(Some((secs, nanos))) => {
            if secs == 0 && nanos == 0 {
                Deadline::Passed
            } else {
                Deadline::In(millis(secs, nanos))
            }
        },
    }
}

/// The ready time that glib is told for `deadline`, where `mono_time` is
/// glib's monotonic clock (in microseconds) when the deadline lies ahead:
/// `-1` for none, `0` for one that has passed, and otherwise the clock
/// reading that many milliseconds later.
pub open spec fn ready_time_spec(deadline: Deadline, mono_time: i64) -> int {
    match deadline {
        Deadline::Never => -1,
        Deadline::Passed => 0,
        Deadline::In(ms) => ((ms * 1000) as u64 as i64) + mono_time,
    }
}

/// Computes the ready time of a source (`g_source_set_ready_time`'s
/// argument) for `deadline`.
pub fn ready_time(deadline: Deadline, mono_time: i64) -> (r: i64)
    requires
        deadline is In ==> deadline->0 * 1000 <= u64::MAX,
        deadline is In ==> i64::MIN <= ((deadline->0 * 1000) as u64 as i64) + mono_time <= i64::MAX,
    ensures
        r == ready_time_spec(deadline, mono_time),
{
    match deadline {
        Deadline::Never => -1,
        Deadline::Passed => 0,
        Deadline::In(ms) => ((ms * 1000) as i64) + mono_time,
    }
}

/// A ready time strictly ahead gives a deadline of the milliseconds it lies
/// ahead, rounded up (saturated where they do not fit in a `u64`); only a
/// ready time that is not ahead counts as passed, and none as never.
pub proof fn lemma_deadline_classifies(secs: u64, nanos: u32)
    requires
        nanos < 1_000_000_000,
    ensures
        deadline_spec(None) == Deadline::Never,
        deadline_spec(Some(None)) == Deadline::Passed,
        deadline_spec(Some(Some((0, 0)))) == Deadline::Passed,
        (secs != 0 || nanos != 0) ==> ({
            let total = secs * 1_000_000_000 + nanos;
            &&& deadline_spec(Some(Some((secs, nanos)))) is In
            &&& ({
                let m = deadline_spec(Some(Some((secs, nanos))))->In_0;
                &&& m >= 1
                &&& m < u64::MAX ==> m * 1_000_000 >= total && (m - 1) * 1_000_000 < total
                &&& m == u64::MAX ==> (u64::MAX - 1) * 1_000_000 < total
            })
        }),
{
    crate::utils::lemma_millis_is_ceiling(secs, nanos);
}

/// The ready time of a deadline ahead is glib's clock reading plus that
/// many milliseconds, in microseconds, exactly; no ready time is `-1` and a
/// passed one `0`.
pub proof fn lemma_ready_time_offsets_clock(ms: u64, mono_time: i64)
    requires
        ms * 1000 <= i64::MAX,
    ensures
        ready_time_spec(Deadline::In(ms), mono_time) - mono_time == 1000 * ms,
        ready_time_spec(Deadline::Never, mono_time) == -1,
        ready_time_spec(Deadline::Passed, mono_time) == 0,
{
    let x = (ms * 1000) as u64;
    assert(x as i64 == x) by (bit_vector)
        requires
            x <= 0x7fff_ffff_ffff_ffffu64,
    ;
}

} // verus!
