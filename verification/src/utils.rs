//! Conversions between time units.

use vstd::prelude::*;
use vstd::string::StringSliceAdditionalSpecFns;
use vstd::utf8::{decode_utf8, valid_utf8};

verus! {

/// Calls `std::str::from_utf8`. Claimed of it: it succeeds exactly on valid
/// UTF-8, and the string it gives has exactly the given bytes, which decode
/// to its characters.
#[verifier::external_body]
fn str_from_utf8<'a>(bytes: &'a [u8]) -> (r: Option<&'a str>)
    ensures
        r is Some <==> valid_utf8(bytes@),
        r is Some ==> r->0.spec_bytes() == bytes@,
        r is Some ==> r->0@ == decode_utf8(bytes@),
{
    std::str::from_utf8(bytes).ok()
}

/// The text that `bytes` encode, or `None` where they are not valid UTF-8.
pub fn utf8_str<'a>(bytes: &'a [u8]) -> (r: Option<&'a str>)
    ensures
        r is Some <==> valid_utf8(bytes@),
        r is Some ==> r->0.spec_bytes() == bytes@,
        r is Some ==> r->0@ == decode_utf8(bytes@),
{
    str_from_utf8(bytes)
}

/// The number of whole milliseconds that covers `secs` seconds and
/// `subsec_nanos` nanoseconds, rounded up, and saturated at `u64::MAX`.
pub open spec fn millis_spec(secs: u64, subsec_nanos: u32) -> int {
    let ms = secs * 1000 + (subsec_nanos + 999_999) / 1_000_000;
    if ms > u64::MAX {
        u64::MAX as int
    } else {
        ms
    }
}

/// Converts a duration (its whole seconds and the nanoseconds beyond them,
/// as `Duration::as_secs` and `Duration::subsec_nanos` give them) to
/// milliseconds, rounding up and saturating at `u64::MAX`.
pub fn millis(secs: u64, subsec_nanos: u32) -> (r: u64)
    requires
        subsec_nanos < 1_000_000_000,
    ensures
        r == millis_spec(secs, subsec_nanos),
{
    let extra: u32 = (subsec_nanos + 999_999) / 1_000_000;
    match secs.checked_mul(1000) {
        Some(whole) => whole.saturating_add(extra as u64),
        None => u64::MAX,
    }
}

/// `millis` is the duration rounded up to whole milliseconds: the
/// milliseconds cover the duration, and one millisecond fewer would not;
/// it saturates at `u64::MAX` only where that rounded value does not fit.
pub proof fn lemma_millis_is_ceiling(secs: u64, subsec_nanos: u32)
    requires
        subsec_nanos < 1_000_000_000,
    ensures
        ({
            let total = secs * 1_000_000_000 + subsec_nanos;
            let m = millis_spec(secs, subsec_nanos);
            &&& 0 <= m <= u64::MAX
            &&& m < u64::MAX ==> m * 1_000_000 >= total && (m - 1) * 1_000_000 < total
            &&& m == u64::MAX ==> (u64::MAX - 1) * 1_000_000 < total
        }),
        millis_spec(secs, 0) == (if secs * 1000 <= u64::MAX {
            secs * 1000
        } else {
            u64::MAX as int
        }),
{
    let n = subsec_nanos as int;
    let c = (n + 999_999) / 1_000_000;
    assert(c * 1_000_000 >= n && (c - 1) * 1_000_000 < n && c >= 0) by (nonlinear_arith)
        requires
            0 <= n < 1_000_000_000,
            c == (n + 999_999) / 1_000_000,
    ;
    assert((0int + 999_999) / 1_000_000 == 0);
}

} // verus!
