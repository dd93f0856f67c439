//! Instants: the split of a nanosecond count into whole seconds and a
//! remainder, and the question whether the store's calendar can hold one.

use vstd::prelude::*;

verus! {

/// An instant as the store takes it: whole seconds since the epoch and the
/// nanoseconds within the second.
#[derive(Debug, Clone, Copy, PartialEq, Eq, Structural)]
pub struct Timestamp {
    pub seconds: i64,
    pub nanos: u32,
}

/// Nanoseconds in a second.
pub const NANOS_PER_SECOND: u128 = 1_000_000_000;

/// Whether the calendar has an instant `secs` seconds and `nsecs` nanoseconds
/// after the epoch.
pub uninterp spec fn calendar_holds(secs: int, nsecs: int) -> bool;

/// Whether the calendar has an instant `millis` milliseconds after the epoch.
pub uninterp spec fn calendar_holds_millis(millis: int) -> bool;

/// Calls `chrono::DateTime::from_timestamp` and reports whether it returned
/// an instant. The contract names that answer and claims nothing about which
/// instants there are.
#[verifier::external_body]
fn instant_exists(secs: i64, nsecs: u32) -> (r: bool)
    ensures
        r == calendar_holds(secs as int, nsecs as int),
{
    chrono::DateTime::from_timestamp(secs, nsecs).is_some()
}

/// Calls `chrono::DateTime::from_timestamp_millis` and reports whether it
/// returned an instant. The contract names that answer and claims nothing
/// about which instants there are.
#[verifier::external_body]
fn millis_exist(millis: i64) -> (r: bool)
    ensures
        r == calendar_holds_millis(millis as int),
{
    chrono::DateTime::from_timestamp_millis(millis).is_some()
}

/// Whether the whole seconds of a nanosecond count fit the signed 64 bits
/// that the store has for them.
pub open spec fn in_supported_range(t: u128) -> bool {
    t / NANOS_PER_SECOND <= i64::MAX
}

/// The split of a nanosecond count in the supported range.
pub open spec fn split(t: u128) -> Timestamp {
    Timestamp { seconds: (t / NANOS_PER_SECOND) as i64, nanos: (t % NANOS_PER_SECOND) as u32 }
}

/// The instant that is stored for a nanosecond count: its split, where the
/// seconds are in range and the calendar has that instant; nothing otherwise.
pub open spec fn stored_timestamp(t: u128) -> Option<Timestamp> {
    if in_supported_range(t) && calendar_holds(
        split(t).seconds as int,
        split(t).nanos as int,
    ) {
        Some(split(t))
    } else {
        None
    }
}

/// The milliseconds that are kept for a count read from an event: the count
/// itself, where the calendar has that instant.
pub open spec fn accepted_millis(millis: Option<i64>) -> Option<i64> {
    match millis {
        Some(ms) => if calendar_holds_millis(ms as int) {
            Some(ms)
        } else {
            None
        },
        None => None,
    }
}

/// Splits a count of nanoseconds since the epoch into whole seconds and the
/// remainder. A count whose seconds exceed 64 signed bits has no split: it is
/// refused, never wrapped.
pub fn split_timestamp(t: u128) -> (r: Option<Timestamp>)
    ensures
        r == (if in_supported_range(t) {
            Some(split(t))
        } else {
            None
        }),
        r matches Some(ts) ==> ts.seconds * NANOS_PER_SECOND + ts.nanos == t && ts.seconds >= 0
            && ts.nanos < NANOS_PER_SECOND,
{
    let seconds: u128 = t / NANOS_PER_SECOND;
    let nanos: u128 = t % NANOS_PER_SECOND;
    if seconds > 0x7fff_ffff_ffff_ffffu128 {
        None
    } else {
        Some(Timestamp { seconds: seconds as i64, nanos: nanos as u32 })
    }
}

/// Seconds and remainder put together again give the count they were split
/// from, for every count in the supported range.
pub proof fn lemma_split_recombines(t: u128)
    requires
        in_supported_range(t),
    ensures
        split(t).seconds * NANOS_PER_SECOND + split(t).nanos == t,
        0 <= split(t).nanos < NANOS_PER_SECOND,
        0 <= split(t).seconds,
{
}

/// The instant to store for a count of nanoseconds since the epoch.
pub fn timestamp_for_storage(t: u128) -> (r: Option<Timestamp>)
    ensures
        r == stored_timestamp(t),
{
    match split_timestamp(t) {
        Some(ts) => if instant_exists(ts.seconds, ts.nanos) {
            Some(ts)
        } else {
            None
        },
        None => None,
    }
}

/// Keeps a count of milliseconds that the calendar has an instant for.
pub fn accept_millis(millis: Option<i64>) -> (r: Option<i64>)
    ensures
        r == accepted_millis(millis),
{
    match millis {
        Some(ms) => if millis_exist(ms) {
            Some(ms)
        } else {
            None
        },
        None => None,
    }
}

} // verus!
