//! The clock, and the lengths of time that the limiter computes with.

use core::time::Duration;
use vstd::prelude::*;

verus! {

/// The latest instant that `chrono` can represent, the end of the year 262142, in
/// milliseconds since the Unix epoch.
pub const MAX_TIMESTAMP: u64 = 8_210_266_876_799_999;

/// The number of whole milliseconds in a duration, as `Duration::as_millis` counts them.
pub uninterp spec fn duration_millis(duration: Duration) -> nat;

/// `Duration::as_millis` returns the number of whole milliseconds in the duration.
pub assume_specification[ Duration::as_millis ](duration: &Duration) -> (millis: u128)
    ensures
        millis as nat == duration_millis(*duration),
;

/// A duration of whole seconds, as `Duration::from_secs` makes it.
pub uninterp spec fn seconds(secs: u64) -> Duration;

/// `Duration::from_secs` makes a duration of that many seconds, each of a thousand
/// milliseconds.
pub assume_specification[ Duration::from_secs ](secs: u64) -> (duration: Duration)
    ensures
        duration == seconds(secs),
        duration_millis(duration) == secs as nat * 1000,
;

/// The milliseconds of a duration as a timestamp counts them: the low 64 bits.
pub open spec fn timestamp_millis(duration: Duration) -> nat {
    duration_millis(duration) % 0x1_0000_0000_0000_0000
}

/// Returns the low 64 bits of the number of milliseconds in `duration`.
pub fn millis_of(duration: &Duration) -> (millis: u64)
    ensures
        millis as nat == timestamp_millis(*duration),
{
    (duration.as_millis() % 0x1_0000_0000_0000_0000) as u64
}

/// The current time in milliseconds since the Unix epoch: `chrono::Utc::now`, read by
/// `DateTime::timestamp_millis`.
///
/// Two readings are unrelated: the clock may be set back between them. What is claimed of a
/// reading is its range. `Utc::now` takes the time that has passed since the epoch (it panics
/// where the system clock shows a time before it) and represents it as a `DateTime`, which
/// ends with the year 262142.
#[verifier::external_body]
pub(crate) fn now_millis() -> (now: u64)
    ensures
        now <= MAX_TIMESTAMP,
{
    chrono::Utc::now().timestamp_millis() as u64
}

/// Whether the clock may show `now`: a time that `now_millis` may return.
pub closed spec fn shown(now: u64) -> bool {
    call_ensures(now_millis, (), now)
}

/// Reads the clock.
pub(crate) fn clock() -> (now: u64)
    ensures
        shown(now),
        now <= MAX_TIMESTAMP,
{
    now_millis()
}

} // verus!
