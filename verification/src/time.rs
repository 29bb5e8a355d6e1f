//! Time and speed as whole numbers.
//!
//! The driver of a simulation picks a moment as zero and hands every later
//! moment in as the nanoseconds that have passed since. Speeds are counted in
//! thousandths of a step per second, so that a step takes a whole number of
//! nanoseconds to within one.

use vstd::prelude::*;

verus! {

/// A moment: nanoseconds since the moment that the driver chose as zero.
pub type Timestamp = u64;

/// A speed: thousandths of a step per second.
pub type Speed = u32;

/// The speed of one step per second.
pub const STEP_PER_SECOND: Speed = 1_000;

/// Nanoseconds that a step takes at speed 1: a thousand seconds.
pub const NANOS_AT_UNIT_SPEED: u64 = 1_000_000_000_000;

/// The moment at which the next step is allowed after a step at `current`:
/// `1 / speed` seconds later, rounded down to the nanosecond. The moment
/// saturates at the last one that a `Timestamp` can hold, which is also the
/// answer for speed 0: something without speed never steps again.
pub open spec fn next_step_time(current: Timestamp, speed: Speed) -> Timestamp {
    if speed == 0 || current + NANOS_AT_UNIT_SPEED as int / speed as int > u64::MAX {
        u64::MAX
    } else {
        (current + NANOS_AT_UNIT_SPEED as int / speed as int) as u64
    }
}

/// Computes [`next_step_time`].
pub fn step_allowed_after(current: Timestamp, speed: Speed) -> (next: Timestamp)
    ensures
        next == next_step_time(current, speed),
        next >= current,
{
    if speed == 0 {
        u64::MAX
    } else {
        let pause: u64 = NANOS_AT_UNIT_SPEED / (speed as u64);
        if pause > u64::MAX - current {
            u64::MAX
        } else {
            current + pause
        }
    }
}

} // verus!
