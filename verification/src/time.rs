//! Fixed-duration delays measured against the hardware timebase counter.
//!
//! The counter itself is hardware: the caller reads its two halves, re-reading
//! until the upper half is stable, and polls. This module computes the
//! combined counter value, the tick deadline of a delay, and whether a
//! deadline has passed.

use vstd::prelude::*;

verus! {

/// Timebase ticks per second.
pub const TIMEBASE_FREQ: u64 = 3192000000 / 64;

/// The combined counter value two stable halves form.
pub fn mftb_value(upper: u64, lower: u64) -> (r: u128)
    ensures
        r == ((upper as u128) << 64) | lower as u128,
{
    ((upper as u128) << 64) | lower as u128
}

/// The deadline a delay of `time` ticks sets when the counter reads `now`,
/// saturating at the counter's end.
pub fn tdelay(time: u128, now: u128) -> (tgt: u128)
    ensures
        tgt == if time + now <= u128::MAX {
            (time + now) as int
        } else {
            u128::MAX as int
        },
{
    if time <= u128::MAX - now {
        time + now
    } else {
        u128::MAX
    }
}

/// How many timebase ticks a delay of `length_ns` nanoseconds takes.
pub fn delay(length_ns: u128) -> (ticks: u128)
    requires
        length_ns <= u128::MAX / TIMEBASE_FREQ as u128,
    ensures
        ticks == length_ns * TIMEBASE_FREQ as u128 / 1_000_000_000,
{
    proof {
        assert(length_ns * TIMEBASE_FREQ as u128 <= u128::MAX) by (nonlinear_arith)
            requires
                length_ns <= u128::MAX / TIMEBASE_FREQ as u128,
                TIMEBASE_FREQ == 3192000000u64 / 64,
        ;
    }
    (length_ns * TIMEBASE_FREQ as u128) / 1_000_000_000
}

/// Whether the counter has reached a delay's deadline: the poll the
/// busy-wait loop runs on each fresh counter read.
pub fn delay_elapsed(now: u128, tgt: u128) -> (r: bool)
    ensures
        r == (now >= tgt),
{
    now >= tgt
}

} // verus!
