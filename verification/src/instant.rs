//! Timestamps and durations for the two clock domains of the board.
//!
//! A ranging cycle is bookkept in two independent clock domains: a
//! low-resolution clock (millisecond ticks) for start/stop times of long
//! events, and a high-resolution clock (microsecond ticks) for the width of
//! the short echo pulse. Instants of different domains are deliberately
//! distinct types so that they cannot be mixed in arithmetic.
//!
//! Instant arithmetic is modular: the tick counter wraps at 32 bits, and the
//! difference of two instants of the same clock is a duration, taken modulo
//! that width. Converting a duration to microseconds is fallible where the
//! result does not fit the 32-bit microsecond count.

use vstd::prelude::*;

verus! {

/// The difference `a - b` on a 32-bit wrapping counter.
pub open spec fn spec_wrap_sub_u32(a: u32, b: u32) -> u32 {
    if a >= b {
        (a - b) as u32
    } else {
        (a - b + 0x1_0000_0000) as u32
    }
}

/// An instant of the low-resolution clock: milliseconds since the clock was
/// created, wrapping at 32 bits (roughly every 49 days).
#[derive(Debug, Clone, Copy, PartialEq, Eq, Structural)]
pub struct LrInstant {
    /// Milliseconds since the clock was created, modulo `2^32`.
    pub ticks: u32,
}

/// Elapsed time between two [`LrInstant`]s, in milliseconds.
#[derive(Debug, Clone, Copy, PartialEq, Eq, Structural)]
pub struct LrDuration {
    /// Whole milliseconds.
    pub ticks: u32,
}

/// An instant of the high-resolution clock: microseconds, wrapping at 32
/// bits. Used to timestamp edges of the echo pulse.
#[derive(Debug, Clone, Copy, PartialEq, Eq, Structural)]
pub struct HrInstant {
    /// Microseconds, modulo `2^32`.
    pub ticks: u32,
}

/// Elapsed time between two [`HrInstant`]s, in microseconds.
#[derive(Debug, Clone, Copy, PartialEq, Eq, Structural)]
pub struct HrDuration {
    /// Whole microseconds.
    pub ticks: u32,
}

impl LrInstant {
    /// Wraps a raw millisecond count.
    pub fn new(ticks: u32) -> (r: Self)
        ensures
            r.ticks == ticks,
    {
        LrInstant { ticks }
    }

    /// Time elapsed since `earlier`, on the wrapping 32-bit counter.
    pub fn duration_since(self, earlier: Self) -> (r: LrDuration)
        ensures
            r.ticks == spec_wrap_sub_u32(self.ticks, earlier.ticks),
    {
        LrDuration { ticks: self.ticks.wrapping_sub(earlier.ticks) }
    }
}

impl LrDuration {
    /// This duration in microseconds, or `None` where the count does not fit
    /// 32 bits.
    pub fn to_micros(self) -> (r: Option<u32>)
        ensures
            r matches Some(us) ==> us == self.ticks * 1000 && self.ticks * 1000 <= u32::MAX,
            r is None <==> self.ticks * 1000 > u32::MAX,
    {
        self.ticks.checked_mul(1000)
    }
}

impl HrInstant {
    /// Wraps a raw microsecond count.
    pub fn new(ticks: u32) -> (r: Self)
        ensures
            r.ticks == ticks,
    {
        HrInstant { ticks }
    }

    /// Time elapsed since `earlier`, on the wrapping 32-bit counter.
    pub fn duration_since(self, earlier: Self) -> (r: HrDuration)
        ensures
            r.ticks == spec_wrap_sub_u32(self.ticks, earlier.ticks),
    {
        HrDuration { ticks: self.ticks.wrapping_sub(earlier.ticks) }
    }
}

impl HrDuration {
    /// This duration in microseconds. The high-resolution tick is one
    /// microsecond, so the conversion is the identity.
    pub fn to_micros(self) -> (r: u32)
        ensures
            r == self.ticks,
    {
        self.ticks
    }
}

} // verus!
