//! Tests for instant and duration arithmetic in the two clock domains.

use ranging::instant::{HrInstant, LrInstant};

#[test]
fn lr_duration_is_wrapping() {
    let a = LrInstant::new(10);
    let b = LrInstant::new(3);
    assert_eq!(a.duration_since(b).ticks, 7);
    // Across the 32-bit wraparound.
    let c = LrInstant::new(u32::MAX - 2);
    assert_eq!(a.duration_since(c).ticks, 13);
}

#[test]
fn lr_duration_to_micros_is_fallible() {
    let d = LrInstant::new(6).duration_since(LrInstant::new(1));
    assert_eq!(d.to_micros(), Some(5_000));
    // 2^32 / 1000 milliseconds no longer fit a 32-bit microsecond count.
    let wide = LrInstant::new(5_000_000).duration_since(LrInstant::new(0));
    assert_eq!(wide.to_micros(), None);
}

#[test]
fn hr_duration_is_microseconds() {
    let a = HrInstant::new(2_160);
    let b = HrInstant::new(1_000);
    let d = a.duration_since(b);
    assert_eq!(d.ticks, 1_160);
    assert_eq!(d.to_micros(), 1_160);
    // Across the 32-bit wraparound.
    assert_eq!(b.duration_since(HrInstant::new(u32::MAX)).ticks, 1_001);
}
