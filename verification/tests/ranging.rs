//! Tests for the HC-SR04 ranging state machine: the full trigger/echo cycle,
//! timeout handling, glitch rejection, and protocol violations.

use ranging::instant::{HrInstant, LrInstant};
use ranging::sr04::{
    Distance, Error, Event, Sr04, TriggerLine, MINIMUM_ECHO_WIDTH_US, TIMEOUT_US,
    TRIGGER_WIDTH_US,
};

fn fresh_sensor() -> Sr04 {
    Sr04::new(TriggerLine::new())
}

fn lr(ms: u32) -> LrInstant {
    LrInstant::new(ms)
}

fn hr(us: u32) -> HrInstant {
    HrInstant::new(us)
}

#[test]
fn trigger_from_idle_succeeds() {
    let mut s = fresh_sensor();
    assert!(!s.is_trig_high());
    assert_eq!(s.trigger(lr(7)), Ok(()));
    assert!(s.is_trig_high());
    assert!(s.measurement().is_none());
}

#[test]
fn trigger_while_measuring_is_refused() {
    let mut s = fresh_sensor();
    assert_eq!(s.trigger(lr(0)), Ok(()));
    // Well within the timeout: the in-flight measurement stays untouched.
    assert_eq!(s.trigger(lr(10)), Err(Error::InProgress));
    assert!(s.is_trig_high());
    assert!(s.measurement().is_none());
    // The cycle can still proceed normally afterwards.
    assert_eq!(s.process(Event::TriggerComplete, lr(10)), Ok(false));
}

#[test]
fn end_to_end_measurement() {
    let mut s = fresh_sensor();
    let t0 = lr(5);
    assert_eq!(s.trigger(t0), Ok(()));
    assert_eq!(s.process(Event::TriggerComplete, t0), Ok(false));
    assert!(!s.is_trig_high());
    assert_eq!(s.process(Event::EchoInterrupt(hr(1000)), t0), Ok(false));
    // 1160 us of echo width.
    assert_eq!(s.process(Event::EchoInterrupt(hr(2160)), lr(6)), Ok(true));

    let m = s.measurement().expect("cycle completed");
    assert_eq!(m.start, t0);
    assert_eq!(m.end, lr(6));
    let d = m.result.expect("plausible echo");
    // 1160 us * 0.00017303 m/us, in Q16.16: floor(1160 * 743158 / 65536).
    assert_eq!(d, Distance { bits: 13154 });
    let meters = d.bits as f64 / 65536.0;
    assert!((meters - 0.2007).abs() < 5e-4);
}

#[test]
fn echo_narrower_than_glitch_threshold() {
    let mut s = fresh_sensor();
    let t0 = lr(0);
    assert_eq!(s.trigger(t0), Ok(()));
    assert_eq!(s.process(Event::TriggerComplete, t0), Ok(false));
    assert_eq!(s.process(Event::EchoInterrupt(hr(400)), t0), Ok(false));
    // 150 us is below the 200 us minimum: classified as a glitch.
    assert!(150 < MINIMUM_ECHO_WIDTH_US);
    assert_eq!(s.process(Event::EchoInterrupt(hr(550)), t0), Ok(true));
    let m = s.measurement().expect("cycle completed");
    assert_eq!(m.result, Err(Error::TooShort));
}

#[test]
fn echo_width_exactly_at_threshold_is_accepted() {
    let mut s = fresh_sensor();
    let t0 = lr(0);
    assert_eq!(s.trigger(t0), Ok(()));
    assert_eq!(s.process(Event::TriggerComplete, t0), Ok(false));
    assert_eq!(s.process(Event::EchoInterrupt(hr(0)), t0), Ok(false));
    assert_eq!(s.process(Event::EchoInterrupt(hr(200)), t0), Ok(true));
    let m = s.measurement().expect("cycle completed");
    // floor(200 * 743158 / 65536) = 2267 bits, about 3.5 cm.
    assert_eq!(m.result, Ok(Distance { bits: 2267 }));
}

#[test]
fn echo_width_clamped_to_timeout() {
    let mut s = fresh_sensor();
    let t0 = lr(0);
    assert_eq!(s.trigger(t0), Ok(()));
    assert_eq!(s.process(Event::TriggerComplete, t0), Ok(false));
    assert_eq!(s.process(Event::EchoInterrupt(hr(0)), t0), Ok(false));
    // 70000 us exceeds the timeout ceiling; the width is clamped to it.
    assert_eq!(s.process(Event::EchoInterrupt(hr(70_000)), t0), Ok(true));
    let m = s.measurement().expect("cycle completed");
    // floor(60000 * 743158 / 65536).
    assert_eq!(m.result, Ok(Distance { bits: 680_381 }));
}

#[test]
fn timeout_closes_measurement() {
    let mut s = fresh_sensor();
    assert_eq!(s.trigger(lr(0)), Ok(()));
    assert_eq!(s.process(Event::TriggerComplete, lr(1)), Ok(false));
    // 60 ms elapsed: exactly the 60 000 us timeout.
    assert!(60 * 1000 >= TIMEOUT_US);
    let r = s.process(Event::EchoInterrupt(hr(123)), lr(60));
    assert_eq!(r, Ok(true));
    let m = s.measurement().expect("timed out");
    assert_eq!(m.start, lr(0));
    assert_eq!(m.end, lr(60));
    assert_eq!(m.result, Err(Error::Timeout));
    // Back to idle: a stray event is now a protocol violation.
    assert_eq!(s.process(Event::TriggerComplete, lr(61)), Err(Error::Unexpected));
}

#[test]
fn timeout_fires_through_trigger_and_retriggers() {
    let mut s = fresh_sensor();
    assert_eq!(s.trigger(lr(10)), Ok(()));
    // The timeout check runs first; the stale measurement is closed and the
    // trigger then fires again from idle.
    assert_eq!(s.trigger(lr(75)), Ok(()));
    assert!(s.is_trig_high());
    let m = s.measurement().expect("timed out");
    assert_eq!(m.start, lr(10));
    assert_eq!(m.end, lr(75));
    assert_eq!(m.result, Err(Error::Timeout));
}

#[test]
fn unexpected_events_do_not_mutate() {
    let mut s = fresh_sensor();
    // Idle: any event is unexpected.
    assert_eq!(s.process(Event::TriggerComplete, lr(0)), Err(Error::Unexpected));
    assert_eq!(s.process(Event::EchoInterrupt(hr(1)), lr(0)), Err(Error::Unexpected));

    assert_eq!(s.trigger(lr(0)), Ok(()));
    // Awaiting TriggerComplete: an echo edge is unexpected.
    assert_eq!(s.process(Event::EchoInterrupt(hr(1)), lr(1)), Err(Error::Unexpected));
    assert!(s.is_trig_high());
    assert_eq!(s.process(Event::TriggerComplete, lr(1)), Ok(false));
    // Awaiting the rising echo edge: a TriggerComplete is unexpected.
    assert_eq!(s.process(Event::TriggerComplete, lr(2)), Err(Error::Unexpected));
    assert_eq!(s.process(Event::EchoInterrupt(hr(100)), lr(2)), Ok(false));
    // Awaiting the falling echo edge: a TriggerComplete is unexpected.
    assert_eq!(s.process(Event::TriggerComplete, lr(3)), Err(Error::Unexpected));
    // The in-flight measurement survived all the violations.
    assert_eq!(s.process(Event::EchoInterrupt(hr(400)), lr(3)), Ok(true));
    let m = s.measurement().expect("cycle completed");
    assert_eq!(m.result, Ok(Distance { bits: 300 * 743_158 / 65_536 }));
}

#[test]
fn cycle_across_clock_wraparound() {
    let mut s = fresh_sensor();
    let t0 = lr(u32::MAX - 10);
    assert_eq!(s.trigger(t0), Ok(()));
    // 16 ms elapsed across the 32-bit wraparound: not a timeout.
    let t1 = lr(5);
    assert_eq!(s.process(Event::TriggerComplete, t1), Ok(false));
    assert_eq!(s.process(Event::EchoInterrupt(hr(0)), t1), Ok(false));
    assert_eq!(s.process(Event::EchoInterrupt(hr(300)), t1), Ok(true));
    let m = s.measurement().expect("cycle completed");
    assert_eq!(m.start, t0);
    assert_eq!(m.end, t1);
    assert_eq!(m.result, Ok(Distance { bits: 300 * 743_158 / 65_536 }));
}

#[test]
fn timeout_across_clock_wraparound() {
    let mut s = fresh_sensor();
    let t0 = lr(u32::MAX - 10);
    assert_eq!(s.trigger(t0), Ok(()));
    // 71 ms elapsed across the wraparound: timed out.
    let r = s.process(Event::TriggerComplete, lr(60));
    assert_eq!(r, Ok(true));
    let m = s.measurement().expect("timed out");
    assert_eq!(m.result, Err(Error::Timeout));
}

#[test]
fn measurement_is_overwritten_by_next_cycle() {
    let mut s = fresh_sensor();
    let t0 = lr(0);
    assert_eq!(s.trigger(t0), Ok(()));
    assert_eq!(s.process(Event::TriggerComplete, t0), Ok(false));
    assert_eq!(s.process(Event::EchoInterrupt(hr(0)), t0), Ok(false));
    assert_eq!(s.process(Event::EchoInterrupt(hr(1000)), t0), Ok(true));
    let first = *s.measurement().expect("first cycle");

    let t1 = lr(100);
    assert_eq!(s.trigger(t1), Ok(()));
    assert_eq!(s.process(Event::TriggerComplete, t1), Ok(false));
    assert_eq!(s.process(Event::EchoInterrupt(hr(5000)), t1), Ok(false));
    assert_eq!(s.process(Event::EchoInterrupt(hr(7000)), t1), Ok(true));
    let second = *s.measurement().expect("second cycle");

    assert_ne!(first.result, second.result);
    assert_eq!(second.start, t1);
}

#[test]
fn trigger_width_constant_is_plausible() {
    // The driver asks its caller to hold the trigger pulse for at least the
    // datasheet's 10 us before reporting TriggerComplete.
    assert_eq!(TRIGGER_WIDTH_US, 10);
}
