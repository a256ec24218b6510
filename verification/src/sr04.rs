//! Driver for the HC-SR04 ultrasonic sensor.
//!
//! The sensor is commanded by a short pulse on its trigger pin and answers
//! with a pulse on its echo pin whose width encodes the round-trip time of an
//! ultrasonic ping. The driver is an explicit state machine: the caller
//! raises the trigger through [`Sr04::trigger`], then feeds timestamped
//! events — the end of the trigger pulse, and the echo pin's edges — through
//! [`Sr04::process`]. Start and end times are bookkept in the low-resolution
//! clock domain; the echo width is measured in the high-resolution domain.
//!
//! Every public operation first checks the in-flight measurement against the
//! timeout; a fired timeout closes the measurement with
//! [`Error::Timeout`] before anything else is considered.

use vstd::arithmetic::div_mod::lemma_div_is_ordered;
use vstd::prelude::*;

use crate::instant::{spec_wrap_sub_u32, HrInstant, LrInstant};

verus! {

/// Time after the start of the measurement beyond which we consider the
/// measurement to have timed out, in microseconds.
///
/// The HC-SR04 datasheet suggests a timeout of 60 milliseconds.
pub const TIMEOUT_US: u32 = 60_000;

/// Minimum width of the trigger pulse, in microseconds.
pub const TRIGGER_WIDTH_US: u32 = 10;

/// Minimum width of the echo pulse, in microseconds.
///
/// Any pulses with widths smaller than this are considered to be glitches.
pub const MINIMUM_ECHO_WIDTH_US: u32 = 200;

/// Converts the width of the echo pulse to meters: meters per microsecond of
/// echo width, as a binary fixed-point number with 32 fractional bits.
///
/// Based on the speed of sound at 25 deg C (346.06 m/s), which makes the
/// scale 0.00017303 m/us; this constant is that value times `2^32`, rounded.
pub const SCALING_FACTOR_Q32: u64 = 743_158;

/// Distance type used for measurements: meters, as a binary fixed-point
/// number with 16 integer and 16 fractional bits.
#[derive(Debug, Clone, Copy, PartialEq, Eq, Structural)]
pub struct Distance {
    /// Meters times `2^16`.
    pub bits: u32,
}

/// Distance bits (meters times `2^16`) for an echo width of `us`
/// microseconds: the product with [`SCALING_FACTOR_Q32`] (written out as
/// 743158) carries 32 fractional bits, and dropping 16 of them leaves the
/// distance's fixed-point form.
pub open spec fn spec_distance_bits(us: int) -> int {
    us * 743_158 / 0x10000
}

impl Distance {
    /// The distance corresponding to an echo pulse `us` microseconds wide.
    ///
    /// The width must already be clamped to the timeout ceiling, which also
    /// keeps the fixed-point product well inside 32 bits.
    pub fn from_echo_width_us(us: u32) -> (r: Distance)
        requires
            us <= TIMEOUT_US,
        ensures
            r.bits == spec_distance_bits(us as int),
    {
        proof {
            lemma_div_is_ordered(us as int * 743_158, 60_000int * 743_158, 0x10000int);
        }
        let bits64: u64 = us as u64 * 743_158u64 / 0x10000u64;
        Distance { bits: bits64 as u32 }
    }
}

/// Errors that can be returned from the sensor.
#[derive(Debug, Clone, Copy, PartialEq, Eq, Structural)]
pub enum Error {
    /// A measurement is already in progress.
    InProgress,
    /// Measurement timed out.
    Timeout,
    /// Sensor measured a distance that was abnormally short.
    TooShort,
    /// An unexpected event was provided.
    Unexpected,
}

/// Events that can be passed to the driver.
#[derive(Debug, Clone, Copy, PartialEq, Eq, Structural)]
pub enum Event {
    /// A duration of at least [`TRIGGER_WIDTH_US`] has passed since
    /// `trigger()` returned `Ok(())`.
    TriggerComplete,
    /// A rising / falling edge interrupt occurred on the echo pin.
    EchoInterrupt(HrInstant),
}

/// Sub-steps of one in-flight measurement; they advance strictly forward.
#[derive(Debug, Clone, Copy, PartialEq, Eq, Structural)]
pub enum MeasurementState {
    /// Trigger pin has been pulled high.
    AfterTriggerRising,
    /// Trigger pin has been pulled low after it has been high for the
    /// trigger width.
    AfterTriggerFalling,
    /// After a rising edge has been detected on the echo pin.
    AfterEchoRising {
        /// Time at which the rising edge was detected on the pin.
        rise: HrInstant,
    },
}

/// Sensor state: idle, or exactly one measurement in flight.
#[derive(Debug, Clone, Copy, PartialEq, Eq, Structural)]
pub enum SensorState {
    /// Sensor is idle - no measurement has been started.
    Idle,
    /// A measurement has been started.
    Measuring {
        /// Measurement start time.
        start: LrInstant,
        /// Measurement state.
        state: MeasurementState,
    },
}

/// Measurement information.
#[derive(Debug, Clone, Copy, PartialEq)]
pub struct Measurement {
    /// Measurement start time.
    pub start: LrInstant,
    /// Measurement end time.
    pub end: LrInstant,
    /// Measurement result.
    pub result: Result<Distance, Error>,
}

/// Commanded level of the sensor's trigger line.
///
/// The driver records the level it wants the physical pin to have; the
/// firmware glue that owns the pin drives it to this level after each call.
#[derive(Debug, Clone, Copy, PartialEq, Eq, Structural)]
pub struct TriggerLine {
    /// Whether the line is commanded high.
    pub high: bool,
}

impl TriggerLine {
    /// A line commanded low.
    pub fn new() -> (r: Self)
        ensures
            !r.high,
    {
        TriggerLine { high: false }
    }

    /// Command the line high.
    pub fn set_high(&mut self)
        ensures
            final(self).high,
    {
        self.high = true;
    }

    /// Command the line low.
    pub fn set_low(&mut self)
        ensures
            !final(self).high,
    {
        self.high = false;
    }

    /// The currently commanded level.
    pub fn is_set_high(&self) -> (r: bool)
        ensures
            r == self.high,
    {
        self.high
    }
}

/// Elapsed microseconds between `start` and `at` in the low-resolution
/// domain, as the driver reckons it: the wrapping millisecond difference
/// converted to microseconds, with a conversion overflow (which is far
/// beyond any plausible measurement) counting as the timeout itself.
pub open spec fn spec_elapsed_us(start: LrInstant, at: LrInstant) -> int {
    let d = spec_wrap_sub_u32(at.ticks, start.ticks);
    if d * 1000 <= u32::MAX {
        d * 1000
    } else {
        TIMEOUT_US as int
    }
}

/// Whether a measurement started at `start` has timed out by `at`.
pub open spec fn spec_timed_out(start: LrInstant, at: LrInstant) -> bool {
    spec_elapsed_us(start, at) >= TIMEOUT_US
}

/// Echo pulse width in microseconds, clamped to the timeout ceiling. The
/// clamp guards against the two clock domains disagreeing wildly: a genuine
/// echo can never be wider than the measurement timeout.
pub open spec fn spec_echo_width_us(rise: HrInstant, fall: HrInstant) -> int {
    let w = spec_wrap_sub_u32(fall.ticks, rise.ticks);
    if w <= TIMEOUT_US {
        w as int
    } else {
        TIMEOUT_US as int
    }
}

/// Classification of a completed echo: pulses narrower than the glitch
/// threshold are rejected as too short, all others convert to a distance.
pub open spec fn spec_echo_result(rise: HrInstant, fall: HrInstant) -> Result<Distance, Error> {
    let w = spec_echo_width_us(rise, fall);
    if w < MINIMUM_ECHO_WIDTH_US {
        Err(Error::TooShort)
    } else {
        Ok(Distance { bits: spec_distance_bits(w) as u32 })
    }
}

/// The measurement recorded when the timeout fires: started at `start`,
/// closed at `at`, with no distance.
pub open spec fn spec_timeout_measurement(start: LrInstant, at: LrInstant) -> Measurement {
    Measurement { start, end: at, result: Err(Error::Timeout) }
}

/// Driver structure.
pub struct Sr04 {
    /// Trigger line.
    pub trig: TriggerLine,
    /// State of the driver.
    pub state: SensorState,
    /// Last measurement recorded.
    pub last: Option<Measurement>,
}

impl Sr04 {
    /// Create a new `Sr04` instance around a trigger line.
    pub fn new(trig: TriggerLine) -> (r: Self)
        ensures
            r.trig == trig,
            r.state is Idle,
            r.last is None,
    {
        Sr04 { trig, state: SensorState::Idle, last: None }
    }

    /// Obtain the last complete measurement, if any.
    pub fn measurement(&self) -> (r: Option<&Measurement>)
        ensures
            r matches Some(m) ==> self.last == Some(*m),
            r is Some <==> self.last is Some,
    {
        self.last.as_ref()
    }

    /// Returns the currently commanded state of the trigger line.
    pub fn is_trig_high(&self) -> (r: bool)
        ensures
            r == self.trig.high,
    {
        self.trig.is_set_high()
    }

    /// Handles time-based driver state machine transitions.
    ///
    /// Returns `true` if this resulted in a measurement being completed
    /// (necessarily with a timeout result).
    fn poll(&mut self, at: LrInstant) -> (r: bool)
        ensures
            old(self).state matches SensorState::Measuring { start, .. } ==> spec_timed_out(
                start,
                at,
            ) ==> (r && final(self).state is Idle && final(self).last == Some(
                spec_timeout_measurement(start, at),
            )),
            old(self).state matches SensorState::Measuring { start, .. } ==> !spec_timed_out(
                start,
                at,
            ) ==> (!r && *final(self) == *old(self)),
            old(self).state is Idle ==> (!r && *final(self) == *old(self)),
            final(self).trig == old(self).trig,
    {
        match self.state {
            SensorState::Measuring { start, .. } => {
                let elapsed: u32 = elapsed_us(start, at);
                if elapsed >= TIMEOUT_US {
                    self.state = SensorState::Idle;
                    self.last = Some(
                        Measurement { start, end: at, result: Err(Error::Timeout) },
                    );
                    true
                } else {
                    false
                }
            },
            _ => false,
        }
    }

    /// Trigger the sensor.
    ///
    /// An `Ok(())` result requires that the caller pass the
    /// `Event::TriggerComplete` event to `process()` once the trigger pulse
    /// has been high for at least [`TRIGGER_WIDTH_US`].
    pub fn trigger(&mut self, at: LrInstant) -> (r: Result<(), Error>)
        ensures
            // From idle, the trigger always fires: the line rises and a
            // measurement starts at `at`.
            old(self).state is Idle ==> (r == Ok::<(), Error>(()) && final(self).trig.high
                && final(self).state == (SensorState::Measuring {
                start: at,
                state: MeasurementState::AfterTriggerRising,
            }) && final(self).last == old(self).last),
            // A timed-out in-flight measurement is closed with a timeout
            // result first; the trigger then fires as from idle.
            old(self).state matches SensorState::Measuring { start, .. } ==> spec_timed_out(
                start,
                at,
            ) ==> (r == Ok::<(), Error>(()) && final(self).trig.high && final(self).state == (
            SensorState::Measuring {
                start: at,
                state: MeasurementState::AfterTriggerRising,
            }) && final(self).last == Some(spec_timeout_measurement(start, at))),
            // Still measuring and not timed out: refused, nothing changes.
            old(self).state matches SensorState::Measuring { start, .. } ==> !spec_timed_out(
                start,
                at,
            ) ==> (r == Err::<(), Error>(Error::InProgress) && *final(self) == *old(self)),
    {
        self.poll(at);
        match self.state {
            SensorState::Idle => {
                self.trig.set_high();
                self.state = SensorState::Measuring {
                    start: at,
                    state: MeasurementState::AfterTriggerRising,
                };
                Ok(())
            },
            _ => Err(Error::InProgress),
        }
    }

    /// Process an event.
    ///
    /// Returns `Ok(true)` if the event (or the timeout check preceding it)
    /// resulted in a measurement being completed.
    pub fn process(&mut self, event: Event, at: LrInstant) -> (r: Result<bool, Error>)
        ensures
            // The timeout fires first and consumes no event.
            old(self).state matches SensorState::Measuring { start, .. } ==> spec_timed_out(
                start,
                at,
            ) ==> (r == Ok::<bool, Error>(true) && final(self).state is Idle && final(self).last
                == Some(spec_timeout_measurement(start, at)) && final(self).trig
                == old(self).trig),
            // Idle: there is no measurement this event could belong to.
            old(self).state is Idle ==> (r == Err::<bool, Error>(Error::Unexpected) && *final(self)
                == *old(self)),
            // Awaiting the end of the trigger pulse.
            old(self).state matches SensorState::Measuring {
                start,
                state: MeasurementState::AfterTriggerRising,
            } ==> !spec_timed_out(start, at) ==> (if event is TriggerComplete {
                r == Ok::<bool, Error>(false) && !final(self).trig.high && final(self).state == (
                SensorState::Measuring {
                    start,
                    state: MeasurementState::AfterTriggerFalling,
                }) && final(self).last == old(self).last
            } else {
                r == Err::<bool, Error>(Error::Unexpected) && *final(self) == *old(self)
            }),
            // Awaiting the echo pulse's rising edge.
            old(self).state matches SensorState::Measuring {
                start,
                state: MeasurementState::AfterTriggerFalling,
            } ==> !spec_timed_out(start, at) ==> event is EchoInterrupt ==> (r == Ok::<
                bool,
                Error,
            >(false) && final(self).state == (SensorState::Measuring {
                start,
                state: MeasurementState::AfterEchoRising { rise: event->0 },
            }) && final(self).last == old(self).last && final(self).trig == old(self).trig),
            old(self).state matches SensorState::Measuring {
                start,
                state: MeasurementState::AfterTriggerFalling,
            } ==> !spec_timed_out(start, at) ==> event is TriggerComplete ==> (r == Err::<
                bool,
                Error,
            >(Error::Unexpected) && *final(self) == *old(self)),
            // Awaiting the echo pulse's falling edge; its arrival completes
            // the measurement and classifies the echo width.
            old(self).state matches SensorState::Measuring {
                start,
                state: MeasurementState::AfterEchoRising { rise },
            } ==> !spec_timed_out(start, at) ==> event is EchoInterrupt ==> (r == Ok::<
                bool,
                Error,
            >(true) && final(self).state is Idle && final(self).last == Some(
                Measurement { start, end: at, result: spec_echo_result(rise, event->0) },
            ) && final(self).trig == old(self).trig),
            old(self).state matches SensorState::Measuring {
                start,
                state: MeasurementState::AfterEchoRising { .. },
            } ==> !spec_timed_out(start, at) ==> event is TriggerComplete ==> (r == Err::<
                bool,
                Error,
            >(Error::Unexpected) && *final(self) == *old(self)),
    {
        if self.poll(at) {
            return Ok(true);
        }

        match self.state {
            SensorState::Idle => Err(Error::Unexpected),
            SensorState::Measuring { start, state } => {
                match state {
                    MeasurementState::AfterTriggerRising => {
                        if let Event::TriggerComplete = event {
                            self.trig.set_low();
                            self.state = SensorState::Measuring {
                                start,
                                state: MeasurementState::AfterTriggerFalling,
                            };
                            Ok(false)
                        } else {
                            Err(Error::Unexpected)
                        }
                    },
                    MeasurementState::AfterTriggerFalling => {
                        if let Event::EchoInterrupt(rise) = event {
                            self.state = SensorState::Measuring {
                                start,
                                state: MeasurementState::AfterEchoRising { rise },
                            };
                            Ok(false)
                        } else {
                            Err(Error::Unexpected)
                        }
                    },
                    MeasurementState::AfterEchoRising { rise } => {
                        if let Event::EchoInterrupt(fall) = event {
                            let width: u32 = clamp_echo_width(rise, fall);
                            let result = if width < MINIMUM_ECHO_WIDTH_US {
                                Err(Error::TooShort)
                            } else {
                                Ok(Distance::from_echo_width_us(width))
                            };
                            self.last = Some(Measurement { start, end: at, result });
                            self.state = SensorState::Idle;
                            Ok(true)
                        } else {
                            Err(Error::Unexpected)
                        }
                    },
                }
            },
        }
    }
}

/// Elapsed time since `start` as the driver reckons it; see
/// [`spec_elapsed_us`].
fn elapsed_us(start: LrInstant, at: LrInstant) -> (r: u32)
    ensures
        r == spec_elapsed_us(start, at),
{
    match at.duration_since(start).to_micros() {
        Some(us) => us,
        None => TIMEOUT_US,
    }
}

/// Width of the echo pulse, clamped to the timeout ceiling; see
/// [`spec_echo_width_us`].
fn clamp_echo_width(rise: HrInstant, fall: HrInstant) -> (r: u32)
    ensures
        r == spec_echo_width_us(rise, fall),
{
    let w: u32 = fall.duration_since(rise).to_micros();
    if w <= TIMEOUT_US {
        w
    } else {
        TIMEOUT_US
    }
}

} // verus!
