//! Interrupt-safe timekeeping and time-of-flight ultrasonic ranging for a
//! small microcontroller board.
//!
//! The two central pieces are:
//!
//! - [`lrtimer::LrTimer`], a monotonic clock that extends a 16-bit
//!   free-running hardware counter across overflow interrupts, and
//! - [`sr04::Sr04`], a state machine driving the trigger/echo protocol of an
//!   HC-SR04 ultrasonic sensor and classifying the resulting distance.
//!
//! Around them sit plain value types for timestamps in the two clock domains
//! ([`instant`]), command encoding and reply parsing for a URM37 serial
//! ultrasonic sensor ([`ultrasound`]), and the wheel enumeration used by the
//! motion subsystem ([`motion`]).

pub mod instant;
pub mod lrtimer;
pub mod motion;
pub mod sr04;
pub mod ultrasound;
