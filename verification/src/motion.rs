//! Wheel bookkeeping for the board's motion subsystem.
//!
//! Motor and servo control itself talks to PWM generators, quadrature
//! encoders and digital output pins, and lives with the hardware glue outside
//! this library. The enumeration of wheels, and the index each wheel takes in
//! pin and channel arrays, is plain data and is kept here.

use vstd::prelude::*;

verus! {

/// Enumeration across all the wheels of the chassis.
#[derive(Debug, Clone, Copy, PartialEq, Eq, Structural)]
pub enum Wheel {
    /// The left wheel.
    LEFT,
    /// The right wheel.
    RIGHT,
}

impl Wheel {
    /// Obtain the index of the wheel.
    ///
    /// Index 0 corresponds to resources on the left side of the robot.
    pub fn index(self) -> (r: usize)
        ensures
            r == self.spec_index(),
            r < 2,
    {
        match self {
            Wheel::LEFT => 0,
            Wheel::RIGHT => 1,
        }
    }

    /// The index of the wheel: 0 for the left one, 1 for the right one.
    pub open spec fn spec_index(self) -> usize {
        match self {
            Wheel::LEFT => 0,
            Wheel::RIGHT => 1,
        }
    }
}

} // verus!
