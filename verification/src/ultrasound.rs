//! Command encoding and reply parsing for the DFRobot URM37 ultrasonic
//! distance sensor.
//!
//! The sensor talks in 4-byte frames. The last byte of every frame is a
//! checksum: the sum of the first three bytes, truncated to 8 bits.

use vstd::prelude::*;

verus! {

/// Communication between the sensor and the microcontroller takes place in
/// units of 4 byte `Frame`s.
pub type Frame = [u8; 4];

/// Length of all command and reply byte sequences, in bytes.
pub const COMMAND_LENGTH: usize = 4;

/// Sensor operation modes.
#[derive(Debug, Clone, Copy, PartialEq, Eq, Structural)]
pub enum Mode {
    /// Oneshot operation mode. A reading must be triggered from either the
    /// control pin or the serial interface.
    Oneshot,
    /// Continuous operation mode. Readings are taken by the sensor
    /// automatically.
    Continuous,
}

/// Mode parse error.
#[derive(Debug, Clone, Copy, PartialEq, Eq, Structural)]
pub enum ModeError {
    /// Sensor is operating in an unknown mode.
    Unknown,
    /// Checksum error.
    Checksum,
}

/// Distance parse error.
#[derive(Debug, Clone, Copy, PartialEq, Eq, Structural)]
pub enum DistanceError {
    /// Sensor couldn't determine distance.
    Indeterminate,
    /// Checksum error.
    Checksum,
}

/// Sum of a sequence of bytes, as an unbounded integer.
pub open spec fn spec_sum(s: Seq<u8>) -> int
    decreases s.len(),
{
    if s.len() == 0 {
        0
    } else {
        spec_sum(s.drop_last()) + s.last()
    }
}

/// Whether a frame's trailing byte is the 8-bit truncated sum of its first
/// three bytes.
pub open spec fn spec_checksum_ok(s: Seq<u8>) -> bool {
    spec_sum(s.take(3)) % 256 == s[3]
}

/// The 16-bit distance carried by a reply frame: byte 2 is the low byte,
/// byte 1 the high byte.
pub open spec fn spec_distance(s: Seq<u8>) -> int {
    s[2] + s[1] * 256
}

/// Command used to retrieve the mode of the sensor.
pub const RETRIEVE_MODE_COMMAND: Frame = [0x33, 0x02, 0xff, 0x34];

/// Command used to change the mode of the sensor to the passive (triggered)
/// mode.
pub const CHANGE_ONESHOT_MODE_COMMAND: Frame = [0x44, 0x02, 0xbb, 0x01];

/// Command used to request a distance measurement from the sensor.
pub const DISTANCE_MEASUREMENT_START_COMMAND: Frame = [0x22, 0x0f, 0xf0, 0x21];

/// Calculate the checksum of a sequence of bytes using the algorithm as
/// mentioned in the sensor's datasheet.
///
/// Simply a sum across all the bytes, truncated to 8 bits.
pub fn checksum(data: &[u8]) -> (r: u8)
    ensures
        r == spec_sum(data@) % 256,
{
    let mut sum: u8 = 0;
    let mut i: usize = 0;
    while i < data.len()
        invariant
            i <= data@.len(),
            sum == spec_sum(data@.take(i as int)) % 256,
        decreases data@.len() - i,
    {
        proof {
            assert(data@.take(i + 1).drop_last() =~= data@.take(i as int));
            assert(data@.take(i + 1).last() == data@[i as int]);
        }
        sum = sum.wrapping_add(data[i]);
        i = i + 1;
    }
    proof {
        assert(data@.take(data@.len() as int) =~= data@);
    }
    sum
}

/// Validate the checksum of a sequence of data bytes against the
/// precalculated value in the frame's last byte.
///
/// Uses the algorithm as mentioned in the sensor's datasheet.
pub fn validate_checksum(frame: Frame) -> (r: bool)
    ensures
        r == spec_checksum_ok(frame@),
{
    let sum: u8 = frame[0].wrapping_add(frame[1]).wrapping_add(frame[2]);
    proof {
        let s = frame@.take(3);
        assert(frame@.take(1).drop_last() =~= frame@.take(0));
        assert(frame@.take(2).drop_last() =~= frame@.take(1));
        assert(s.drop_last() =~= frame@.take(2));
        assert(spec_sum(frame@.take(0)) == 0);
        assert(spec_sum(frame@.take(1)) == frame@[0]);
        assert(spec_sum(frame@.take(2)) == frame@[0] + frame@[1]);
        assert(spec_sum(s) == frame@[0] + frame@[1] + frame@[2]);
    }
    sum == frame[3]
}

/// Parse a mode reply.
pub fn parse_mode(reply: Frame) -> (r: Result<Mode, ModeError>)
    ensures
        !spec_checksum_ok(reply@) <==> r == Err::<Mode, ModeError>(ModeError::Checksum),
        spec_checksum_ok(reply@) && reply@[1] == 0xaa ==> r == Ok::<Mode, ModeError>(
            Mode::Continuous,
        ),
        spec_checksum_ok(reply@) && reply@[1] == 0xbb ==> r == Ok::<Mode, ModeError>(Mode::Oneshot),
        spec_checksum_ok(reply@) && reply@[1] != 0xaa && reply@[1] != 0xbb ==> r == Err::<
            Mode,
            ModeError,
        >(ModeError::Unknown),
{
    if !validate_checksum(reply) {
        return Err(ModeError::Checksum);
    }
    match reply[1] {
        0xaa => Ok(Mode::Continuous),
        0xbb => Ok(Mode::Oneshot),
        _ => Err(ModeError::Unknown),
    }
}

/// Parse a distance reply.
///
/// If valid, returns the distance in centimeters.
pub fn parse_distance(reply: Frame) -> (r: Result<u16, DistanceError>)
    ensures
        !spec_checksum_ok(reply@) <==> r == Err::<u16, DistanceError>(DistanceError::Checksum),
        spec_checksum_ok(reply@) && spec_distance(reply@) == 0xffff ==> r == Err::<
            u16,
            DistanceError,
        >(DistanceError::Indeterminate),
        spec_checksum_ok(reply@) && spec_distance(reply@) != 0xffff ==> r == Ok::<
            u16,
            DistanceError,
        >(spec_distance(reply@) as u16),
{
    if !validate_checksum(reply) {
        return Err(DistanceError::Checksum);
    }

    // Byte 2 is the low distance byte and byte 1 the high one.
    let distance: u16 = reply[2] as u16 + reply[1] as u16 * 256;

    if distance == 0xffff {
        Err(DistanceError::Indeterminate)
    } else {
        Ok(distance)
    }
}

} // verus!
