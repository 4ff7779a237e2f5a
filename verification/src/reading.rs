//! The reading that the sensor produces, modelled on integers.
//!
//! Verified code holds no floating-point value. A single-precision number is
//! carried as its IEEE 754 bit pattern, and a point in time as whole seconds
//! and nanoseconds since the Unix epoch, which is the form it has on the wire.

use vstd::prelude::*;
use crate::error::SensorError;

verus! {

/// Nanoseconds in a second.
pub const NANOS_PER_SEC: u32 = 1_000_000_000;

/// The exponent field of a binary32 bit pattern.
pub const EXPONENT_MASK: u32 = 0x7F80_0000;

/// The bit pattern of the temperature that the synthetic sensor reports, 20.0.
pub const SYNTHETIC_TEMPERATURE: u32 = 0x41A0_0000;

/// The bit pattern of the humidity that the synthetic sensor reports, 45.0.
pub const SYNTHETIC_HUMIDITY: u32 = 0x4234_0000;

/// A single-precision number, held as its IEEE 754 binary32 bit pattern.
#[derive(Clone, Copy, Debug, PartialEq, Eq, Structural)]
pub struct Binary32 {
    pub bits: u32,
}

impl Binary32 {
    /// Neither an infinity nor a NaN: the exponent field is not all ones.
    /// Only such a number has a JSON form that reads back as a number.
    pub open spec fn finite(self) -> bool {
        self.bits & EXPONENT_MASK != EXPONENT_MASK
    }

    pub fn is_finite(&self) -> (b: bool)
        ensures
            b == self.finite(),
    {
        self.bits & EXPONENT_MASK != EXPONENT_MASK
    }
}

/// A temperature in degrees Celsius.
#[derive(Clone, Copy, Debug, PartialEq, Eq, Structural)]
pub struct Celsius(pub Binary32);

impl From<Binary32> for Celsius {
    fn from(value: Binary32) -> (c: Celsius) {
        Celsius(value)
    }
}

impl vstd::std_specs::convert::FromSpecImpl<Binary32> for Celsius {
    open spec fn obeys_from_spec() -> bool {
        true
    }

    open spec fn from_spec(v: Binary32) -> Celsius {
        Celsius(v)
    }
}

/// A point in time at or after the Unix epoch.
#[derive(Clone, Copy, Debug, PartialEq, Eq, Structural)]
pub struct Timestamp {
    pub secs_since_epoch: u64,
    pub nanos_since_epoch: u32,
}

impl Timestamp {
    /// The nanoseconds are those of a started second.
    pub open spec fn normal(self) -> bool {
        self.nanos_since_epoch < NANOS_PER_SEC
    }

    /// The point in time `nanos` nanoseconds after second `secs` of the epoch,
    /// unless `nanos` makes up a whole second or more.
    pub fn new(secs: u64, nanos: u32) -> (t: Option<Timestamp>)
        ensures
            t == if nanos < NANOS_PER_SEC {
                Some(Timestamp { secs_since_epoch: secs, nanos_since_epoch: nanos })
            } else {
                None
            },
    {
        if nanos < NANOS_PER_SEC {
            Some(Timestamp { secs_since_epoch: secs, nanos_since_epoch: nanos })
        } else {
            None
        }
    }
}

/// One reading of the sensor.
#[derive(Clone, Copy, Debug, PartialEq, Eq, Structural)]
pub struct SensorData {
    pub temperature: Celsius,
    pub humidity: Binary32,
    pub timestamp: Timestamp,
}

impl SensorData {
    /// A reading that the codec can carry: both numbers are finite and the
    /// timestamp is normal.
    pub open spec fn valid(self) -> bool {
        &&& self.temperature.0.finite()
        &&& self.humidity.finite()
        &&& self.timestamp.normal()
    }

    pub fn is_valid(&self) -> (b: bool)
        ensures
            b == self.valid(),
    {
        self.temperature.0.is_finite() && self.humidity.is_finite()
            && self.timestamp.nanos_since_epoch < NANOS_PER_SEC
    }
}

/// The reading that the synthetic sensor produces at `now`.
pub open spec fn synthetic_reading(now: Timestamp) -> SensorData {
    SensorData {
        temperature: Celsius(Binary32 { bits: SYNTHETIC_TEMPERATURE }),
        humidity: Binary32 { bits: SYNTHETIC_HUMIDITY },
        timestamp: now,
    }
}

/// Reads the sensor at `now`. The sensor is synthetic: it reports 20.0 degrees
/// and a humidity of 45.0 whenever it is asked, so the read never fails, and
/// what it reports is valid if `now` is normal.
pub fn read_sensor_data(now: Timestamp) -> (r: Result<SensorData, SensorError>)
    ensures
        r matches Ok(reading) && reading == synthetic_reading(now) && (now.normal()
            ==> reading.valid()),
{
    proof {
        if now.normal() {
            lemma_synthetic_reading_valid(now);
        }
    }
    Ok(
        SensorData {
            temperature: Celsius::from(Binary32 { bits: SYNTHETIC_TEMPERATURE }),
            humidity: Binary32 { bits: SYNTHETIC_HUMIDITY },
            timestamp: now,
        },
    )
}

/// What the synthetic sensor reports is valid whenever the time it was read
/// at is normal.
pub proof fn lemma_synthetic_reading_valid(now: Timestamp)
    requires
        now.normal(),
    ensures
        synthetic_reading(now).valid(),
{
    assert(0x41A0_0000u32 & 0x7F80_0000u32 != 0x7F80_0000u32) by (bit_vector);
    assert(0x4234_0000u32 & 0x7F80_0000u32 != 0x7F80_0000u32) by (bit_vector);
}

} // verus!
