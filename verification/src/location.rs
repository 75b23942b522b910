//! Positions on the map.
//!
//! Coordinates, heading and speed are IEEE 754 single-precision numbers. The
//! bridge never computes with them, so each is kept as its 32-bit pattern and
//! handed on bit for bit.

use vstd::prelude::*;

verus! {

/// A position as a device reports it to the bridge.
#[derive(Clone, Copy, Debug, PartialEq, Eq)]
pub struct DetailedLocation {
    /// Bit pattern of the latitude in degrees.
    pub latitude: u32,
    /// Bit pattern of the longitude in degrees.
    pub longitude: u32,
    /// Accuracy in metres.
    pub accuracy: u16,
    /// Bit pattern of the heading in degrees, 0 being north.
    pub heading: u32,
    /// Bit pattern of the speed in metres per second.
    pub speed: u32,
    pub timestamp: i64,
}

/// A position reduced to where and when.
#[derive(Clone, Copy, Debug, PartialEq, Eq)]
pub struct MinimalLocation {
    /// Bit pattern of the latitude in degrees.
    pub latitude: u32,
    /// Bit pattern of the longitude in degrees.
    pub longitude: u32,
    pub timestamp: i64,
}

impl MinimalLocation {
    /// The place that stands in where an event comes without one: latitude
    /// and longitude zero, at time zero.
    pub open spec fn spec_origin() -> MinimalLocation {
        MinimalLocation { latitude: 0, longitude: 0, timestamp: 0 }
    }

    #[verifier::when_used_as_spec(spec_origin)]
    pub fn origin() -> (place: MinimalLocation)
        ensures
            place == Self::spec_origin(),
    {
        MinimalLocation { latitude: 0, longitude: 0, timestamp: 0 }
    }
}

} // verus!
