//! The GNSS/INS position in the Earth-Centered, Earth-Fixed frame.

use vstd::prelude::*;
use crate::precision::{read_fields3, Float32Bits, Float64Bits, PrecisionExt};
use crate::wire::WireError;

verus! {

/// Contains the position of the GNSS/INS in the Earth-Centered,
/// Earth-Fixed (ECEF) coordinate system in meters.
///
/// A position in ECEF cannot be represented in the fixed-point forms
/// because of their limited range, so only the floating-point precisions
/// decode this measurement.
#[derive(Debug, Copy, Clone, PartialEq, Eq, Hash)]
pub struct PositionEcef<T: PrecisionExt> {
    pub x: T,
    pub y: T,
    pub z: T,
}

impl PositionEcef<Float32Bits> {
    /// Bytes this measurement occupies on the wire: three 4-byte fields.
    pub fn wire_size() -> (n: usize)
        ensures
            n == 12,
    {
        12
    }

    /// Decode the three fields from big-endian bytes; fails with
    /// `MissingBytes` exactly when the slice is shorter than the wire
    /// size.
    pub fn from_be_slice(bytes: &[u8]) -> (r: Result<Self, WireError>)
        ensures
            match r {
                Ok(v) => {
                    &&& bytes@.len() >= 12
                    &&& v.x == Float32Bits::spec_value(bytes@.subrange(0, 4))
                    &&& v.y == Float32Bits::spec_value(bytes@.subrange(4, 8))
                    &&& v.z == Float32Bits::spec_value(bytes@.subrange(8, 12))
                },
                Err(e) => bytes@.len() < 12 && e == WireError::MissingBytes,
            },
    {
        match read_fields3::<Float32Bits>(bytes) {
            Ok((x, y, z)) => Ok(PositionEcef { x, y, z }),
            Err(e) => Err(e),
        }
    }
}

impl PositionEcef<Float64Bits> {
    /// Bytes this measurement occupies on the wire: three 8-byte fields.
    pub fn wire_size() -> (n: usize)
        ensures
            n == 24,
    {
        24
    }

    /// Decode the three fields from big-endian bytes; fails with
    /// `MissingBytes` exactly when the slice is shorter than the wire
    /// size.
    pub fn from_be_slice(bytes: &[u8]) -> (r: Result<Self, WireError>)
        ensures
            match r {
                Ok(v) => {
                    &&& bytes@.len() >= 24
                    &&& v.x == Float64Bits::spec_value(bytes@.subrange(0, 8))
                    &&& v.y == Float64Bits::spec_value(bytes@.subrange(8, 16))
                    &&& v.z == Float64Bits::spec_value(bytes@.subrange(16, 24))
                },
                Err(e) => bytes@.len() < 24 && e == WireError::MissingBytes,
            },
    {
        match read_fields3::<Float64Bits>(bytes) {
            Ok((x, y, z)) => Ok(PositionEcef { x, y, z }),
            Err(e) => Err(e),
        }
    }
}

} // verus!
