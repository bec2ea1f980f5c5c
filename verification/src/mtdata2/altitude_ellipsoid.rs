//! The GNSS/INS altitude above the reference ellipsoid.

use vstd::prelude::*;
use crate::precision::{read_fields1, PrecisionExt};
use crate::wire::WireError;

verus! {

/// Contains the altitude of the GNSS/INS in meters above the WGS-84
/// ellipsoid.
#[derive(Debug, Copy, Clone, PartialEq, Eq, Hash)]
pub struct AltitudeEllipsoid<T: PrecisionExt>(pub T);

impl<T: PrecisionExt> AltitudeEllipsoid<T> {
    /// Bytes this measurement occupies on the wire: one field.
    pub fn wire_size() -> (n: usize)
        ensures
            n as int == T::spec_size(),
    {
        T::wire_width()
    }

    /// Decode the single field from big-endian bytes; fails with
    /// `MissingBytes` exactly when the slice is shorter than the wire
    /// size.
    pub fn from_be_slice(bytes: &[u8]) -> (r: Result<Self, WireError>)
        ensures
            match r {
                Ok(v) => bytes@.len() >= T::spec_size() && v.0 == T::spec_value(
                    bytes@.subrange(0, T::spec_size()),
                ),
                Err(e) => bytes@.len() < T::spec_size() && e == WireError::MissingBytes,
            },
    {
        match read_fields1::<T>(bytes) {
            Ok(v) => Ok(AltitudeEllipsoid(v)),
            Err(e) => Err(e),
        }
    }
}

} // verus!
