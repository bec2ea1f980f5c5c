//! The GNSS/INS position as latitude and longitude.

use vstd::prelude::*;
use crate::precision::{read_fields2, PrecisionExt};
use crate::wire::WireError;

verus! {

/// Contains the latitude and longitude in degrees of the GNSS/INS
/// position.
#[derive(Debug, Copy, Clone, PartialEq, Eq, Hash)]
pub struct LatLon<T: PrecisionExt> {
    pub lat: T,
    pub lon: T,
}

impl<T: PrecisionExt> LatLon<T> {
    /// Bytes this measurement occupies on the wire: two fields.
    pub fn wire_size() -> (n: usize)
        ensures
            n as int == 2 * T::spec_size(),
    {
        proof {
            T::lemma_size_bounds();
        }
        2 * T::wire_width()
    }

    /// Decode latitude then longitude from big-endian bytes; fails with
    /// `MissingBytes` exactly when the slice is shorter than the wire
    /// size.
    pub fn from_be_slice(bytes: &[u8]) -> (r: Result<Self, WireError>)
        ensures
            match r {
                Ok(v) => {
                    let w = T::spec_size();
                    &&& bytes@.len() >= 2 * w
                    &&& v.lat == T::spec_value(bytes@.subrange(0, w))
                    &&& v.lon == T::spec_value(bytes@.subrange(w, 2 * w))
                },
                Err(e) => bytes@.len() < 2 * T::spec_size() && e == WireError::MissingBytes,
            },
    {
        match read_fields2::<T>(bytes) {
            Ok((lat, lon)) => Ok(LatLon { lat, lon }),
            Err(e) => Err(e),
        }
    }
}

} // verus!
