//! The GNSS/INS velocity vector.

use vstd::prelude::*;
use crate::precision::{read_fields3, PrecisionExt};
use crate::wire::WireError;

verus! {

/// Contains the X, Y and Z components of the GNSS/INS velocity in m/s.
#[derive(Debug, Copy, Clone, PartialEq, Eq, Hash)]
pub struct VelocityXYZ<T: PrecisionExt> {
    pub x: T,
    pub y: T,
    pub z: T,
}

impl<T: PrecisionExt> VelocityXYZ<T> {
    /// Bytes this measurement occupies on the wire: three fields.
    pub fn wire_size() -> (n: usize)
        ensures
            n as int == 3 * T::spec_size(),
    {
        proof {
            T::lemma_size_bounds();
        }
        3 * T::wire_width()
    }

    /// Decode the three fields from big-endian bytes, in order; fails
    /// with `MissingBytes` exactly when the slice is shorter than the
    /// wire size.
    pub fn from_be_slice(bytes: &[u8]) -> (r: Result<Self, WireError>)
        ensures
            match r {
                Ok(v) => {
                    let w = T::spec_size();
                    &&& bytes@.len() >= 3 * w
                    &&& v.x == T::spec_value(bytes@.subrange(0, w))
                    &&& v.y == T::spec_value(bytes@.subrange(w, 2 * w))
                    &&& v.z == T::spec_value(bytes@.subrange(2 * w, 3 * w))
                },
                Err(e) => bytes@.len() < 3 * T::spec_size() && e == WireError::MissingBytes,
            },
    {
        match read_fields3::<T>(bytes) {
            Ok((f0, f1, f2)) => Ok(VelocityXYZ { x: f0, y: f1, z: f2 }),
            Err(e) => Err(e),
        }
    }
}

} // verus!
