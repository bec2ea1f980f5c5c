//! The orientation as Euler angles.

use vstd::prelude::*;
use crate::precision::{read_fields3, PrecisionExt};
use crate::wire::WireError;

verus! {

/// Contains the three Euler angles in degrees that represent the
/// orientation of the device.
#[derive(Debug, Copy, Clone, PartialEq, Eq, Hash)]
pub struct EulerAngles<T: PrecisionExt> {
    pub roll: T,
    pub pitch: T,
    pub yaw: T,
}

impl<T: PrecisionExt> EulerAngles<T> {
    /// Bytes this measurement occupies on the wire: three fields.
    pub fn wire_size() -> (n: usize)
        ensures
            n as int == 3 * T::spec_size(),
    {
        proof {
            T::lemma_size_bounds();
        }
        3 * T::wire_width()
    }

    /// Decode the three fields from big-endian bytes, in order; fails
    /// with `MissingBytes` exactly when the slice is shorter than the
    /// wire size.
    pub fn from_be_slice(bytes: &[u8]) -> (r: Result<Self, WireError>)
        ensures
            match r {
                Ok(v) => {
                    let w = T::spec_size();
                    &&& bytes@.len() >= 3 * w
                    &&& v.roll == T::spec_value(bytes@.subrange(0, w))
                    &&& v.pitch == T::spec_value(bytes@.subrange(w, 2 * w))
                    &&& v.yaw == T::spec_value(bytes@.subrange(2 * w, 3 * w))
                },
                Err(e) => bytes@.len() < 3 * T::spec_size() && e == WireError::MissingBytes,
            },
    {
        match read_fields3::<T>(bytes) {
            Ok((f0, f1, f2)) => Ok(EulerAngles { roll: f0, pitch: f1, yaw: f2 }),
            Err(e) => Err(e),
        }
    }
}

} // verus!
