//! The fine sample time of an output.

use vstd::prelude::*;
use crate::wire::{read_u32_be, be_u32, WireError};

verus! {

/// Contains the sample time of an output expressed in 10 kHz clock
/// ticks. When there is no GNSS fix, this value is arbitrary for GNSS
/// messages.
#[derive(Debug, Copy, Clone, PartialEq, Eq, Structural, Hash)]
pub struct SampleTimeFine(pub u32);

impl SampleTimeFine {
    /// Bytes this measurement occupies on the wire.
    pub const WIRE_SIZE: usize = 4;

    /// Decode from big-endian bytes; fails with `MissingBytes` exactly
    /// when the slice is shorter than the wire size.
    pub fn from_be_slice(bytes: &[u8]) -> (r: Result<Self, WireError>)
        ensures
            match r {
                Ok(v) => bytes@.len() >= 4 && v.0 as int == be_u32(
                    bytes@.subrange(0, 4),
                ),
                Err(e) => bytes@.len() < 4 && e == WireError::MissingBytes,
            },
    {
        if bytes.len() < Self::WIRE_SIZE {
            Err(WireError::MissingBytes)
        } else {
            Ok(SampleTimeFine(read_u32_be(bytes, 0)))
        }
    }
}

} // verus!
