//! The per-message packet counter.

use vstd::prelude::*;
use crate::wire::{read_u16_be, be_u16, WireError};

verus! {

/// This counter is incremented with every generated MTData2 message.
#[derive(Debug, Copy, Clone, PartialEq, Eq, Structural, Hash)]
pub struct PacketCounter(pub u16);

impl PacketCounter {
    /// Bytes this measurement occupies on the wire.
    pub const WIRE_SIZE: usize = 2;

    /// Decode from big-endian bytes; fails with `MissingBytes` exactly
    /// when the slice is shorter than the wire size.
    pub fn from_be_slice(bytes: &[u8]) -> (r: Result<Self, WireError>)
        ensures
            match r {
                Ok(v) => bytes@.len() >= 2 && v.0 as int == be_u16(
                    bytes@.subrange(0, 2),
                ),
                Err(e) => bytes@.len() < 2 && e == WireError::MissingBytes,
            },
    {
        if bytes.len() < Self::WIRE_SIZE {
            Err(WireError::MissingBytes)
        } else {
            Ok(PacketCounter(read_u16_be(bytes, 0)))
        }
    }
}

} // verus!
