//! The 8-bit bus identifier carried by every frame.

use vstd::prelude::*;

verus! {

/// Opaque 8-bit bus identifier.
#[derive(Debug, Copy, Clone, PartialEq, Eq, Structural, Hash)]
pub struct BusId(pub u8);

impl BusId {
    /// Byte value indicating "first device" (the device referring to
    /// itself).
    pub const SELF_DEVICE: u8 = 0x01;

    /// Byte value indicating the master.
    pub const MASTER: u8 = 0xFF;

    pub fn new(id: u8) -> (r: Self)
        ensures
            r.0 == id,
    {
        BusId(id)
    }
}

} // verus!
