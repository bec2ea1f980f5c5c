//! The 32-bit device status word.

use vstd::prelude::*;
use crate::wire::{be_u32, read_u32_be, WireError};

verus! {

/// Contains the 32-bit status word. Bits 0, 1 and 2 carry the self-test,
/// filter-valid and GNSS-fix flags; the higher bits are reserved.
#[derive(Debug, Copy, Clone, PartialEq, Eq, Structural, Hash)]
pub struct StatusWord(pub u32);

impl StatusWord {
    /// Bytes this measurement occupies on the wire.
    pub const WIRE_SIZE: usize = 4;

    /// Bit `i` of the status word is set.
    pub open spec fn spec_bit(self, i: u32) -> bool
        recommends
            i < 32,
    {
        self.0 >> i & 1 == 1
    }

    /// The device passed the self-test. Inactive on some device series.
    pub fn self_test(&self) -> (r: bool)
        ensures
            r == self.spec_bit(0),
    {
        self.0 >> 0u32 & 1 == 1
    }

    /// The input into the orientation filter is reliable and complete.
    pub fn filter_valid(&self) -> (r: bool)
        ensures
            r == self.spec_bit(1),
    {
        self.0 >> 1u32 & 1 == 1
    }

    /// The GNSS unit has a proper fix; only available on GNSS/INS units.
    pub fn gnss_fix(&self) -> (r: bool)
        ensures
            r == self.spec_bit(2),
    {
        self.0 >> 2u32 & 1 == 1
    }

    /// Decode from big-endian bytes; fails with `MissingBytes` exactly
    /// when the slice is shorter than the wire size.
    pub fn from_be_slice(bytes: &[u8]) -> (r: Result<Self, WireError>)
        ensures
            match r {
                Ok(v) => bytes@.len() >= 4 && v.0 as int == be_u32(bytes@.subrange(0, 4)),
                Err(e) => bytes@.len() < 4 && e == WireError::MissingBytes,
            },
    {
        if bytes.len() < Self::WIRE_SIZE {
            Err(WireError::MissingBytes)
        } else {
            Ok(StatusWord(read_u32_be(bytes, 0)))
        }
    }
}

} // verus!
