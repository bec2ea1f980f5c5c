//! The tagged payload length of a frame: standard (one length byte, up to
//! 254 payload bytes) or extended (two length bytes, up to 2048).

use vstd::prelude::*;

verus! {

/// Payload length of a frame, tagged by header form.
///
/// A standard header carries the length in one byte with values 0 to 254;
/// the value 255 in that byte instead announces an extended header, whose
/// 16-bit big-endian length is capped at 2048.
#[derive(Debug, Copy, Clone, PartialEq, Eq, Structural, Hash)]
pub enum PayloadLength {
    Standard(u8),
    Extended(u16),
}

impl PayloadLength {
    /// Largest payload a standard header can declare.
    pub const MAX_STD: u8 = 0xFE;

    /// Largest payload an extended header can declare.
    pub const MAX_EXT: u16 = 0x0800;

    /// The variant's value lies within its form's bound.
    pub open spec fn wf(self) -> bool {
        match self {
            PayloadLength::Standard(len) => len <= 0xFE,
            PayloadLength::Extended(len) => len <= 0x0800,
        }
    }

    /// The number of payload bytes declared.
    pub open spec fn spec_get(self) -> int {
        match self {
            PayloadLength::Standard(len) => len as int,
            PayloadLength::Extended(len) => len as int,
        }
    }

    /// Size of the header that carries this length: 4 bytes for a standard
    /// header, 6 for an extended one.
    pub open spec fn spec_header_size(self) -> int {
        match self {
            PayloadLength::Standard(_) => 4,
            PayloadLength::Extended(_) => 6,
        }
    }

    pub fn new_standard(len: u8) -> (r: Option<Self>)
        ensures
            r == if len <= 0xFE {
                Some(PayloadLength::Standard(len))
            } else {
                None::<PayloadLength>
            },
    {
        if len > Self::MAX_STD {
            None
        } else {
            Some(PayloadLength::Standard(len))
        }
    }

    pub fn new_extended(len: u16) -> (r: Option<Self>)
        ensures
            r == if len <= 0x0800 {
                Some(PayloadLength::Extended(len))
            } else {
                None::<PayloadLength>
            },
    {
        if len > Self::MAX_EXT {
            None
        } else {
            Some(PayloadLength::Extended(len))
        }
    }

    /// Chooses the standard form for lengths up to 254, the extended form up
    /// to 2048, and rejects anything larger.
    pub fn new(len: usize) -> (r: Option<Self>)
        ensures
            r == if len <= 0xFE {
                Some(PayloadLength::Standard(len as u8))
            } else if len <= 0x0800 {
                Some(PayloadLength::Extended(len as u16))
            } else {
                None::<PayloadLength>
            },
    {
        if len > Self::MAX_EXT as usize {
            None
        } else if len > Self::MAX_STD as usize {
            Some(PayloadLength::Extended(len as u16))
        } else {
            Some(PayloadLength::Standard(len as u8))
        }
    }

    pub fn get(&self) -> (r: usize)
        ensures
            r as int == self.spec_get(),
    {
        match self {
            PayloadLength::Standard(len) => *len as usize,
            PayloadLength::Extended(len) => *len as usize,
        }
    }

    pub fn is_extended(&self) -> (r: bool)
        ensures
            r == (self is Extended),
    {
        match self {
            PayloadLength::Extended(_) => true,
            PayloadLength::Standard(_) => false,
        }
    }

    /// Size of the header that carries this length, excluding payload and
    /// checksum byte.
    pub fn header_size(&self) -> (r: usize)
        ensures
            r as int == self.spec_header_size(),
    {
        if self.is_extended() {
            6
        } else {
            4
        }
    }
}

} // verus!
