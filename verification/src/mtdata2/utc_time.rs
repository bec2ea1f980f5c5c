//! The timestamp expressed as UTC time.

use vstd::prelude::*;
use crate::wire::{be_u16, be_u32, read_u16_be, read_u32_be, WireError};

verus! {

/// Validity flags of a UTC timestamp: bit 0 is "time of week valid",
/// bit 1 "week number valid", bit 2 "UTC valid".
///
/// The UTC flag takes about 12.5 minutes to become valid after start,
/// while the receiver corrects for its clock bias; synchronize on UTC
/// only once that flag is valid.
#[derive(Debug, Copy, Clone, PartialEq, Eq, Structural, Hash)]
pub struct UtcTimeStatusFlags(pub u8);

impl UtcTimeStatusFlags {
    /// Bit `i` of the flags byte is set.
    pub open spec fn spec_bit(self, i: u8) -> bool
        recommends
            i < 8,
    {
        self.0 >> i & 1 == 1
    }

    /// The time of week is valid.
    pub fn time_of_week_valid(&self) -> (r: bool)
        ensures
            r == self.spec_bit(0),
    {
        self.0 >> 0u8 & 1 == 1
    }

    /// The week number is valid.
    pub fn week_number_valid(&self) -> (r: bool)
        ensures
            r == self.spec_bit(1),
    {
        self.0 >> 1u8 & 1 == 1
    }

    /// The UTC time is valid.
    pub fn utc_valid(&self) -> (r: bool)
        ensures
            r == self.spec_bit(2),
    {
        self.0 >> 2u8 & 1 == 1
    }
}

/// The timestamp expressed as UTC time: nanoseconds, date, time of day
/// and validity flags.
#[derive(Debug, Copy, Clone, PartialEq, Eq, Structural, Hash)]
pub struct UtcTime {
    pub year: u16,
    pub month: u8,
    pub day: u8,
    pub hour: u8,
    pub minute: u8,
    pub second: u8,
    pub ns: u32,
    pub flags: UtcTimeStatusFlags,
}

impl UtcTime {
    /// Bytes this measurement occupies on the wire: nanoseconds (4),
    /// year (2), month, day, hour, minute, second and flags (1 each).
    pub const WIRE_SIZE: usize = 12;

    /// Decode all fields from big-endian bytes, in wire order; fails
    /// with `MissingBytes` exactly when the slice is shorter than the
    /// wire size.
    pub fn from_be_slice(bytes: &[u8]) -> (r: Result<Self, WireError>)
        ensures
            match r {
                Ok(v) => {
                    &&& bytes@.len() >= 12
                    &&& v.ns as int == be_u32(bytes@.subrange(0, 4))
                    &&& v.year as int == be_u16(bytes@.subrange(4, 6))
                    &&& v.month == bytes@[6]
                    &&& v.day == bytes@[7]
                    &&& v.hour == bytes@[8]
                    &&& v.minute == bytes@[9]
                    &&& v.second == bytes@[10]
                    &&& v.flags.0 == bytes@[11]
                },
                Err(e) => bytes@.len() < 12 && e == WireError::MissingBytes,
            },
    {
        if bytes.len() < Self::WIRE_SIZE {
            Err(WireError::MissingBytes)
        } else {
            let ns = read_u32_be(bytes, 0);
            let year = read_u16_be(bytes, 4);
            let month = bytes[6];
            let day = bytes[7];
            let hour = bytes[8];
            let minute = bytes[9];
            let second = bytes[10];
            let flags = bytes[11];
            Ok(
                UtcTime {
                    year,
                    month,
                    day,
                    hour,
                    minute,
                    second,
                    ns,
                    flags: UtcTimeStatusFlags(flags),
                },
            )
        }
    }
}

} // verus!
