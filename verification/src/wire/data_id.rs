//! The MTData2 data identifier: a 16-bit word multiplexing data type,
//! numeric precision and coordinate system.
//!
//! Bits 0–1 carry the precision, bits 2–3 the coordinate system, and the
//! bits under the mask `0b1111_1000_1111_0000` the data type's group and
//! type. Bits 8–10 are reserved. Unknown values in any field are preserved
//! so that higher layers can observe and report them.

use vstd::prelude::*;
use crate::wire::{be_u16, read_u16_be, write_u16_be, WireError};

verus! {

/// Numeric precision of a measurement's fields.
#[derive(Debug, Copy, Clone, PartialEq, Eq, Structural, Hash)]
pub enum Precision {
    /// Single precision IEEE 32-bit floating point number.
    Float32,
    /// Fixed point 12.20 32-bit number.
    Fp1220,
    /// Fixed point 16.32 number, stored as 8 bytes on the wire.
    Fp1632,
    /// Double precision IEEE 64-bit floating point number.
    Float64,
    /// A precision code outside the known set, preserved as read.
    Unknown(u8),
}

impl Precision {
    /// The wire code of this precision.
    pub open spec fn spec_raw(self) -> u8 {
        match self {
            Precision::Float32 => 0x0,
            Precision::Fp1220 => 0x1,
            Precision::Fp1632 => 0x2,
            Precision::Float64 => 0x3,
            Precision::Unknown(other) => other,
        }
    }

    /// The precision a wire code denotes.
    pub open spec fn spec_from_raw(value: u8) -> Precision {
        if value == 0x0 {
            Precision::Float32
        } else if value == 0x1 {
            Precision::Fp1220
        } else if value == 0x2 {
            Precision::Fp1632
        } else if value == 0x3 {
            Precision::Float64
        } else {
            Precision::Unknown(value)
        }
    }

    pub fn into_inner(self) -> (r: u8)
        ensures
            r == self.spec_raw(),
    {
        match self {
            Precision::Float32 => 0x0,
            Precision::Fp1220 => 0x1,
            Precision::Fp1632 => 0x2,
            Precision::Float64 => 0x3,
            Precision::Unknown(other) => other,
        }
    }

    pub fn from_raw(value: u8) -> (r: Precision)
        ensures
            r == Precision::spec_from_raw(value),
    {
        match value {
            0x0 => Precision::Float32,
            0x1 => Precision::Fp1220,
            0x2 => Precision::Fp1632,
            0x3 => Precision::Float64,
            other => Precision::Unknown(other),
        }
    }
}

impl Default for Precision {
    /// The default precision is Float32.
    fn default() -> (r: Self)
        ensures
            r == Precision::Float32,
    {
        Precision::Float32
    }
}

/// Axis convention of a measurement.
#[derive(Debug, Copy, Clone, PartialEq, Eq, Structural, Hash)]
pub enum CoordinateSystem {
    /// East-North-Up.
    Enu,
    /// North-East-Down.
    Ned,
    /// North-West-Up.
    Nwu,
    /// A coordinate-system code outside the known set, preserved as read.
    Unknown(u8),
}

impl CoordinateSystem {
    /// The wire code of this coordinate system, within bits 2–3.
    pub open spec fn spec_raw(self) -> u8 {
        match self {
            CoordinateSystem::Enu => 0x0,
            CoordinateSystem::Ned => 0x4,
            CoordinateSystem::Nwu => 0x8,
            CoordinateSystem::Unknown(other) => other,
        }
    }

    /// The coordinate system a wire code denotes.
    pub open spec fn spec_from_raw(value: u8) -> CoordinateSystem {
        if value == 0x0 {
            CoordinateSystem::Enu
        } else if value == 0x4 {
            CoordinateSystem::Ned
        } else if value == 0x8 {
            CoordinateSystem::Nwu
        } else {
            CoordinateSystem::Unknown(value)
        }
    }

    pub fn into_inner(self) -> (r: u8)
        ensures
            r == self.spec_raw(),
    {
        match self {
            CoordinateSystem::Enu => 0x0,
            CoordinateSystem::Ned => 0x4,
            CoordinateSystem::Nwu => 0x8,
            CoordinateSystem::Unknown(other) => other,
        }
    }

    pub fn from_raw(value: u8) -> (r: CoordinateSystem)
        ensures
            r == CoordinateSystem::spec_from_raw(value),
    {
        match value {
            0x0 => CoordinateSystem::Enu,
            0x4 => CoordinateSystem::Ned,
            0x8 => CoordinateSystem::Nwu,
            other => CoordinateSystem::Unknown(other),
        }
    }
}

impl Default for CoordinateSystem {
    /// The default coordinate system is East-North-Up.
    fn default() -> (r: Self)
        ensures
            r == CoordinateSystem::Enu,
    {
        CoordinateSystem::Enu
    }
}

/// Group and type of an MTData2 measurement, carried in the bits of the
/// data identifier under the mask `0b1111_1000_1111_0000`.
#[derive(Debug, Copy, Clone, PartialEq, Eq, Structural, Hash)]
pub enum DataType {
    Temperature,
    UtcTime,
    PacketCounter,
    SampleTimeFine,
    SampleTimeCoarse,
    Quaternion,
    EulerAngles,
    Acceleration,
    AltitudeEllipsoid,
    PositionEcef,
    LatLon,
    RateOfTurn,
    VelocityXYZ,
    StatusByte,
    StatusWord,
    /// A group/type code outside the known set, preserved as read.
    Unknown(u16),
}

impl DataType {
    /// Mask selecting the group and type bits of a data identifier: it
    /// shaves off the format bits 0–3 and the reserved bits 8–10.
    pub const MASK: u16 = 0xF8F0;

    /// The wire code of this data type.
    pub open spec fn spec_raw(self) -> u16 {
        match self {
            DataType::Temperature => 0x0810,
            DataType::UtcTime => 0x1010,
            DataType::PacketCounter => 0x1020,
            DataType::SampleTimeFine => 0x1060,
            DataType::SampleTimeCoarse => 0x1070,
            DataType::Quaternion => 0x2010,
            DataType::EulerAngles => 0x2030,
            DataType::Acceleration => 0x4020,
            DataType::AltitudeEllipsoid => 0x5020,
            DataType::PositionEcef => 0x5030,
            DataType::LatLon => 0x5040,
            DataType::RateOfTurn => 0x8020,
            DataType::VelocityXYZ => 0xD010,
            DataType::StatusByte => 0xE010,
            DataType::StatusWord => 0xE020,
            DataType::Unknown(other) => other,
        }
    }

    /// The data type a wire code denotes.
    pub open spec fn spec_from_raw(value: u16) -> DataType {
        if value == 0x0810 {
            DataType::Temperature
        } else if value == 0x1010 {
            DataType::UtcTime
        } else if value == 0x1020 {
            DataType::PacketCounter
        } else if value == 0x1060 {
            DataType::SampleTimeFine
        } else if value == 0x1070 {
            DataType::SampleTimeCoarse
        } else if value == 0x2010 {
            DataType::Quaternion
        } else if value == 0x2030 {
            DataType::EulerAngles
        } else if value == 0x4020 {
            DataType::Acceleration
        } else if value == 0x5020 {
            DataType::AltitudeEllipsoid
        } else if value == 0x5030 {
            DataType::PositionEcef
        } else if value == 0x5040 {
            DataType::LatLon
        } else if value == 0x8020 {
            DataType::RateOfTurn
        } else if value == 0xD010 {
            DataType::VelocityXYZ
        } else if value == 0xE010 {
            DataType::StatusByte
        } else if value == 0xE020 {
            DataType::StatusWord
        } else {
            DataType::Unknown(value)
        }
    }

    pub fn into_inner(self) -> (r: u16)
        ensures
            r == self.spec_raw(),
    {
        match self {
            DataType::Temperature => 0x0810,
            DataType::UtcTime => 0x1010,
            DataType::PacketCounter => 0x1020,
            DataType::SampleTimeFine => 0x1060,
            DataType::SampleTimeCoarse => 0x1070,
            DataType::Quaternion => 0x2010,
            DataType::EulerAngles => 0x2030,
            DataType::Acceleration => 0x4020,
            DataType::AltitudeEllipsoid => 0x5020,
            DataType::PositionEcef => 0x5030,
            DataType::LatLon => 0x5040,
            DataType::RateOfTurn => 0x8020,
            DataType::VelocityXYZ => 0xD010,
            DataType::StatusByte => 0xE010,
            DataType::StatusWord => 0xE020,
            DataType::Unknown(other) => other,
        }
    }

    pub fn from_raw(value: u16) -> (r: DataType)
        ensures
            r == DataType::spec_from_raw(value),
    {
        match value {
            0x0810 => DataType::Temperature,
            0x1010 => DataType::UtcTime,
            0x1020 => DataType::PacketCounter,
            0x1060 => DataType::SampleTimeFine,
            0x1070 => DataType::SampleTimeCoarse,
            0x2010 => DataType::Quaternion,
            0x2030 => DataType::EulerAngles,
            0x4020 => DataType::Acceleration,
            0x5020 => DataType::AltitudeEllipsoid,
            0x5030 => DataType::PositionEcef,
            0x5040 => DataType::LatLon,
            0x8020 => DataType::RateOfTurn,
            0xD010 => DataType::VelocityXYZ,
            0xE010 => DataType::StatusByte,
            0xE020 => DataType::StatusWord,
            other => DataType::Unknown(other),
        }
    }
}

/// The decomposed 16-bit data identifier at the head of every MTData2
/// packet.
#[derive(Debug, Copy, Clone, PartialEq, Eq, Structural, Hash)]
pub struct DataId {
    pub data_type: DataType,
    pub precision: Precision,
    pub coordinate_system: CoordinateSystem,
}

impl DataId {
    /// The 16-bit word encoding `d`: group/type bits under the mask,
    /// coordinate system in bits 2–3, precision in bits 0–1.
    pub open spec fn spec_to_wire(d: DataId) -> u16 {
        (0xF8F0 & d.data_type.spec_raw()) | (0b1100 & (d.coordinate_system.spec_raw() as u16)) | (
        0b11 & (d.precision.spec_raw() as u16))
    }

    /// The decomposition of a 16-bit word into its three fields; codes
    /// outside the known sets are preserved in `Unknown` variants.
    pub open spec fn spec_from_wire(value: u16) -> DataId {
        DataId {
            data_type: DataType::spec_from_raw(0xF8F0 & value),
            precision: Precision::spec_from_raw((0b11 & value) as u8),
            coordinate_system: CoordinateSystem::spec_from_raw((0b1100 & value) as u8),
        }
    }

    pub fn new(
        data_type: DataType,
        precision: Precision,
        coordinate_system: CoordinateSystem,
    ) -> (r: Self)
        ensures
            r == (DataId { data_type, precision, coordinate_system }),
    {
        DataId { data_type, precision, coordinate_system }
    }

    /// Encode into the 16-bit wire word.
    pub fn to_wire(self) -> (r: u16)
        ensures
            r == Self::spec_to_wire(self),
    {
        let group_type: u16 = 0xF8F0 & self.data_type.into_inner();
        let coordinate_system: u16 = 0b1100 & (self.coordinate_system.into_inner() as u16);
        let precision: u16 = 0b11 & (self.precision.into_inner() as u16);
        group_type | coordinate_system | precision
    }

    /// Decode from the 16-bit wire word.
    pub fn from_wire(value: u16) -> (r: Self)
        ensures
            r == Self::spec_from_wire(value),
    {
        let data_type = DataType::from_raw(0xF8F0 & value);
        let precision = Precision::from_raw((0b11 & value) as u8);
        let coordinate_system = CoordinateSystem::from_raw((0b1100 & value) as u8);
        DataId { data_type, precision, coordinate_system }
    }

    /// A data identifier with the given data type and the default
    /// precision (Float32) and coordinate system (East-North-Up).
    pub fn from_data_type(data_type: DataType) -> (r: Self)
        ensures
            r == (DataId {
                data_type,
                precision: Precision::Float32,
                coordinate_system: CoordinateSystem::Enu,
            }),
    {
        DataId { data_type, precision: Precision::default(), coordinate_system: CoordinateSystem::default() }
    }

    pub fn data_type(&self) -> (r: DataType)
        ensures
            r == self.data_type,
    {
        self.data_type
    }

    pub fn precision(&self) -> (r: Precision)
        ensures
            r == self.precision,
    {
        self.precision
    }

    pub fn coordinate_system(&self) -> (r: CoordinateSystem)
        ensures
            r == self.coordinate_system,
    {
        self.coordinate_system
    }
}

/// Data identifier round trip: decoding any 16-bit word with clear
/// reserved bits (bits 8–10) and re-encoding it reproduces the word, with
/// unknown codes in every field preserved.
///
/// Words with a reserved bit set cannot round-trip: the decomposition has
/// no field that could carry those bits.
pub proof fn lemma_data_id_round_trip(value: u16)
    requires
        value & 0x0700 == 0,
    ensures
        DataId::spec_to_wire(DataId::spec_from_wire(value)) == value,
{
    let dt_raw = 0xF8F0 & value;
    let cs_raw = (0b1100 & value) as u8;
    let p_raw = (0b11 & value) as u8;
    // Each field's decomposition preserves its raw code.
    assert(DataType::spec_from_raw(dt_raw).spec_raw() == dt_raw);
    assert(cs_raw == 0 || cs_raw == 4 || cs_raw == 8 || cs_raw == 12) by (bit_vector)
        requires
            cs_raw == (0b1100 & value) as u8,
    ;
    assert(CoordinateSystem::spec_from_raw(cs_raw).spec_raw() == cs_raw);
    assert(p_raw < 4) by (bit_vector)
        requires
            p_raw == (0b11 & value) as u8,
    ;
    assert(Precision::spec_from_raw(p_raw).spec_raw() == p_raw);
    // Re-masking the preserved codes and recombining yields the word.
    assert((0xF8F0 & (0xF8F0 & value)) | (0b1100 & ((0b1100 & value) as u8) as u16) | (0b11 & ((0b11
        & value) as u8) as u16) == value) by (bit_vector)
        requires
            value & 0x0700 == 0,
    ;
}

/// A two-byte wire view holding one data identifier.
#[derive(Debug, Clone, PartialEq, Eq)]
pub struct WireDataId {
    buffer: Vec<u8>,
}

impl View for WireDataId {
    type V = Seq<u8>;

    closed spec fn view(&self) -> Seq<u8> {
        self.buffer@
    }
}

impl WireDataId {
    /// Bytes a data identifier occupies on the wire.
    pub const WIRE_SIZE: usize = 2;

    pub fn new_unchecked(buffer: Vec<u8>) -> (r: WireDataId)
        ensures
            r@ == buffer@,
    {
        WireDataId { buffer }
    }

    /// Wrap a buffer after checking it holds at least two bytes.
    pub fn new(buffer: Vec<u8>) -> (r: Result<WireDataId, WireError>)
        ensures
            match r {
                Ok(w) => buffer@.len() >= 2 && w@ == buffer@,
                Err(e) => buffer@.len() < 2 && e == WireError::MissingBytes,
            },
    {
        let w = Self::new_unchecked(buffer);
        match w.check_len() {
            Err(e) => Err(e),
            Ok(_) => Ok(w),
        }
    }

    pub fn check_len(&self) -> (r: Result<(), WireError>)
        ensures
            r == if self@.len() < 2 {
                Err::<(), WireError>(WireError::MissingBytes)
            } else {
                Ok::<(), WireError>(())
            },
    {
        if self.buffer.len() < Self::WIRE_SIZE {
            Err(WireError::MissingBytes)
        } else {
            Ok(())
        }
    }

    pub fn into_inner(self) -> (r: Vec<u8>)
        ensures
            r@ == self@,
    {
        self.buffer
    }

    /// Length of a buffer able to hold one data identifier.
    pub fn buffer_len() -> (r: usize)
        ensures
            r == 2,
    {
        Self::WIRE_SIZE
    }

    /// The decoded data identifier held by the first two bytes.
    pub fn data_id(&self) -> (r: DataId)
        requires
            self@.len() >= 2,
        ensures
            r == DataId::spec_from_wire(be_u16(self@.subrange(0, 2)) as u16),
    {
        let value = read_u16_be(self.buffer.as_slice(), 0);
        DataId::from_wire(value)
    }

    /// Encode `value` into the first two bytes.
    pub fn set_data_id(&mut self, value: DataId)
        requires
            old(self)@.len() >= 2,
        ensures
            final(self)@.len() == old(self)@.len(),
            be_u16(final(self)@.subrange(0, 2)) == DataId::spec_to_wire(value) as int,
            final(self)@.skip(2) == old(self)@.skip(2),
    {
        let wire = value.to_wire();
        write_u16_be(&mut self.buffer, 0, wire);
        proof {
            assert(self@.skip(2) =~= old(self)@.skip(2));
        }
    }
}

} // verus!
