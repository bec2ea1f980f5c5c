use xsens_mti::wire::data_id::{CoordinateSystem, DataId, DataType, Precision, WireDataId};
use xsens_mti::wire::WireError;

static WIRE_BYTES: [u8; 2] = [0x20, 0x16];

#[test]
fn data_id_buffer_len() {
    assert_eq!(WireDataId::buffer_len(), 2);
    assert_eq!(WireDataId::WIRE_SIZE, 2);
}

#[test]
fn data_id_construct() {
    let bytes = [0xFF_u8; 2];
    let mut w = WireDataId::new_unchecked(bytes.to_vec());
    assert_eq!(w.check_len(), Ok(()));
    w.set_data_id(DataId::new(DataType::Quaternion, Precision::Fp1632, CoordinateSystem::Ned));
    assert_eq!(&w.into_inner()[..], &WIRE_BYTES[..]);
}

#[test]
fn data_id_deconstruct() {
    let w = WireDataId::new(WIRE_BYTES.to_vec()).unwrap();
    assert_eq!(
        w.data_id(),
        DataId::new(DataType::Quaternion, Precision::Fp1632, CoordinateSystem::Ned)
    );
}

#[test]
fn data_id_missing_bytes() {
    let bytes = [0xFF_u8; 2 - 1];
    assert_eq!(bytes.len(), WireDataId::buffer_len() - 1);
    let w = WireDataId::new(bytes.to_vec());
    assert_eq!(w.unwrap_err(), WireError::MissingBytes);
}

#[test]
fn data_id_encoding() {
    // Quaternion (0x2010) at fixed-point 16.32 precision (0x2) in the
    // North-East-Down coordinate system (0x4) encodes to 0x2016.
    let id = DataId::new(DataType::Quaternion, Precision::Fp1632, CoordinateSystem::Ned);
    assert_eq!(id.to_wire(), 0x2016);
    let decoded = DataId::from_wire(0x2016);
    assert_eq!(decoded.data_type(), DataType::Quaternion);
    assert_eq!(decoded.precision(), Precision::Fp1632);
    assert_eq!(decoded.coordinate_system(), CoordinateSystem::Ned);
}

#[test]
fn data_id_round_trip_known_and_unknown() {
    // Words with clear reserved bits round-trip, including codes outside
    // the known sets.
    for wire in [
        0x2016_u16, // Quaternion, Fp1632, Ned
        0x1020,     // PacketCounter, Float32, Enu
        0x0000,     // unknown data type zero
        0x000C,     // unknown coordinate-system code 0xC
        0xC8F3,     // unknown data type, Float64, unknown coordinate system
        0xF8FF,     // everything at its mask maximum
    ] {
        let id = DataId::from_wire(wire);
        assert_eq!(id.to_wire(), wire);
    }
    // The unknown codes are preserved as read.
    let id = DataId::from_wire(0x000C);
    assert_eq!(id.coordinate_system(), CoordinateSystem::Unknown(0x0C));
    let id = DataId::from_wire(0x0000);
    assert_eq!(id.data_type(), DataType::Unknown(0x0000));
}

#[test]
fn data_id_defaults() {
    let id = DataId::from_data_type(DataType::PacketCounter);
    assert_eq!(id.precision(), Precision::Float32);
    assert_eq!(id.coordinate_system(), CoordinateSystem::Enu);
    assert_eq!(id.to_wire(), 0x1020);
}
