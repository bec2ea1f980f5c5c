use xsens_mti::wire::data_id::{CoordinateSystem, DataId, DataType, Precision};
use xsens_mti::wire::mtdata2_packet::{MTData2Packet, MTData2PacketIter};
use xsens_mti::wire::WireError;

// DataId: 0x1020 (PacketCounter), DataLen: 2, Value: 0x0114
static WIRE_BYTES: [u8; 5] = [0x10, 0x20, 0x02, 0x01, 0x14];

static SEQ_WIRE_BYTES: [u8; 57] = [
    // UtcTime
    0x10, 0x10, 0x0C, 0x24, 0x34, 0x30, 0x40, 0x07, 0xB2, 0x01, 0x01, 0x00, 0x00, 0x11, 0x00,
    // PacketCounter
    0x10, 0x20, 0x02, 0x01, 0x14,
    // SampleTimeFine
    0x10, 0x60, 0x04, 0x00, 0x02, 0xAF, 0xCA,
    // EulerAngles
    0x20, 0x34, 0x0C, 0x43, 0x32, 0x09, 0x1E, 0xC0, 0x5A, 0xBC, 0xA1, 0x42, 0xAC, 0x7F, 0x61,
    // Acceleration
    0x40, 0x20, 0x0C, 0xBD, 0x9E, 0x50, 0xD6, 0x3E, 0x0A, 0x45, 0x4B, 0x41, 0x1D, 0x60, 0x76,
];

#[test]
fn mtdata2_packet_buffer_len() {
    assert_eq!(MTData2Packet::buffer_len(0), MTData2Packet::MIN_WIRE_SIZE);
    assert_eq!(MTData2Packet::MIN_WIRE_SIZE, MTData2Packet::header_len());
}

#[test]
fn mtdata2_packet_deconstruct() {
    let w = MTData2Packet::new(WIRE_BYTES.to_vec()).unwrap();
    assert_eq!(w.data_id(), DataId::from_data_type(DataType::PacketCounter));
    assert_eq!(w.data_length(), 2);
    let data = w.payload();
    assert_eq!(data.len(), 2);
    assert_eq!(w.data_as_u16(), Ok(0x0114));
}

#[test]
fn packet_iterator() {
    let mut iter = MTData2PacketIter::new(SEQ_WIRE_BYTES.to_vec());
    let item = iter.next().unwrap();
    let p = item.unwrap();
    assert_eq!(p.data_id().data_type(), DataType::UtcTime);
    assert_eq!(p.data_length(), 12);
    let item = iter.next().unwrap();
    let p = item.unwrap();
    assert_eq!(p.data_id().data_type(), DataType::PacketCounter);
    assert_eq!(p.data_length(), 2);
    let item = iter.next().unwrap();
    let p = item.unwrap();
    assert_eq!(p.data_id().data_type(), DataType::SampleTimeFine);
    assert_eq!(p.data_length(), 4);
    let item = iter.next().unwrap();
    let p = item.unwrap();
    assert_eq!(p.data_id().data_type(), DataType::EulerAngles);
    assert_eq!(p.data_id().precision(), Precision::Float32);
    assert_eq!(p.data_id().coordinate_system(), CoordinateSystem::Ned);
    assert_eq!(p.data_length(), 12);
    let item = iter.next().unwrap();
    let p = item.unwrap();
    assert_eq!(p.data_id().data_type(), DataType::Acceleration);
    assert_eq!(p.data_id().precision(), Precision::Float32);
    assert_eq!(p.data_id().coordinate_system(), CoordinateSystem::Enu);
    assert_eq!(p.data_length(), 12);
    assert_eq!(iter.next(), None);
    assert_eq!(iter.next(), None);
}

#[test]
fn packet_iterator_truncated_trailing_packet() {
    // A trailing packet whose declared payload overruns the buffer: one
    // MissingBytes, then exhaustion.
    let mut bytes = WIRE_BYTES.to_vec();
    bytes.extend_from_slice(&[0x10, 0x60, 0x04, 0x00]);
    let mut iter = MTData2PacketIter::new(bytes);
    assert!(iter.next().unwrap().is_ok());
    assert_eq!(iter.next().unwrap(), Err(WireError::MissingBytes));
    assert_eq!(iter.next(), None);
}

#[test]
fn packet_iterator_truncated_header() {
    // Fewer than three trailing bytes cannot hold a packet header.
    let mut bytes = WIRE_BYTES.to_vec();
    bytes.extend_from_slice(&[0x10, 0x60]);
    let mut iter = MTData2PacketIter::new(bytes);
    assert!(iter.next().unwrap().is_ok());
    assert_eq!(iter.next().unwrap(), Err(WireError::MissingBytes));
    assert_eq!(iter.next(), None);
}

#[test]
fn packet_data_as_u8_needs_one_byte() {
    let w = MTData2Packet::new(vec![0xE0, 0x10, 0x01, 0x5A]).unwrap();
    assert_eq!(w.data_as_u8(), Ok(0x5A));
    assert_eq!(w.data_as_u16(), Err(WireError::MissingBytes));
    let two = MTData2Packet::new(WIRE_BYTES.to_vec()).unwrap();
    assert_eq!(two.data_as_u8(), Err(WireError::MissingBytes));
}

#[test]
fn packet_rejects_short_buffers() {
    assert_eq!(MTData2Packet::new(vec![0x10, 0x20]).unwrap_err(), WireError::MissingBytes);
    assert_eq!(
        MTData2Packet::new(vec![0x10, 0x20, 0x02, 0x01]).unwrap_err(),
        WireError::MissingBytes
    );
}
