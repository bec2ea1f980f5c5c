use xsens_mti::prelude::{
    Acceleration,
    CoordinateSystem,
    DataType,
    Decoder,
    EulerAngles,
    Float32Bits,
    MTData2,
    MessageDecode,
    PacketCounter,
    Precision,
    SampleTimeFine,
    UtcTime,
};
use xsens_mti::wire::{read_u16_be, read_u32_be, read_u64_be, write_u16_be};

static MTDATA2_PAYLOAD: [u8; 57] = [
    0x10, 0x10, 0x0C, 0x24, 0x34, 0x30, 0x40, 0x07, 0xB2, 0x01, 0x01, 0x00, 0x00, 0x11, 0x00,
    0x10, 0x20, 0x02, 0x01, 0x14,
    0x10, 0x60, 0x04, 0x00, 0x02, 0xAF, 0xCA,
    0x20, 0x34, 0x0C, 0x43, 0x32, 0x09, 0x1E, 0xC0, 0x5A, 0xBC, 0xA1, 0x42, 0xAC, 0x7F, 0x61,
    0x40, 0x20, 0x0C, 0xBD, 0x9E, 0x50, 0xD6, 0x3E, 0x0A, 0x45, 0x4B, 0x41, 0x1D, 0x60, 0x76,
];

/// A frame with the given fields and a closing checksum byte.
fn build_frame(bus_id: u8, message_id: u8, payload: &[u8]) -> Vec<u8> {
    let mut bytes = vec![0xFA, bus_id, message_id];
    if payload.len() > 254 {
        bytes.push(0xFF);
        bytes.push((payload.len() >> 8) as u8);
        bytes.push((payload.len() & 0xFF) as u8);
    } else {
        bytes.push(payload.len() as u8);
    }
    bytes.extend_from_slice(payload);
    let sum: u32 = bytes[1..].iter().map(|b| *b as u32).sum();
    bytes.push(((0x100 - (sum % 0x100)) % 0x100) as u8);
    bytes
}

#[test]
fn mtdata2_stream_to_typed_values() {
    // Stream a whole MTData2 frame through the decoder, then walk its
    // packets down to typed measurement values.
    let wire = build_frame(0xFF, 0x36, &MTDATA2_PAYLOAD);
    let mut dec = Decoder::new(vec![0_u8; 512]).unwrap();
    let mut decoded = None;
    for byte in wire.iter() {
        if let Some(frame) = dec.decode(*byte).unwrap() {
            decoded = Some(frame);
        }
    }
    let frame = decoded.expect("one frame");
    assert_eq!(frame.message_id().0, 0x36);
    let msg = MTData2::decode(&frame).unwrap();
    let mut iter = msg.into_iter();

    let p = iter.next().unwrap().unwrap();
    assert_eq!(p.data_id().data_type(), DataType::UtcTime);
    assert_eq!(p.data_length(), 12);
    let t = UtcTime::from_be_slice(&p.payload()).unwrap();
    assert_eq!((t.year, t.month, t.day), (1970, 1, 1));

    let p = iter.next().unwrap().unwrap();
    assert_eq!(p.data_id().data_type(), DataType::PacketCounter);
    let c = PacketCounter::from_be_slice(&p.payload()).unwrap();
    assert_eq!(c.0, 0x0114);

    let p = iter.next().unwrap().unwrap();
    assert_eq!(p.data_id().data_type(), DataType::SampleTimeFine);
    let st = SampleTimeFine::from_be_slice(&p.payload()).unwrap();
    assert_eq!(st.0, 0x0002AFCA);

    let p = iter.next().unwrap().unwrap();
    assert_eq!(p.data_id().data_type(), DataType::EulerAngles);
    assert_eq!(p.data_id().precision(), Precision::Float32);
    assert_eq!(p.data_id().coordinate_system(), CoordinateSystem::Ned);
    let e = EulerAngles::<Float32Bits>::from_be_slice(&p.payload()).unwrap();
    assert_eq!(e.roll.0, 0x4332091E);
    assert_eq!(f32::from_bits(e.roll.0), f32::from_be_bytes([0x43, 0x32, 0x09, 0x1E]));

    let p = iter.next().unwrap().unwrap();
    assert_eq!(p.data_id().data_type(), DataType::Acceleration);
    assert_eq!(p.data_id().precision(), Precision::Float32);
    assert_eq!(p.data_id().coordinate_system(), CoordinateSystem::Enu);
    let a = Acceleration::<Float32Bits>::from_be_slice(&p.payload()).unwrap();
    assert_eq!(f32::from_bits(a.z.0), f32::from_be_bytes([0x41, 0x1D, 0x60, 0x76]));

    assert_eq!(iter.next(), None);
}

#[test]
fn big_endian_readers_and_writer() {
    let bytes: [u8; 8] = [0x01, 0x23, 0x45, 0x67, 0x89, 0xAB, 0xCD, 0xEF];
    assert_eq!(read_u16_be(&bytes, 0), 0x0123);
    assert_eq!(read_u16_be(&bytes, 3), 0x6789);
    assert_eq!(read_u32_be(&bytes, 0), 0x01234567);
    assert_eq!(read_u32_be(&bytes, 4), 0x89ABCDEF);
    assert_eq!(read_u64_be(&bytes, 0), 0x0123456789ABCDEF);

    let mut out = vec![0_u8; 4];
    write_u16_be(&mut out, 1, 0xBEEF);
    assert_eq!(out, vec![0x00, 0xBE, 0xEF, 0x00]);
    assert_eq!(read_u16_be(&out, 1), 0xBEEF);
}
