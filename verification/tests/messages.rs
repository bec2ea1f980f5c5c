use xsens_mti::message::{MessageDecode, MessageEncode, MessageExt};
use xsens_mti::message::frame::{Frame, FrameError};
use xsens_mti::messages::go_to_config::{GoToConfig, GoToConfigAck};
use xsens_mti::messages::go_to_measurement::{GoToMeasurement, GoToMeasurementAck};
use xsens_mti::messages::mtdata2::MTData2;
use xsens_mti::messages::set_output_config::{
    SetOutputConfiguration, SetOutputConfigurationAck, TooManyOutputConifgurations,
};
use xsens_mti::wire::data_id::{CoordinateSystem, DataId, DataType, Precision};
use xsens_mti::wire::output_config::{OutputConfiguration, OutputFrequency};

/// A frame with the given fields and a closing checksum byte.
fn build_frame(bus_id: u8, message_id: u8, payload: &[u8]) -> Vec<u8> {
    let mut bytes = vec![0xFA, bus_id, message_id];
    if payload.len() > 254 {
        bytes.push(0xFF);
        bytes.push((payload.len() >> 8) as u8);
        bytes.push((payload.len() & 0xFF) as u8);
    } else {
        bytes.push(payload.len() as u8);
    }
    bytes.extend_from_slice(payload);
    let sum: u32 = bytes[1..].iter().map(|b| *b as u32).sum();
    bytes.push(((0x100 - (sum % 0x100)) % 0x100) as u8);
    bytes
}

#[test]
fn message_ids() {
    assert_eq!(GoToConfig.message_id().0, 0x30);
    assert_eq!(GoToConfigAck.message_id().0, 0x31);
    assert_eq!(GoToMeasurement.message_id().0, 0x10);
    assert_eq!(GoToMeasurementAck.message_id().0, 0x11);
    assert_eq!(SetOutputConfiguration::new_unchecked(vec![]).message_id().0, 0xC0);
}

#[test]
fn encode_empty_payload_commands() {
    let mut frame = Frame::new_unchecked(vec![0x00_u8; 8]);
    GoToConfig.encode(&mut frame).unwrap();
    let bytes = frame.into_inner();
    assert_eq!(bytes[2], 0x30);
    assert_eq!(bytes[3], 0x00);

    let mut frame = Frame::new_unchecked(vec![0x00_u8; 8]);
    GoToMeasurement.encode(&mut frame).unwrap();
    let bytes = frame.into_inner();
    assert_eq!(bytes[2], 0x10);
    assert_eq!(bytes[3], 0x00);
}

#[test]
fn decode_empty_payload_commands() {
    let frame = Frame::new(build_frame(0xFF, 0x31, &[])).unwrap();
    assert!(GoToConfigAck::decode_frame(&frame).is_ok());
    let frame = Frame::new(build_frame(0xFF, 0x11, &[])).unwrap();
    assert!(GoToMeasurementAck::decode_frame(&frame).is_ok());
}

#[test]
fn mtdata2_decode_iterates_packets() {
    let payload: [u8; 7] = [0x10, 0x20, 0x02, 0x01, 0x14, 0xE0, 0x10];
    // Two packets: a packet counter, then a truncated status byte packet.
    let frame = Frame::new(build_frame(0xFF, 0x36, &payload[..5])).unwrap();
    let msg = MTData2::decode_frame(&frame).unwrap();
    let mut iter = msg.into_iter();
    let p = iter.next().unwrap().unwrap();
    assert_eq!(p.data_id().data_type(), DataType::PacketCounter);
    assert_eq!(p.data_as_u16(), Ok(0x0114));
    assert_eq!(iter.next(), None);
}

#[test]
fn set_output_configuration_limits() {
    let one = OutputConfiguration::new(
        DataId::from_data_type(DataType::PacketCounter),
        OutputFrequency::max_frequency(),
    );
    assert!(SetOutputConfiguration::new(vec![one; 32]).is_ok());
    assert_eq!(
        SetOutputConfiguration::new(vec![one; 33]).unwrap_err(),
        TooManyOutputConifgurations
    );
}

#[test]
fn set_output_configuration_encode() {
    let settings = vec![
        OutputConfiguration::new(
            DataId::from_data_type(DataType::PacketCounter),
            OutputFrequency::max_frequency(),
        ),
        OutputConfiguration::new(
            DataId::new(DataType::Acceleration, Precision::Float32, CoordinateSystem::Enu),
            OutputFrequency(400),
        ),
    ];
    let msg = SetOutputConfiguration::new(settings).unwrap();
    let mut frame = Frame::new_unchecked(vec![0x00_u8; 16]);
    msg.encode(&mut frame).unwrap();
    let bytes = frame.into_inner();
    assert_eq!(bytes[2], 0xC0);
    assert_eq!(bytes[3], 8);
    assert_eq!(&bytes[4..12], &[0x10, 0x20, 0xFF, 0xFF, 0x40, 0x20, 0x01, 0x90]);
}

#[test]
fn set_output_configuration_encode_needs_room() {
    let settings = vec![
        OutputConfiguration::new(
            DataId::from_data_type(DataType::PacketCounter),
            OutputFrequency::max_frequency(),
        );
        3
    ];
    let msg = SetOutputConfiguration::new(settings).unwrap();
    // Three records need 4 + 12 + 1 bytes; 10 are not enough.
    let mut frame = Frame::new_unchecked(vec![0x00_u8; 10]);
    assert_eq!(msg.encode(&mut frame), Err(FrameError::IncompletePayload));
}

#[test]
fn set_output_configuration_ack_decode() {
    let payload: [u8; 8] = [0x10, 0x20, 0xFF, 0xFF, 0x40, 0x20, 0x01, 0x90];
    let frame = Frame::new(build_frame(0xFF, 0xC1, &payload)).unwrap();
    let ack = SetOutputConfigurationAck::decode_frame(&frame).unwrap();
    let configs = ack.0.iter();
    assert_eq!(configs.len(), 2);
    assert_eq!(configs[0].data_id.data_type(), DataType::PacketCounter);
    assert_eq!(configs[0].output_frequency, OutputFrequency(0xFFFF));
    assert_eq!(configs[1].data_id.data_type(), DataType::Acceleration);
    assert_eq!(configs[1].output_frequency, OutputFrequency(400));
}
