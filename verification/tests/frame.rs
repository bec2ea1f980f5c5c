use xsens_mti::message::bus_id::BusId;
use xsens_mti::message::frame::{Frame, FrameError};
use xsens_mti::message::message_id::MessageId;
use xsens_mti::message::payload_length::PayloadLength;

static STD_MSG: [u8; 8] = [0xFA, 0xFF, 0x00, 0x03, 0x0A, 0x0B, 0x0C, 0xDD];
static STD_MSG_PAYLOAD: [u8; 3] = [0x0A, 0x0B, 0x0C];

#[test]
fn header_len() {
    assert_eq!(Frame::header_len(), 4);
    let n_payload_bytes = 12;
    assert_eq!(Frame::buffer_len(n_payload_bytes), 4 + 12 + Frame::CHECKSUM_SIZE);
    let n_payload_bytes = 1024;
    assert_eq!(Frame::buffer_len(n_payload_bytes), 4 + 2 + 1024 + Frame::CHECKSUM_SIZE);
}

#[test]
fn construct_std() {
    let bytes = [0xFF_u8; 8];
    let mut f = Frame::new_unchecked(bytes.to_vec());
    assert_eq!(f.check_len(), Ok(()));
    f.set_preamble();
    f.set_bus_id(BusId::new(BusId::MASTER));
    f.set_message_id(MessageId(0));
    f.set_payload_length(PayloadLength::new_standard(3).unwrap());
    assert_eq!(f.check_payload_length(), Ok(()));
    f.set_payload(&STD_MSG_PAYLOAD[..]).unwrap();
    f.set_checksum(0xDD).unwrap();
    assert_eq!(f.check_preamble(), Ok(()));
    assert_eq!(f.check_payload_length(), Ok(()));
    assert_eq!(f.check_checksum(), Ok(()));
    assert_eq!(&f.into_inner()[..], &STD_MSG[..]);
}

#[test]
fn deconstruct_std() {
    let f = Frame::new(STD_MSG.to_vec()).unwrap();
    assert_eq!(f.preamble(), Frame::PREAMBLE);
    assert_eq!(f.bus_id(), BusId::new(BusId::MASTER));
    assert_eq!(f.message_id(), MessageId(0));
    assert_eq!(f.payload_length(), Ok(PayloadLength::new_standard(3).unwrap()));
    assert_eq!(f.payload(), Ok(STD_MSG_PAYLOAD.to_vec()));
    assert_eq!(f.checksum(), Ok(0xDD));
}

#[test]
fn missing_header() {
    let bytes = [0xFF_u8; 4 - 1];
    assert_eq!(bytes.len(), Frame::header_len() - 1);
    let r = Frame::new(bytes.to_vec());
    assert_eq!(r.unwrap_err(), FrameError::MissingHeader);
}

#[test]
fn missing_checksum() {
    let bytes = [0xFA, 0xFF, 0x00, 0x00];
    let f = Frame::new(bytes.to_vec());
    assert_eq!(f.unwrap_err(), FrameError::MissingChecksum);
}

#[test]
fn invalid_preamble() {
    let bytes = [0xF0, 0xFF, 0x00, 0x00, 0x01];
    let f = Frame::new(bytes.to_vec());
    assert_eq!(f.unwrap_err(), FrameError::InvalidPreamble);
}

#[test]
fn invalid_payload_length() {
    let mut bytes = vec![0xFF_u8; 4096];
    bytes[0] = 0xFA;
    bytes[1] = 0xFF;
    bytes[2] = 0x00;
    bytes[3] = Frame::STD_LEN_IS_EXT;
    bytes[4] = (((PayloadLength::MAX_EXT + 1) >> 8) & 0xFF) as u8;
    bytes[5] = ((PayloadLength::MAX_EXT + 1) & 0xFF) as u8;
    let f = Frame::new(bytes);
    assert_eq!(f.unwrap_err(), FrameError::InvalidPayloadLength);
}

#[test]
fn incomplete_payload() {
    let bytes = [0xFA, 0xFF, 0x00, 0xFE, 0x01];
    let f = Frame::new(bytes.to_vec());
    assert_eq!(f.unwrap_err(), FrameError::IncompletePayload);
}

#[test]
fn invalid_checksum() {
    let bytes = [0xFA, 0xFF, 0x00, 0x00, 0x01 + 1];
    let f = Frame::new(bytes.to_vec());
    assert_eq!(f.unwrap_err(), FrameError::InvalidChecksum);
}

/// A frame with the given fields and a closing checksum byte.
fn build_frame(bus_id: u8, message_id: u8, payload: &[u8]) -> Vec<u8> {
    let mut bytes = vec![0xFA, bus_id, message_id];
    if payload.len() > 254 {
        bytes.push(0xFF);
        bytes.push((payload.len() >> 8) as u8);
        bytes.push((payload.len() & 0xFF) as u8);
    } else {
        bytes.push(payload.len() as u8);
    }
    bytes.extend_from_slice(payload);
    let sum: u32 = bytes[1..].iter().map(|b| *b as u32).sum();
    bytes.push(((0x100 - (sum % 0x100)) % 0x100) as u8);
    bytes
}

#[test]
fn frame_round_trip_parses_built_frames() {
    for (bus_id, message_id, payload) in [
        (0xFF_u8, 0x36_u8, vec![0x11_u8, 0x22, 0x33]),
        (0x01, 0x30, vec![]),
        (0x02, 0xC0, (0..=255u32).map(|v| v as u8).collect::<Vec<u8>>()),
    ] {
        let bytes = build_frame(bus_id, message_id, &payload);
        let f = Frame::new(bytes).unwrap();
        assert_eq!(f.bus_id().0, bus_id);
        assert_eq!(f.message_id().0, message_id);
        assert_eq!(f.payload().unwrap(), payload);
        assert_eq!(f.compute_checksum().unwrap(), 0);
    }
}

#[test]
fn boundary_payload_lengths() {
    // 0, 1 and 254 parse as standard; 255 and 2048 as extended.
    for n in [0usize, 1, 254, 255, 2048] {
        let payload = vec![0xAB_u8; n];
        let f = Frame::new(build_frame(0xFF, 0x36, &payload)).unwrap();
        let pl = f.payload_length().unwrap();
        assert_eq!(pl.get(), n);
        assert_eq!(pl.is_extended(), n > 254);
        assert_eq!(f.payload().unwrap().len(), n);
        assert_eq!(f.compute_checksum().unwrap(), 0);
    }
    // 2049 is over the cap.
    let f = Frame::new(build_frame(0xFF, 0x36, &vec![0xAB_u8; 2049]));
    assert_eq!(f.unwrap_err(), FrameError::InvalidPayloadLength);
}
