use xsens_mti::decoder::{Decoder, Error};
use xsens_mti::message::frame::Frame;

static STD_MSG: [u8; 8] = [0xFA, 0xFF, 0x00, 0x03, 0x0A, 0x0B, 0x0C, 0xDD];

#[test]
fn basic_decoding() {
    let buffer = vec![0_u8; 512];
    let mut dec = Decoder::new(buffer).unwrap();

    for _ in 0..4 {
        for (idx, byte) in STD_MSG.iter().enumerate() {
            let maybe_frame = dec.decode(*byte).unwrap();
            if idx < (STD_MSG.len() - 1) {
                assert!(maybe_frame.is_none());
            } else {
                assert!(maybe_frame.is_some());
            }
        }
    }

    assert_eq!(dec.count(), 4);
    assert_eq!(dec.invalid_count(), 0);
}

#[test]
fn owned_buffer_swap() {
    let buffer_a = vec![0_u8; 512];
    let buffer_b = vec![0_u8; 512];
    let mut dec = Decoder::new(buffer_a).unwrap();

    assert_eq!(STD_MSG.len(), 8);
    for byte in &STD_MSG[..7] {
        assert_eq!(dec.decode_frameless(*byte).unwrap(), None);
    }

    let frame_size = dec.decode_frameless(STD_MSG[7]).unwrap().unwrap();
    assert_eq!(frame_size, 8);

    let buffer_a = dec.swap_buffer(buffer_b).unwrap();
    assert!(Frame::new(buffer_a[..frame_size].to_vec()).is_ok());

    assert_eq!(dec.count(), 1);
    assert_eq!(dec.invalid_count(), 0);
}

#[test]
fn undersized_buffer_is_rejected() {
    match Decoder::new(vec![0_u8; 257]) {
        Err(Error::InsufficientBufferSize) => (),
        other => panic!("unexpected: {:?}", other),
    }
    assert!(Decoder::new(vec![0_u8; 258]).is_ok());
}

#[test]
fn resync_after_garbage() {
    let mut dec = Decoder::new(vec![0_u8; 512]).unwrap();
    let mut frames = 0;
    for byte in [0x00, 0x01, 0x02].iter().chain(STD_MSG.iter()) {
        if dec.decode(*byte).unwrap().is_some() {
            frames += 1;
        }
    }
    assert_eq!(frames, 1);
    assert_eq!(dec.count(), 1);
    assert_eq!(dec.invalid_count(), 0);
}

#[test]
fn standard_frame_fields() {
    let mut dec = Decoder::new(vec![0_u8; 512]).unwrap();
    let mut decoded = None;
    for byte in STD_MSG.iter() {
        if let Some(frame) = dec.decode(*byte).unwrap() {
            decoded = Some(frame);
        }
    }
    let frame = decoded.expect("one frame");
    assert_eq!(frame.bus_id().0, 0xFF);
    assert_eq!(frame.message_id().0, 0x00);
    assert_eq!(frame.payload().unwrap(), vec![0x0A, 0x0B, 0x0C]);
    assert_eq!(frame.checksum().unwrap(), 0xDD);
    assert_eq!(dec.count(), 1);
    assert_eq!(dec.invalid_count(), 0);
}

#[test]
fn bad_checksum_counts_invalid() {
    // The completed-but-bad-checksum sequence is consumed internally: no
    // frame and no error surface, and the invalid counter moves by one.
    let msg: [u8; 8] = [0xFA, 0xFF, 0x00, 0x03, 0x0A, 0x0B, 0x0C, 0xDE];
    let mut dec = Decoder::new(vec![0_u8; 512]).unwrap();
    for byte in msg.iter() {
        assert!(dec.decode(*byte).unwrap().is_none());
    }
    assert_eq!(dec.count(), 0);
    assert_eq!(dec.invalid_count(), 1);
}

#[test]
fn invalid_count_is_monotonic() {
    let msg: [u8; 8] = [0xFA, 0xFF, 0x00, 0x03, 0x0A, 0x0B, 0x0C, 0xDE];
    let mut dec = Decoder::new(vec![0_u8; 512]).unwrap();
    let mut last = 0;
    for _ in 0..3 {
        for byte in msg.iter() {
            let _ = dec.decode(*byte);
            assert!(dec.invalid_count() >= last);
            last = dec.invalid_count();
        }
    }
    assert_eq!(dec.invalid_count(), 3);
    assert_eq!(dec.count(), 0);
}

#[test]
fn extended_length_overflow_resets() {
    // The assembled extended length 0x0801 exceeds the 2048-byte cap: the
    // decoder counts one invalid frame and returns to the preamble hunt.
    let overflow: [u8; 6] = [0xFA, 0xFF, 0x00, 0xFF, 0x08, 0x01];
    let mut dec = Decoder::new(vec![0_u8; 512]).unwrap();
    for byte in overflow.iter() {
        assert!(dec.decode(*byte).unwrap().is_none());
    }
    assert_eq!(dec.count(), 0);
    assert_eq!(dec.invalid_count(), 1);

    // A valid frame decodes right afterwards.
    let mut decoded = 0;
    for byte in STD_MSG.iter() {
        if dec.decode(*byte).unwrap().is_some() {
            decoded += 1;
        }
    }
    assert_eq!(decoded, 1);
    assert_eq!(dec.count(), 1);
    assert_eq!(dec.invalid_count(), 1);
}

#[test]
fn overrun_reports_insufficient_buffer() {
    // An extended frame larger than the working buffer: the append that
    // would overflow fails with the byte unstored and the counters
    // untouched. No failure is terminal for the stream — the next
    // preamble byte begins a new frame without any manual reset.
    let mut dec = Decoder::new(vec![0_u8; 258]).unwrap();
    let header: [u8; 6] = [0xFA, 0xFF, 0x36, 0xFF, 0x01, 0x90];
    for byte in header.iter() {
        assert!(dec.decode(*byte).unwrap().is_none());
    }
    let mut overran = false;
    for _ in 0..400 {
        match dec.decode(0x00) {
            Ok(None) => (),
            Err(Error::InsufficientBufferSize) => {
                overran = true;
                break;
            },
            other => panic!("unexpected: {:?}", other),
        }
    }
    assert!(overran);
    assert_eq!(dec.count(), 0);
    assert_eq!(dec.invalid_count(), 0);
    let mut decoded = 0;
    for byte in STD_MSG.iter() {
        if dec.decode(*byte).unwrap().is_some() {
            decoded += 1;
        }
    }
    assert_eq!(decoded, 1);
    assert_eq!(dec.count(), 1);
}
