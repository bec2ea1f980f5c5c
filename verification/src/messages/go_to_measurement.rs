//! Switching the device into Measurement State, and its acknowledgment.
//! Both messages carry an empty payload.

use vstd::prelude::*;
use crate::message::{MessageDecode, MessageEncode, MessageExt};
use crate::message::frame::{Frame, FrameError};
use crate::message::message_id::MessageId;
use crate::message::payload_length::PayloadLength;

verus! {

/// Switch the active state of the device to Measurement State.
#[derive(Debug, Copy, Clone, PartialEq, Eq, Structural, Hash)]
pub struct GoToMeasurement;

impl MessageExt for GoToMeasurement {
    open spec fn spec_msg_id() -> u8 {
        0x10
    }

    fn message_id(&self) -> (r: MessageId) {
        MessageId(0x10)
    }
}

impl MessageEncode for GoToMeasurement {
    open spec fn spec_payload(&self) -> Seq<u8> {
        Seq::empty()
    }

    fn encode(&self, frame: &mut Frame) -> (r: Result<(), FrameError>) {
        frame.set_message_id(MessageId(0x10));
        frame.set_payload_length(PayloadLength::Standard(0));
        proof {
            assert(frame@.subrange(4, 4) =~= self.spec_payload());
            assert(frame@.skip(4) =~= old(frame)@.skip(4));
        }
        Ok(())
    }
}

impl MessageDecode for GoToMeasurement {
    open spec fn spec_decoded(b: Seq<u8>, r: Self) -> bool {
        true
    }

    fn decode_frame(frame: &Frame) -> (r: Result<Self, FrameError>) {
        Ok(GoToMeasurement)
    }
}

/// Acknowledgment that the device reached Measurement State.
#[derive(Debug, Copy, Clone, PartialEq, Eq, Structural, Hash)]
pub struct GoToMeasurementAck;

impl MessageExt for GoToMeasurementAck {
    open spec fn spec_msg_id() -> u8 {
        0x11
    }

    fn message_id(&self) -> (r: MessageId) {
        MessageId(0x11)
    }
}

impl MessageEncode for GoToMeasurementAck {
    open spec fn spec_payload(&self) -> Seq<u8> {
        Seq::empty()
    }

    fn encode(&self, frame: &mut Frame) -> (r: Result<(), FrameError>) {
        frame.set_message_id(MessageId(0x11));
        frame.set_payload_length(PayloadLength::Standard(0));
        proof {
            assert(frame@.subrange(4, 4) =~= self.spec_payload());
            assert(frame@.skip(4) =~= old(frame)@.skip(4));
        }
        Ok(())
    }
}

impl MessageDecode for GoToMeasurementAck {
    open spec fn spec_decoded(b: Seq<u8>, r: Self) -> bool {
        true
    }

    fn decode_frame(frame: &Frame) -> (r: Result<Self, FrameError>) {
        Ok(GoToMeasurementAck)
    }
}

} // verus!
