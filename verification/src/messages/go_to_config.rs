//! Switching the device into Config State, and its acknowledgment. Both
//! messages carry an empty payload.

use vstd::prelude::*;
use crate::message::{MessageDecode, MessageEncode, MessageExt};
use crate::message::frame::{Frame, FrameError};
use crate::message::message_id::MessageId;
use crate::message::payload_length::PayloadLength;

verus! {

/// Switch the active state of the device from Measurement State to Config
/// State. Can also be sent in Config State to confirm that Config State is
/// the active state.
#[derive(Debug, Copy, Clone, PartialEq, Eq, Structural, Hash)]
pub struct GoToConfig;

impl MessageExt for GoToConfig {
    open spec fn spec_msg_id() -> u8 {
        0x30
    }

    fn message_id(&self) -> (r: MessageId) {
        MessageId(0x30)
    }
}

impl MessageEncode for GoToConfig {
    open spec fn spec_payload(&self) -> Seq<u8> {
        Seq::empty()
    }

    fn encode(&self, frame: &mut Frame) -> (r: Result<(), FrameError>) {
        frame.set_message_id(MessageId(0x30));
        frame.set_payload_length(PayloadLength::Standard(0));
        proof {
            assert(frame@.subrange(4, 4) =~= self.spec_payload());
            assert(frame@.skip(4) =~= old(frame)@.skip(4));
        }
        Ok(())
    }
}

impl MessageDecode for GoToConfig {
    open spec fn spec_decoded(b: Seq<u8>, r: Self) -> bool {
        true
    }

    fn decode_frame(frame: &Frame) -> (r: Result<Self, FrameError>) {
        Ok(GoToConfig)
    }
}

/// Acknowledgment that the device reached Config State.
#[derive(Debug, Copy, Clone, PartialEq, Eq, Structural, Hash)]
pub struct GoToConfigAck;

impl MessageExt for GoToConfigAck {
    open spec fn spec_msg_id() -> u8 {
        0x31
    }

    fn message_id(&self) -> (r: MessageId) {
        MessageId(0x31)
    }
}

impl MessageEncode for GoToConfigAck {
    open spec fn spec_payload(&self) -> Seq<u8> {
        Seq::empty()
    }

    fn encode(&self, frame: &mut Frame) -> (r: Result<(), FrameError>) {
        frame.set_message_id(MessageId(0x31));
        frame.set_payload_length(PayloadLength::Standard(0));
        proof {
            assert(frame@.subrange(4, 4) =~= self.spec_payload());
            assert(frame@.skip(4) =~= old(frame)@.skip(4));
        }
        Ok(())
    }
}

impl MessageDecode for GoToConfigAck {
    open spec fn spec_decoded(b: Seq<u8>, r: Self) -> bool {
        true
    }

    fn decode_frame(frame: &Frame) -> (r: Result<Self, FrameError>) {
        Ok(GoToConfigAck)
    }
}

} // verus!
