//! The MTData2 data message: its payload is a concatenation of
//! self-describing measurement packets, walked by a packet iterator.

use vstd::prelude::*;
use crate::message::{MessageDecode, MessageExt};
use crate::message::frame::{Frame, FrameError};
use crate::message::message_id::MessageId;
use crate::wire::mtdata2_packet::MTData2PacketIter;

verus! {

/// An MTData2 message, holding the iterator over its measurement packets.
#[derive(Debug, Clone)]
pub struct MTData2(pub MTData2PacketIter);

impl MTData2 {
    /// The packet iterator over the message payload.
    pub fn into_iter(self) -> (r: MTData2PacketIter)
        ensures
            r@ == self.0@,
    {
        self.0
    }
}

impl MessageExt for MTData2 {
    open spec fn spec_msg_id() -> u8 {
        0x36
    }

    fn message_id(&self) -> (r: MessageId) {
        MessageId(0x36)
    }
}

impl MessageDecode for MTData2 {
    open spec fn spec_decoded(b: Seq<u8>, r: Self) -> bool {
        r.0@.buffer == Frame::spec_payload_bytes(b) && r.0@.cursor == 0
    }

    fn decode_frame(frame: &Frame) -> (r: Result<Self, FrameError>) {
        match frame.payload() {
            Ok(payload) => Ok(MTData2(MTData2PacketIter::new(payload))),
            Err(e) => Err(e),
        }
    }
}

} // verus!
