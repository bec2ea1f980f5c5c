//! MT communication protocol framing: the frame envelope, its field types,
//! and the traits connecting typed messages to frames.

pub mod bus_id;
pub mod frame;
pub mod message_id;
pub mod payload_length;

pub use bus_id::BusId;
pub use frame::{Frame, FrameError};
pub use message_id::MessageId;
pub use payload_length::PayloadLength;

use vstd::prelude::*;

verus! {

/// A message type with a fixed message id.
pub trait MessageExt {
    /// The fixed message id of this message type.
    spec fn spec_msg_id() -> u8;

    /// The message id carried by every frame of this message type.
    fn message_id(&self) -> (r: MessageId)
        ensures
            r.0 == Self::spec_msg_id(),
    ;
}

/// A message that encodes itself into a frame.
///
/// Encoding sets the message id, the payload length (standard or extended,
/// chosen by the payload size) and the payload bytes; the caller sets
/// preamble, bus id and checksum on the outgoing frame.
pub trait MessageEncode: MessageExt {
    /// The payload bytes this message encodes.
    spec fn spec_payload(&self) -> Seq<u8>;

    /// Encode message id, payload length and payload into `frame`. On
    /// success the frame holds, beyond an unchanged preamble and bus id
    /// byte, this message's id, its payload length and its payload, with
    /// all bytes past the payload untouched; a buffer with room for
    /// header, payload and checksum byte always succeeds. On failure at
    /// most the message id and length field (bytes 2 through 5) have been
    /// written.
    fn encode(&self, frame: &mut Frame) -> (r: Result<(), FrameError>)
        requires
            old(frame)@.len() >= 4,
        ensures
            final(frame)@.len() == old(frame)@.len(),
            ({
                let p = self.spec_payload();
                let n = p.len() as int;
                let hs: int = if n > 254 {
                    6
                } else {
                    4
                };
                &&& (r is Ok ==> {
                    &&& n <= 2048
                    &&& old(frame)@.len() >= hs + n
                    &&& final(frame)@[0] == old(frame)@[0]
                    &&& final(frame)@[1] == old(frame)@[1]
                    &&& final(frame)@[2] == Self::spec_msg_id()
                    &&& Frame::spec_payload_length(final(frame)@) == Ok::<
                        PayloadLength,
                        FrameError,
                    >(
                        if n > 254 {
                            PayloadLength::Extended(n as u16)
                        } else {
                            PayloadLength::Standard(n as u8)
                        },
                    )
                    &&& final(frame)@.subrange(hs, hs + n) == p
                    &&& final(frame)@.skip(hs + n) == old(frame)@.skip(hs + n)
                })
                &&& (n <= 2048 && old(frame)@.len() >= hs + n + 1 ==> r is Ok)
                &&& (r is Err ==> forall|i: int|
                    0 <= i < old(frame)@.len() && !(2 <= i < 6)
                        ==> #[trigger] final(frame)@[i] == old(frame)@[i])
            }),
    ;
}

/// A message type decoded from a validated frame.
pub trait MessageDecode: MessageExt + Sized {
    /// What it means for `r` to be the decoding of the frame bytes `b`.
    spec fn spec_decoded(b: Seq<u8>, r: Self) -> bool;

    /// Decode a validated frame of this message type; always succeeds on a
    /// valid frame. Does not look at the message id: that is
    /// [`MessageDecode::decode`]'s concern.
    fn decode_frame(frame: &Frame) -> (r: Result<Self, FrameError>)
        requires
            Frame::spec_valid(frame@),
        ensures
            r matches Ok(m) && Self::spec_decoded(frame@, m),
    ;

    /// Decode a validated frame that carries this message type's id; the
    /// caller-facing entry point, tying the decoded message to its
    /// message id.
    fn decode(frame: &Frame) -> (r: Result<Self, FrameError>)
        requires
            Frame::spec_valid(frame@),
            frame@[2] == Self::spec_msg_id(),
        ensures
            r matches Ok(m) && Self::spec_decoded(frame@, m),
    {
        Self::decode_frame(frame)
    }
}

} // verus!
