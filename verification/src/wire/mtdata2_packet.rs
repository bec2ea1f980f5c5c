//! The self-describing MTData2 packet: a 2-byte data identifier, a 1-byte
//! payload length, and the payload — plus the iterator that walks the
//! concatenated packets of an MTData2 message payload.

use vstd::prelude::*;
use crate::wire::{be_u16, copy_range, read_u16_be, WireError};
use crate::wire::data_id::DataId;

verus! {

/// A whole packet starts at `c` in `b`: its 3-byte header is present and
/// its declared payload does not overrun `b`.
pub open spec fn spec_packet_at(b: Seq<u8>, c: int) -> bool
    recommends
        0 <= c <= b.len(),
{
    &&& b.len() - c >= 3
    &&& b.len() - c >= 3 + b[c + 2]
}

/// From `c` on, `b` splits into whole packets out to its end.
pub open spec fn spec_packets_from(b: Seq<u8>, c: int) -> bool
    decreases b.len() - c,
    when 0 <= c <= b.len()
{
    c == b.len() || (spec_packet_at(b, c) && spec_packets_from(b, c + 3 + b[c + 2]))
}

/// The packets of `b` from `c` on, each as its own byte sequence, cut off
/// at the first position where no whole packet starts.
pub open spec fn spec_packet_seq(b: Seq<u8>, c: int) -> Seq<Seq<u8>>
    decreases b.len() - c,
    when 0 <= c <= b.len()
{
    if c == b.len() || !spec_packet_at(b, c) {
        Seq::empty()
    } else {
        seq![b.subrange(c, c + 3 + b[c + 2])] + spec_packet_seq(b, c + 3 + b[c + 2])
    }
}

/// A view over one MTData2 packet: data identifier, payload length byte,
/// payload.
#[derive(Debug, Clone, PartialEq, Eq)]
pub struct MTData2Packet {
    buffer: Vec<u8>,
}

impl View for MTData2Packet {
    type V = Seq<u8>;

    closed spec fn view(&self) -> Seq<u8> {
        self.buffer@
    }
}

impl MTData2Packet {
    /// Smallest packet: data identifier, length byte, empty payload.
    pub const MIN_WIRE_SIZE: usize = 3;

    /// The buffer holds the 3-byte header and the payload it declares.
    pub open spec fn spec_wf(b: Seq<u8>) -> bool {
        b.len() >= 3 && b.len() >= 3 + b[2]
    }

    /// The payload length byte.
    pub open spec fn spec_data_length(b: Seq<u8>) -> int
        recommends
            b.len() >= 3,
    {
        b[2] as int
    }

    pub fn new_unchecked(buffer: Vec<u8>) -> (r: MTData2Packet)
        ensures
            r@ == buffer@,
    {
        MTData2Packet { buffer }
    }

    /// Wrap a buffer after validating that the header is present and the
    /// declared payload does not overrun the buffer.
    pub fn new(buffer: Vec<u8>) -> (r: Result<MTData2Packet, WireError>)
        ensures
            match r {
                Ok(p) => Self::spec_wf(buffer@) && p@ == buffer@,
                Err(e) => !Self::spec_wf(buffer@) && e == WireError::MissingBytes,
            },
    {
        let p = Self::new_unchecked(buffer);
        match p.check_len() {
            Err(e) => return Err(e),
            Ok(_) => (),
        }
        match p.check_payload_length() {
            Err(e) => return Err(e),
            Ok(_) => (),
        }
        Ok(p)
    }

    pub fn check_len(&self) -> (r: Result<(), WireError>)
        ensures
            r == if self@.len() < 3 {
                Err::<(), WireError>(WireError::MissingBytes)
            } else {
                Ok::<(), WireError>(())
            },
    {
        if self.buffer.len() < Self::MIN_WIRE_SIZE {
            Err(WireError::MissingBytes)
        } else {
            Ok(())
        }
    }

    pub fn check_payload_length(&self) -> (r: Result<(), WireError>)
        requires
            self@.len() >= 3,
        ensures
            r == if self@.len() < 3 + Self::spec_data_length(self@) {
                Err::<(), WireError>(WireError::MissingBytes)
            } else {
                Ok::<(), WireError>(())
            },
    {
        let payload_len = self.data_length() as usize;
        let len = self.buffer.len();
        if len < 3 || len - 3 < payload_len {
            Err(WireError::MissingBytes)
        } else {
            Ok(())
        }
    }

    pub fn into_inner(self) -> (r: Vec<u8>)
        ensures
            r@ == self@,
    {
        self.buffer
    }

    /// Length of a packet header: data identifier plus length byte.
    pub fn header_len() -> (r: usize)
        ensures
            r == 3,
    {
        3
    }

    /// Length of a buffer able to hold a packet with `n_payload_bytes` of
    /// payload.
    pub fn buffer_len(n_payload_bytes: usize) -> (r: usize)
        requires
            n_payload_bytes <= usize::MAX - 3,
        ensures
            r as int == 3 + n_payload_bytes,
    {
        3 + n_payload_bytes
    }

    /// The packet's decoded data identifier.
    pub fn data_id(&self) -> (r: DataId)
        requires
            self@.len() >= 2,
        ensures
            r == DataId::spec_from_wire(be_u16(self@.subrange(0, 2)) as u16),
    {
        let value = read_u16_be(self.buffer.as_slice(), 0);
        DataId::from_wire(value)
    }

    /// The declared payload length.
    pub fn data_length(&self) -> (r: u8)
        requires
            self@.len() >= 3,
        ensures
            r as int == Self::spec_data_length(self@),
    {
        self.buffer[2]
    }

    /// Copy of the packet's payload bytes.
    pub fn payload(&self) -> (r: Vec<u8>)
        requires
            Self::spec_wf(self@),
        ensures
            r@ == self@.subrange(3, 3 + Self::spec_data_length(self@)),
    {
        let payload_len = self.data_length() as usize;
        copy_range(&self.buffer, 3, 3 + payload_len)
    }

    /// The payload as a single byte; exactly the packets declaring one
    /// payload byte have one.
    pub fn data_as_u8(&self) -> (r: Result<u8, WireError>)
        requires
            Self::spec_wf(self@),
        ensures
            r == if Self::spec_data_length(self@) == 1 {
                Ok::<u8, WireError>(self@[3])
            } else {
                Err::<u8, WireError>(WireError::MissingBytes)
            },
    {
        if self.data_length() != 1 {
            Err(WireError::MissingBytes)
        } else {
            Ok(self.buffer[3])
        }
    }

    /// The payload as one big-endian 16-bit value; exactly the packets
    /// declaring two payload bytes have one.
    pub fn data_as_u16(&self) -> (r: Result<u16, WireError>)
        requires
            Self::spec_wf(self@),
        ensures
            r == if Self::spec_data_length(self@) == 2 {
                Ok::<u16, WireError>(be_u16(self@.subrange(3, 5)) as u16)
            } else {
                Err::<u16, WireError>(WireError::MissingBytes)
            },
    {
        if self.data_length() != 2 {
            Err(WireError::MissingBytes)
        } else {
            Ok(read_u16_be(self.buffer.as_slice(), 3))
        }
    }
}

/// Model of a packet iterator: the payload it walks and its cursor.
pub struct PacketIterModel {
    pub cursor: int,
    pub buffer: Seq<u8>,
}

/// Walks the concatenated packets of an MTData2 message payload.
///
/// Each call of [`MTData2PacketIter::next`] yields the whole packet at the
/// cursor and advances past it; a position where no whole packet starts
/// yields one `MissingBytes` and exhausts the iterator.
#[derive(Debug, Clone, PartialEq, Eq)]
pub struct MTData2PacketIter {
    cursor: usize,
    buffer: Vec<u8>,
}

impl View for MTData2PacketIter {
    type V = PacketIterModel;

    closed spec fn view(&self) -> PacketIterModel {
        PacketIterModel { cursor: self.cursor as int, buffer: self.buffer@ }
    }
}

impl MTData2PacketIter {
    pub fn new(buffer: Vec<u8>) -> (r: MTData2PacketIter)
        ensures
            r@.cursor == 0,
            r@.buffer == buffer@,
    {
        MTData2PacketIter { cursor: 0, buffer }
    }

    /// The next packet: `None` once the payload is exhausted; the whole
    /// packet at the cursor when one starts there; one `MissingBytes`,
    /// exhausting the iterator, when the trailing bytes hold no whole
    /// packet.
    pub fn next(&mut self) -> (r: Option<Result<MTData2Packet, WireError>>)
        ensures
            final(self)@.buffer == old(self)@.buffer,
            match r {
                None => old(self)@.cursor >= old(self)@.buffer.len() && final(self)@ == old(self)@,
                Some(item) => {
                    let b = old(self)@.buffer;
                    let c = old(self)@.cursor;
                    &&& c < b.len()
                    &&& match item {
                        Ok(p) => spec_packet_at(b, c) && p@ == b.subrange(c, c + 3 + b[c + 2])
                            && final(self)@.cursor == c + 3 + b[c + 2],
                        Err(e) => !spec_packet_at(b, c) && e == WireError::MissingBytes
                            && final(self)@.cursor == b.len(),
                    }
                },
            },
    {
        let len = self.buffer.len();
        if self.cursor >= len {
            return None;
        }
        if len - self.cursor < 3 {
            self.cursor = len;
            return Some(Err(WireError::MissingBytes));
        }
        let data_len = self.buffer[self.cursor + 2] as usize;
        if len - self.cursor - 3 < data_len {
            self.cursor = len;
            return Some(Err(WireError::MissingBytes));
        }
        let end = self.cursor + 3 + data_len;
        let bytes = copy_range(&self.buffer, self.cursor, end);
        self.cursor = end;
        Some(Ok(MTData2Packet::new_unchecked(bytes)))
    }
}

/// Packet decomposition: when a payload splits from `c` into whole
/// packets, those packets concatenated reproduce the payload from `c` to
/// its end — the iterator yields exactly the concatenated packets.
pub proof fn lemma_packet_seq_concat(b: Seq<u8>, c: int)
    requires
        0 <= c <= b.len(),
        spec_packets_from(b, c),
    ensures
        spec_packet_seq(b, c).flatten() == b.subrange(c, b.len() as int),
    decreases b.len() - c,
{
    if c == b.len() || !spec_packet_at(b, c) {
        assert(spec_packet_seq(b, c) =~= Seq::<Seq<u8>>::empty());
        assert(Seq::<Seq<u8>>::empty().flatten() =~= b.subrange(c, b.len() as int));
    } else {
        let step = 3 + b[c + 2];
        let head = b.subrange(c, c + step);
        let tail = spec_packet_seq(b, c + step);
        lemma_packet_seq_concat(b, c + step);
        let s = spec_packet_seq(b, c);
        assert(s == seq![head] + tail);
        assert(s.first() == head);
        assert(s.drop_first() =~= tail);
        assert(s.flatten() == head + tail.flatten());
        assert(head + b.subrange(c + step, b.len() as int) =~= b.subrange(c, b.len() as int));
    }
}

} // verus!
