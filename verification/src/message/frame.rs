//! The outer frame envelope: preamble, bus id, message id, length (standard
//! or extended), payload and checksum — with validation, accessors and
//! setters over an owned byte buffer.

use vstd::prelude::*;
use vstd::arithmetic::div_mod::{lemma_add_mod_noop, lemma_mod_mod, lemma_small_mod};
use crate::message::bus_id::BusId;
use crate::message::message_id::MessageId;
use crate::message::payload_length::PayloadLength;
use crate::wire::{be_u16, copy_range, read_u16_be};

verus! {

/// Why a byte buffer is not a valid frame. Each validation step of
/// [`Frame::new`] maps to one kind.
#[derive(Debug, Copy, Clone, PartialEq, Eq, Structural, Hash)]
pub enum FrameError {
    /// Buffer shorter than the 4-byte standard header.
    MissingHeader,
    /// Buffer holds a header but no room for the checksum byte.
    MissingChecksum,
    /// First byte is not `0xFA`.
    InvalidPreamble,
    /// Extended length missing or beyond the 2048-byte cap.
    InvalidPayloadLength,
    /// Declared payload plus checksum exceeds the buffer.
    IncompletePayload,
    /// Sum of bus id through checksum byte is not zero modulo 256.
    InvalidChecksum,
}

/// A frame over an owned byte buffer.
///
/// The view of a frame is the byte sequence it wraps; every contract speaks
/// of that sequence.
#[derive(Debug, Clone, PartialEq, Eq)]
pub struct Frame {
    buffer: Vec<u8>,
}

impl View for Frame {
    type V = Seq<u8>;

    closed spec fn view(&self) -> Seq<u8> {
        self.buffer@
    }
}

/// Sum of all bytes of `b`, as an unbounded integer.
pub open spec fn sum_of(b: Seq<u8>) -> int
    decreases b.len(),
{
    if b.len() == 0 {
        0
    } else {
        sum_of(b.drop_last()) + b.last()
    }
}

/// Appending one byte adds its value to the sum.
pub proof fn lemma_sum_of_push(b: Seq<u8>, v: u8)
    ensures
        sum_of(b.push(v)) == sum_of(b) + v,
{
    assert(b.push(v).drop_last() =~= b);
    assert(b.push(v).last() == v);
}

/// A byte sum splits off its first byte.
pub proof fn lemma_sum_of_cons(b: Seq<u8>)
    requires
        b.len() > 0,
    ensures
        sum_of(b) == b.first() + sum_of(b.drop_first()),
    decreases b.len(),
{
    if b.len() == 1 {
        assert(b.drop_first() =~= Seq::<u8>::empty());
        assert(b.drop_last() =~= Seq::<u8>::empty());
    } else {
        lemma_sum_of_cons(b.drop_last());
        assert(b.drop_last().first() == b.first());
        assert(b.drop_last().drop_first() =~= b.drop_first().drop_last());
        assert(b.drop_first().last() == b.last());
    }
}

/// A byte sum distributes over concatenation.
pub proof fn lemma_sum_of_append(a: Seq<u8>, b: Seq<u8>)
    ensures
        sum_of(a + b) == sum_of(a) + sum_of(b),
    decreases b.len(),
{
    if b.len() == 0 {
        assert(a + b =~= a);
    } else {
        assert((a + b).drop_last() =~= a + b.drop_last());
        assert((a + b).last() == b.last());
        lemma_sum_of_append(a, b.drop_last());
    }
}

/// A sum of bytes is never negative.
pub proof fn lemma_sum_of_nonneg(b: Seq<u8>)
    ensures
        sum_of(b) >= 0,
    decreases b.len(),
{
    if b.len() > 0 {
        lemma_sum_of_nonneg(b.drop_last());
    }
}

impl Frame {
    /// Leading byte of every frame.
    pub const PREAMBLE: u8 = 0xFA;

    /// Value of the standard length byte that announces an extended header.
    pub const STD_LEN_IS_EXT: u8 = 0xFF;

    /// Size of the standard header (preamble, bus id, message id, length).
    pub const HEADER_SIZE: usize = 4;

    /// Size of the extended length field.
    pub const EXT_LEN_SIZE: usize = 2;

    /// Size of the extended header.
    pub const EXT_HEADER_SIZE: usize = 6;

    pub const PREAMBLE_SIZE: usize = 1;

    pub const CHECKSUM_SIZE: usize = 1;

    /// Largest complete frame: extended header, maximal payload, checksum.
    pub const MAX_FRAME_SIZE: usize = 2055;

    /// Size of the header declared by the length byte: 6 when the byte
    /// announces an extended length, 4 otherwise.
    pub open spec fn spec_header_size(b: Seq<u8>) -> int
        recommends
            b.len() >= 4,
    {
        if b[3] == 0xFF {
            6
        } else {
            4
        }
    }

    /// The declared payload length, before any validation.
    pub open spec fn spec_raw_payload_len(b: Seq<u8>) -> int
        recommends
            b.len() >= Self::spec_header_size(b),
    {
        if b[3] == 0xFF {
            be_u16(b.subrange(4, 6))
        } else {
            b[3] as int
        }
    }

    /// The tagged payload length read from the header, or the error
    /// [`FrameError::InvalidPayloadLength`] when the extended length is
    /// missing or exceeds 2048.
    pub open spec fn spec_payload_length(b: Seq<u8>) -> Result<PayloadLength, FrameError>
        recommends
            b.len() >= 4,
    {
        if b[3] == 0xFF {
            if b.len() < 6 {
                Err(FrameError::InvalidPayloadLength)
            } else if be_u16(b.subrange(4, 6)) > 0x0800 {
                Err(FrameError::InvalidPayloadLength)
            } else {
                Ok(PayloadLength::Extended(be_u16(b.subrange(4, 6)) as u16))
            }
        } else {
            Ok(PayloadLength::Standard(b[3]))
        }
    }

    /// Total size the header declares: header, payload and checksum byte.
    pub open spec fn spec_frame_size(b: Seq<u8>) -> int
        recommends
            b.len() >= 4,
            Self::spec_payload_length(b) is Ok,
    {
        Self::spec_header_size(b) + Self::spec_raw_payload_len(b) + 1
    }

    /// The checksum over the declared frame: sum of all bytes from bus id
    /// through the trailing checksum byte, modulo 256.
    pub open spec fn spec_checksum(b: Seq<u8>) -> int
        recommends
            b.len() >= Self::spec_frame_size(b),
    {
        sum_of(b.subrange(1, Self::spec_frame_size(b))) % 256
    }

    /// A buffer holds a valid frame: room for header and checksum, the
    /// preamble byte, a declared length within bounds and within the buffer,
    /// and a zero checksum.
    pub open spec fn spec_valid(b: Seq<u8>) -> bool {
        &&& b.len() >= 5
        &&& b[0] == 0xFA
        &&& Self::spec_payload_length(b) is Ok
        &&& b.len() >= Self::spec_frame_size(b)
        &&& Self::spec_checksum(b) == 0
    }

    /// The payload bytes of the frame held by `b`: between the header and
    /// the checksum byte.
    pub open spec fn spec_payload_bytes(b: Seq<u8>) -> Seq<u8>
        recommends
            b.len() >= Self::spec_frame_size(b),
            Self::spec_payload_length(b) is Ok,
    {
        b.subrange(
            Self::spec_header_size(b),
            Self::spec_header_size(b) + Self::spec_raw_payload_len(b),
        )
    }

    /// Outcome of validation, with the error of the first failing step in
    /// the order [`Frame::new`] checks them.
    pub open spec fn spec_check(b: Seq<u8>) -> Result<(), FrameError> {
        if b.len() < 4 {
            Err(FrameError::MissingHeader)
        } else if b.len() < 5 {
            Err(FrameError::MissingChecksum)
        } else if b[0] != 0xFA {
            Err(FrameError::InvalidPreamble)
        } else {
            match Self::spec_payload_length(b) {
                Err(e) => Err(e),
                Ok(_) => {
                    if b.len() < Self::spec_frame_size(b) {
                        Err(FrameError::IncompletePayload)
                    } else if Self::spec_checksum(b) != 0 {
                        Err(FrameError::InvalidChecksum)
                    } else {
                        Ok(())
                    }
                },
            }
        }
    }

    /// Byte sequence of a frame built from the given fields with a correct
    /// checksum: preamble, bus id, message id, a length field chosen
    /// standard or extended by the payload size, the payload itself, and
    /// the checksum byte that makes the frame sum to zero modulo 256.
    pub open spec fn spec_build_frame(bus: u8, msg: u8, payload: Seq<u8>) -> Seq<u8> {
        let body = if payload.len() > 254 {
            seq![
                0xFAu8,
                bus,
                msg,
                0xFFu8,
                ((payload.len() as int) / 0x100) as u8,
                ((payload.len() as int) % 0x100) as u8,
            ] + payload
        } else {
            seq![0xFAu8, bus, msg, payload.len() as u8] + payload
        };
        body.push(((0x100 - sum_of(body.subrange(1, body.len() as int)) % 0x100) % 0x100) as u8)
    }

    /// Wrap a buffer without validating it.
    pub fn new_unchecked(buffer: Vec<u8>) -> (f: Frame)
        ensures
            f@ == buffer@,
    {
        Frame { buffer }
    }

    /// Wrap a buffer after validating, in order: header present, checksum
    /// byte present, preamble, payload length within bounds and buffer,
    /// checksum zero. Returns the frame exactly on valid buffers, and the
    /// error of the first failing step otherwise.
    pub fn new(buffer: Vec<u8>) -> (r: Result<Frame, FrameError>)
        ensures
            match r {
                Ok(f) => f@ == buffer@ && Self::spec_valid(buffer@),
                Err(e) => !Self::spec_valid(buffer@) && Self::spec_check(buffer@) == Err::<
                    (),
                    FrameError,
                >(e),
            },
    {
        let f = Self::new_unchecked(buffer);
        match f.check_len() {
            Err(e) => return Err(e),
            Ok(_) => (),
        }
        match f.check_preamble() {
            Err(e) => return Err(e),
            Ok(_) => (),
        }
        match f.check_payload_length() {
            Err(e) => return Err(e),
            Ok(_) => (),
        }
        match f.check_checksum() {
            Err(e) => return Err(e),
            Ok(_) => (),
        }
        Ok(f)
    }

    /// The buffer holds at least a standard header and a checksum byte.
    pub fn check_len(&self) -> (r: Result<(), FrameError>)
        ensures
            r == if self@.len() < 4 {
                Err::<(), FrameError>(FrameError::MissingHeader)
            } else if self@.len() < 5 {
                Err::<(), FrameError>(FrameError::MissingChecksum)
            } else {
                Ok::<(), FrameError>(())
            },
    {
        let len = self.buffer.len();
        if len < 4 {
            Err(FrameError::MissingHeader)
        } else if len < 5 {
            Err(FrameError::MissingChecksum)
        } else {
            Ok(())
        }
    }

    /// The first byte is the preamble `0xFA`.
    pub fn check_preamble(&self) -> (r: Result<(), FrameError>)
        requires
            self@.len() >= 1,
        ensures
            r == if self@[0] != 0xFA {
                Err::<(), FrameError>(FrameError::InvalidPreamble)
            } else {
                Ok::<(), FrameError>(())
            },
    {
        if self.preamble() != Self::PREAMBLE {
            Err(FrameError::InvalidPreamble)
        } else {
            Ok(())
        }
    }

    /// The declared payload length is readable, within bounds, and the
    /// buffer can hold header, payload and checksum.
    pub fn check_payload_length(&self) -> (r: Result<(), FrameError>)
        requires
            self@.len() >= 4,
        ensures
            r == match Self::spec_payload_length(self@) {
                Err(e) => Err::<(), FrameError>(e),
                Ok(_) => {
                    if self@.len() < 5 || self@.len() < Self::spec_frame_size(self@) {
                        Err::<(), FrameError>(FrameError::IncompletePayload)
                    } else {
                        Ok::<(), FrameError>(())
                    }
                },
            },
    {
        let pl = match self.payload_length() {
            Ok(pl) => pl,
            Err(e) => return Err(e),
        };
        let len = self.buffer.len();
        if len < 5 || len < pl.header_size() + pl.get() + 1 {
            Err(FrameError::IncompletePayload)
        } else {
            Ok(())
        }
    }

    /// The computed checksum is zero.
    pub fn check_checksum(&self) -> (r: Result<(), FrameError>)
        requires
            self@.len() >= 4,
            Self::spec_payload_length(self@) is Ok ==> self@.len() >= Self::spec_frame_size(self@),
        ensures
            r == match Self::spec_payload_length(self@) {
                Err(e) => Err::<(), FrameError>(e),
                Ok(_) => {
                    if Self::spec_checksum(self@) != 0 {
                        Err::<(), FrameError>(FrameError::InvalidChecksum)
                    } else {
                        Ok::<(), FrameError>(())
                    }
                },
            },
    {
        let computed = match self.compute_checksum() {
            Ok(c) => c,
            Err(e) => return Err(e),
        };
        if computed != 0 {
            Err(FrameError::InvalidChecksum)
        } else {
            Ok(())
        }
    }

    /// Give the buffer back.
    pub fn into_inner(self) -> (r: Vec<u8>)
        ensures
            r@ == self@,
    {
        self.buffer
    }

    /// Length of a standard message header, without extended length, payload
    /// or checksum byte.
    pub fn header_len() -> (r: usize)
        ensures
            r == 4,
    {
        4
    }

    /// Length of a buffer able to hold a message with `n_payload_bytes` of
    /// payload plus the checksum byte; chooses the extended header beyond
    /// 254 payload bytes.
    pub fn buffer_len(n_payload_bytes: usize) -> (r: usize)
        requires
            n_payload_bytes <= usize::MAX - 7,
        ensures
            r as int == if n_payload_bytes > 254 {
                n_payload_bytes + 7
            } else {
                n_payload_bytes + 5
            },
    {
        let header_size: usize = if n_payload_bytes > 254 {
            6
        } else {
            4
        };
        header_size + n_payload_bytes + 1
    }

    pub fn preamble(&self) -> (r: u8)
        requires
            self@.len() >= 1,
        ensures
            r == self@[0],
    {
        self.buffer[0]
    }

    pub fn bus_id(&self) -> (r: BusId)
        requires
            self@.len() >= 2,
        ensures
            r.0 == self@[1],
    {
        BusId(self.buffer[1])
    }

    pub fn message_id(&self) -> (r: MessageId)
        requires
            self@.len() >= 3,
        ensures
            r.0 == self@[2],
    {
        MessageId(self.buffer[2])
    }

    /// The tagged payload length, or [`FrameError::InvalidPayloadLength`]
    /// when the extended length is missing or exceeds 2048.
    pub fn payload_length(&self) -> (r: Result<PayloadLength, FrameError>)
        requires
            self@.len() >= 4,
        ensures
            r == Self::spec_payload_length(self@),
            r matches Ok(pl) ==> pl.wf() && pl.spec_header_size() == Self::spec_header_size(self@)
                && pl.spec_get() == Self::spec_raw_payload_len(self@),
    {
        let std_len = self.buffer[3];
        if std_len == Self::STD_LEN_IS_EXT {
            if self.buffer.len() < Self::EXT_HEADER_SIZE {
                Err(FrameError::InvalidPayloadLength)
            } else {
                let ext_len = read_u16_be(self.buffer.as_slice(), 4);
                if ext_len > PayloadLength::MAX_EXT {
                    Err(FrameError::InvalidPayloadLength)
                } else {
                    Ok(PayloadLength::Extended(ext_len))
                }
            }
        } else {
            Ok(PayloadLength::Standard(std_len))
        }
    }

    /// The trailing checksum byte, as declared by the payload length.
    pub fn checksum(&self) -> (r: Result<u8, FrameError>)
        requires
            self@.len() >= 4,
            Self::spec_payload_length(self@) is Ok ==> self@.len() >= Self::spec_frame_size(self@),
        ensures
            match r {
                Ok(c) => Self::spec_payload_length(self@) is Ok && c == self@[Self::spec_frame_size(
                    self@,
                ) - 1],
                Err(e) => Self::spec_payload_length(self@) == Err::<PayloadLength, FrameError>(e),
            },
    {
        let pl = match self.payload_length() {
            Ok(pl) => pl,
            Err(e) => return Err(e),
        };
        let offset = pl.header_size() + pl.get();
        Ok(self.buffer[offset])
    }

    /// Sum of all bytes of the declared frame excluding the preamble, as a
    /// 16-bit wrapping sum; returns its low byte. The frame is valid exactly
    /// when this is zero.
    pub fn compute_checksum(&self) -> (r: Result<u8, FrameError>)
        requires
            self@.len() >= 4,
            Self::spec_payload_length(self@) is Ok ==> self@.len() >= Self::spec_frame_size(self@),
        ensures
            match r {
                Ok(c) => Self::spec_payload_length(self@) is Ok && c as int == Self::spec_checksum(
                    self@,
                ),
                Err(e) => Self::spec_payload_length(self@) == Err::<PayloadLength, FrameError>(e),
            },
    {
        let pl = match self.payload_length() {
            Ok(pl) => pl,
            Err(e) => return Err(e),
        };
        let size = pl.header_size() + pl.get() + 1;
        let mut sum: u16 = 0;
        let mut i: usize = 1;
        while i < size
            invariant
                1 <= i <= size,
                size == Self::spec_frame_size(self@),
                self@.len() >= size,
                sum as int == sum_of(self@.subrange(1, i as int)) % 0x10000,
            decreases size - i,
        {
            let b = self.buffer[i];
            proof {
                let prefix = self@.subrange(1, i as int);
                assert(self@.subrange(1, i + 1) =~= prefix.push(self@[i as int]));
                lemma_sum_of_push(prefix, self@[i as int]);
                lemma_small_mod(b as nat, 0x10000);
                lemma_add_mod_noop(sum_of(prefix), b as int, 0x10000);
                lemma_mod_mod(sum_of(prefix), 0x10000, 1);
            }
            sum = sum.wrapping_add(b as u16);
            i = i + 1;
        }
        proof {
            lemma_mod_mod(sum_of(self@.subrange(1, size as int)), 0x100, 0x100);
        }
        Ok((sum % 0x100) as u8)
    }

    /// Copy of the payload bytes; excludes header and checksum byte.
    pub fn payload(&self) -> (r: Result<Vec<u8>, FrameError>)
        requires
            self@.len() >= 4,
            Self::spec_payload_length(self@) is Ok ==> self@.len() >= Self::spec_frame_size(self@),
        ensures
            match r {
                Ok(p) => Self::spec_payload_length(self@) is Ok && p@ == self@.subrange(
                    Self::spec_header_size(self@),
                    Self::spec_header_size(self@) + Self::spec_raw_payload_len(self@),
                ),
                Err(e) => Self::spec_payload_length(self@) == Err::<PayloadLength, FrameError>(e),
            },
    {
        let pl = match self.payload_length() {
            Ok(pl) => pl,
            Err(e) => return Err(e),
        };
        let start = pl.header_size();
        let end = start + pl.get();
        Ok(copy_range(&self.buffer, start, end))
    }

    /// Write the preamble byte.
    pub fn set_preamble(&mut self)
        requires
            old(self)@.len() >= 1,
        ensures
            final(self)@ == old(self)@.update(0, 0xFAu8),
    {
        self.buffer.set(0, Self::PREAMBLE);
    }

    /// Write the bus id byte.
    pub fn set_bus_id(&mut self, value: BusId)
        requires
            old(self)@.len() >= 2,
        ensures
            final(self)@ == old(self)@.update(1, value.0),
    {
        self.buffer.set(1, value.0);
    }

    /// Write the message id byte.
    pub fn set_message_id(&mut self, value: MessageId)
        requires
            old(self)@.len() >= 3,
        ensures
            final(self)@ == old(self)@.update(2, value.0),
    {
        self.buffer.set(2, value.0);
    }

    /// Write the length field: the standard length byte, or the extended
    /// marker followed by the 16-bit big-endian length.
    pub fn set_payload_length(&mut self, value: PayloadLength)
        requires
            value.wf(),
            old(self)@.len() >= value.spec_header_size(),
        ensures
            final(self)@ == match value {
                PayloadLength::Standard(l) => old(self)@.update(3, l),
                PayloadLength::Extended(l) => old(self)@.update(3, 0xFFu8).update(
                    4,
                    (l / 0x100) as u8,
                ).update(5, (l % 0x100) as u8),
            },
    {
        match value {
            PayloadLength::Standard(l) => {
                self.buffer.set(3, l);
            },
            PayloadLength::Extended(l) => {
                self.buffer.set(3, Self::STD_LEN_IS_EXT);
                self.buffer.set(4, (l / 0x100) as u8);
                self.buffer.set(5, (l % 0x100) as u8);
            },
        }
    }

    /// Overwrite the payload bytes with `src`, which must match the declared
    /// payload length exactly.
    pub fn set_payload(&mut self, src: &[u8]) -> (r: Result<(), FrameError>)
        requires
            old(self)@.len() >= 4,
            Self::spec_payload_length(old(self)@) is Ok ==> {
                &&& old(self)@.len() >= Self::spec_frame_size(old(self)@)
                &&& src@.len() == Self::spec_raw_payload_len(old(self)@)
            },
        ensures
            match r {
                Ok(_) => Self::spec_payload_length(old(self)@) is Ok && final(self)@
                    == old(self)@.subrange(0, Self::spec_header_size(old(self)@)) + src@ + old(
                    self,
                )@.subrange(
                    Self::spec_header_size(old(self)@) + Self::spec_raw_payload_len(old(self)@),
                    old(self)@.len() as int,
                ),
                Err(e) => Self::spec_payload_length(old(self)@) == Err::<PayloadLength, FrameError>(
                    e,
                ) && final(self)@ == old(self)@,
            },
    {
        let pl = match self.payload_length() {
            Ok(pl) => pl,
            Err(e) => return Err(e),
        };
        let start = pl.header_size();
        let n = pl.get();
        let buf_len: usize = self.buffer.len();
        let mut i: usize = 0;
        while i < n
            invariant
                0 <= i <= n,
                start + n + 1 <= buf_len,
                buf_len == self@.len(),
                src@.len() == n,
                self@.len() == old(self)@.len(),
                forall|j: int|
                    0 <= j < self@.len() ==> self@[j] == (if start <= j < start + i {
                        src@[j - start]
                    } else {
                        old(self)@[j]
                    }),
            decreases n - i,
        {
            self.buffer.set(start + i, src[i]);
            i = i + 1;
        }
        proof {
            assert(final(self)@ =~= old(self)@.subrange(0, start as int) + src@ + old(
                self,
            )@.subrange(start + n, old(self)@.len() as int));
        }
        Ok(())
    }

    /// Write the trailing checksum byte at the position the payload length
    /// declares.
    pub fn set_checksum(&mut self, value: u8) -> (r: Result<(), FrameError>)
        requires
            old(self)@.len() >= 4,
            Self::spec_payload_length(old(self)@) is Ok ==> old(self)@.len()
                >= Self::spec_frame_size(old(self)@),
        ensures
            match r {
                Ok(_) => Self::spec_payload_length(old(self)@) is Ok && final(self)@
                    == old(self)@.update(Self::spec_frame_size(old(self)@) - 1, value),
                Err(e) => Self::spec_payload_length(old(self)@) == Err::<PayloadLength, FrameError>(
                    e,
                ) && final(self)@ == old(self)@,
            },
    {
        let pl = match self.payload_length() {
            Ok(pl) => pl,
            Err(e) => return Err(e),
        };
        let offset = pl.header_size() + pl.get();
        self.buffer.set(offset, value);
        Ok(())
    }
}

/// Frame round trip: for any bus id, message id and payload of at most 2048
/// bytes, the frame built from those fields with a correct checksum is
/// valid, re-parsing it yields the same fields, and its computed checksum
/// is zero.
pub proof fn lemma_frame_round_trip(bus: u8, msg: u8, payload: Seq<u8>)
    requires
        payload.len() <= 2048,
    ensures
        ({
            let b = Frame::spec_build_frame(bus, msg, payload);
            &&& Frame::spec_valid(b)
            &&& b[0] == 0xFA
            &&& b[1] == bus
            &&& b[2] == msg
            &&& Frame::spec_payload_length(b) == Ok::<PayloadLength, FrameError>(
                if payload.len() > 254 {
                    PayloadLength::Extended(payload.len() as u16)
                } else {
                    PayloadLength::Standard(payload.len() as u8)
                },
            )
            &&& b.subrange(
                Frame::spec_header_size(b),
                Frame::spec_header_size(b) + Frame::spec_raw_payload_len(b),
            ) == payload
            &&& Frame::spec_checksum(b) == 0
        }),
{
    let n = payload.len() as int;
    let hs: int = if n > 254 {
        6
    } else {
        4
    };
    let body = if n > 254 {
        seq![0xFAu8, bus, msg, 0xFFu8, (n / 0x100) as u8, (n % 0x100) as u8] + payload
    } else {
        seq![0xFAu8, bus, msg, n as u8] + payload
    };
    let s = sum_of(body.subrange(1, body.len() as int));
    let cs = ((0x100 - s % 0x100) % 0x100) as u8;
    let b = Frame::spec_build_frame(bus, msg, payload);
    assert(b == body.push(cs));
    assert(b.len() == hs + n + 1);
    if n > 254 {
        assert(b[3] == 0xFF);
        vstd::arithmetic::div_mod::lemma_fundamental_div_mod(n, 0x100);
        assert(0 <= n / 0x100 < 0x100 && 0 <= n % 0x100 < 0x100) by (nonlinear_arith)
            requires
                0 <= n <= 2048,
        ;
        assert(b.subrange(4, 6) =~= seq![(n / 0x100) as u8, (n % 0x100) as u8]);
        assert(be_u16(b.subrange(4, 6)) == n);
        assert(Frame::spec_payload_length(b) == Ok::<PayloadLength, FrameError>(
            PayloadLength::Extended(n as u16),
        ));
    } else {
        assert(b[3] == n as u8);
        assert(b[3] != 0xFF);
        assert(Frame::spec_payload_length(b) == Ok::<PayloadLength, FrameError>(
            PayloadLength::Standard(n as u8),
        ));
    }
    assert(Frame::spec_raw_payload_len(b) == n);
    assert(Frame::spec_frame_size(b) == b.len());
    // The checksum byte closes the sum to a multiple of 256.
    lemma_sum_of_nonneg(body.subrange(1, body.len() as int));
    assert(b.subrange(1, b.len() as int) =~= body.subrange(1, body.len() as int).push(cs));
    lemma_sum_of_push(body.subrange(1, body.len() as int), cs);
    assert(sum_of(b.subrange(1, b.len() as int)) == s + cs);
    vstd::arithmetic::div_mod::lemma_fundamental_div_mod(s, 0x100);
    vstd::arithmetic::div_mod::lemma_mod_bound(s, 0x100);
    if s % 0x100 == 0 {
        assert(cs == 0);
        assert((s + cs) == 0x100 * (s / 0x100));
        vstd::arithmetic::div_mod::lemma_mod_multiples_basic(s / 0x100, 0x100);
    } else {
        assert(cs == 0x100 - s % 0x100);
        assert(s + cs == 0x100 * (s / 0x100 + 1)) by (nonlinear_arith)
            requires
                s == 0x100 * (s / 0x100) + s % 0x100,
                cs == 0x100 - s % 0x100,
        ;
        vstd::arithmetic::div_mod::lemma_mod_multiples_basic(s / 0x100 + 1, 0x100);
    }
    assert(Frame::spec_checksum(b) == 0);
    assert(b.subrange(hs, hs + n) =~= payload);
    assert(Frame::spec_valid(b));
}

} // verus!
