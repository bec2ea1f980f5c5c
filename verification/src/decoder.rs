//! Byte-at-a-time streaming frame decoder.
//!
//! The decoder recovers framing from an unsynchronized stream: it hunts for
//! the preamble, follows the standard/extended length dichotomy, accumulates
//! a running checksum, and yields a frame when a complete, checksum-valid
//! byte sequence has been gathered into its buffer. Recoverable framing
//! faults (an over-long extended length, a bad checksum) are consumed: the
//! invalid counter is bumped and the decoder returns to hunting for the
//! preamble. No failure is terminal for the stream: even after an append
//! overruns the buffer, the next preamble byte begins a new attempt.

use vstd::prelude::*;
use vstd::arithmetic::div_mod::{
    lemma_add_mod_noop_right,
    lemma_fundamental_div_mod,
    lemma_mod_mod,
    lemma_small_mod,
};
use crate::message::frame::{
    lemma_frame_round_trip,
    lemma_sum_of_append,
    lemma_sum_of_cons,
    lemma_sum_of_push,
    sum_of,
    Frame,
    FrameError,
};
use crate::message::payload_length::PayloadLength;
use crate::wire::copy_range;

verus! {

/// Errors surfaced by the streaming decoder.
#[derive(Debug, Copy, Clone, PartialEq, Eq, Structural, Hash)]
pub enum Error {
    /// The working buffer cannot store the frame (at construction: the
    /// buffer is smaller than a standard header plus a maximal standard
    /// payload).
    InsufficientBufferSize,
    /// A gathered byte sequence failed frame validation.
    FrameError(FrameError),
}

/// The decoder's position within a frame.
#[derive(Debug, Copy, Clone, PartialEq, Eq, Structural, Hash)]
pub enum State {
    Preamble,
    BusId,
    MsgId,
    Len,
    ExtLenMsb,
    ExtLenLsb,
    Payload,
    Checksum,
}

/// Mathematical model of a decoder: its state machine fields and the
/// contents of its working buffer.
pub struct DecoderModel {
    pub state: State,
    pub count: int,
    pub invalid_count: int,
    pub accumulated_checksum: int,
    pub raw_payload_len: int,
    pub expected_frame_size: int,
    pub bytes_read: int,
    pub buffer: Seq<u8>,
}

/// What one step of the state machine produced: nothing yet, a complete
/// frame of the given size at the start of the buffer, or a buffer overrun.
pub enum StepEmit {
    Progress,
    Frame(int),
    Overrun,
}

/// A counter bumped by one, saturating at the largest value its storage
/// can hold; counters never wrap.
pub open spec fn spec_sat_inc(c: int) -> int {
    if c == usize::MAX {
        c
    } else {
        c + 1
    }
}

/// Saturating counters never wrap: however often a counter is bumped, it
/// never exceeds the largest value its storage can hold, and a bump never
/// decreases it. At the maximum it stays at the maximum.
pub proof fn lemma_counter_saturates(c: int)
    requires
        0 <= c <= usize::MAX,
    ensures
        c <= spec_sat_inc(c) <= usize::MAX,
        c == usize::MAX ==> spec_sat_inc(c) == c,
{
}

/// The model after its volatile state is cleared: back to hunting for the
/// preamble, with counters and buffer untouched.
pub open spec fn spec_reset(m: DecoderModel) -> DecoderModel {
    DecoderModel {
        state: State::Preamble,
        accumulated_checksum: 0,
        raw_payload_len: 0,
        expected_frame_size: 0,
        bytes_read: 0,
        ..m
    }
}

/// The model after one byte is appended: the byte lands at the write
/// cursor, the checksum accumulator takes it modulo 2^16, and the cursor
/// advances.
pub open spec fn spec_feed(m: DecoderModel, byte: u8) -> DecoderModel
    recommends
        m.bytes_read < m.buffer.len(),
{
    DecoderModel {
        accumulated_checksum: (m.accumulated_checksum + byte) % 0x10000,
        buffer: m.buffer.update(m.bytes_read, byte),
        bytes_read: m.bytes_read + 1,
        ..m
    }
}

/// One transition of the streaming state machine on one input byte.
///
/// Mirrors the decoding table: a preamble miss clears volatile state; any
/// other byte is appended and accumulated; the length byte chooses the
/// no-payload, extended-length or standard-payload path; an assembled
/// extended length over 2048 counts one invalid frame and returns to the
/// preamble hunt; the checksum byte closes the frame, which is emitted
/// exactly when the accumulated sum is zero modulo 256. An append that
/// would overflow the buffer fails, clearing volatile state — no failure
/// is terminal for the stream: the next preamble byte begins a new
/// attempt. The counters move only as described; in particular neither
/// moves on a preamble miss or an overrun.
pub open spec fn spec_step(m: DecoderModel, byte: u8) -> (DecoderModel, StepEmit) {
    if m.state is Preamble && byte != 0xFA {
        (spec_reset(m), StepEmit::Progress)
    } else if m.bytes_read >= m.buffer.len() {
        (spec_reset(m), StepEmit::Overrun)
    } else {
        let f = spec_feed(m, byte);
        match m.state {
            State::Preamble => (
                DecoderModel { state: State::BusId, accumulated_checksum: 0, ..f },
                StepEmit::Progress,
            ),
            State::BusId => (DecoderModel { state: State::MsgId, ..f }, StepEmit::Progress),
            State::MsgId => (DecoderModel { state: State::Len, ..f }, StepEmit::Progress),
            State::Len => if byte == 0 {
                (
                    DecoderModel {
                        state: State::Checksum,
                        raw_payload_len: 0,
                        expected_frame_size: 5,
                        ..f
                    },
                    StepEmit::Progress,
                )
            } else if byte == 0xFF {
                (DecoderModel { state: State::ExtLenMsb, ..f }, StepEmit::Progress)
            } else {
                (
                    DecoderModel {
                        state: State::Payload,
                        raw_payload_len: byte as int,
                        expected_frame_size: 5 + byte,
                        ..f
                    },
                    StepEmit::Progress,
                )
            },
            State::ExtLenMsb => (
                DecoderModel { state: State::ExtLenLsb, raw_payload_len: byte as int, ..f },
                StepEmit::Progress,
            ),
            State::ExtLenLsb => {
                let assembled = m.raw_payload_len * 0x100 + byte;
                if assembled > 0x0800 {
                    (
                        DecoderModel {
                            invalid_count: spec_sat_inc(spec_reset(f).invalid_count),
                            ..spec_reset(f)
                        },
                        StepEmit::Progress,
                    )
                } else {
                    (
                        DecoderModel {
                            state: State::Payload,
                            raw_payload_len: assembled,
                            expected_frame_size: 7 + assembled,
                            ..f
                        },
                        StepEmit::Progress,
                    )
                }
            },
            State::Payload => if f.bytes_read + 1 >= m.expected_frame_size {
                (DecoderModel { state: State::Checksum, ..f }, StepEmit::Progress)
            } else {
                (f, StepEmit::Progress)
            },
            State::Checksum => if f.accumulated_checksum % 0x100 == 0 {
                (spec_reset(f), StepEmit::Frame(f.bytes_read))
            } else {
                (
                    DecoderModel {
                        invalid_count: spec_sat_inc(spec_reset(f).invalid_count),
                        ..spec_reset(f)
                    },
                    StepEmit::Progress,
                )
            },
        }
    }
}

/// Well-formedness of a decoder model: the buffer can hold a standard
/// header plus a maximal standard payload, the write cursor stays inside
/// the buffer, the accumulator and length registers fit their 16-bit
/// storage, the expected frame size never exceeds a maximal extended
/// frame, and the counters fit their storage.
pub open spec fn model_wf(m: DecoderModel) -> bool {
    &&& m.buffer.len() >= 258
    &&& 0 <= m.bytes_read <= m.buffer.len()
    &&& 0 <= m.accumulated_checksum < 0x10000
    &&& 0 <= m.raw_payload_len < 0x10000
    &&& m.state is ExtLenLsb ==> m.raw_payload_len < 0x100
    &&& 0 <= m.expected_frame_size <= 2055
    &&& 0 <= m.count <= usize::MAX
    &&& 0 <= m.invalid_count <= usize::MAX
}

/// The model after feeding every byte of `bytes`, in order.
pub open spec fn spec_run(m: DecoderModel, bytes: Seq<u8>) -> DecoderModel
    decreases bytes.len(),
{
    if bytes.len() == 0 {
        m
    } else {
        spec_run(spec_step(m, bytes.first()).0, bytes.drop_first())
    }
}

/// Feeding every byte of `bytes` makes progress quietly: no step emits a
/// frame, fails, or moves either counter.
pub open spec fn spec_run_quiet(m: DecoderModel, bytes: Seq<u8>) -> bool
    decreases bytes.len(),
{
    bytes.len() == 0 || {
        let (m1, em) = spec_step(m, bytes.first());
        &&& em is Progress
        &&& m1.count == m.count
        &&& m1.invalid_count == m.invalid_count
        &&& spec_run_quiet(m1, bytes.drop_first())
    }
}

/// The buffer with `bytes` written over it starting at `at`.
pub open spec fn spec_written(buf: Seq<u8>, at: int, bytes: Seq<u8>) -> Seq<u8> {
    Seq::new(buf.len(), |i: int| if at <= i < at + bytes.len() {
        bytes[i - at]
    } else {
        buf[i]
    })
}

/// A streaming decoder over an owned working buffer.
///
/// The view of a decoder is its [`DecoderModel`]; [`spec_step`] says how
/// every fed byte moves that model.
#[derive(Debug)]
pub struct Decoder {
    state: State,
    count: usize,
    invalid_count: usize,
    accumulated_checksum: u16,
    raw_payload_len: u16,
    expected_frame_size: usize,
    bytes_read: usize,
    buffer: Vec<u8>,
}

impl View for Decoder {
    type V = DecoderModel;

    closed spec fn view(&self) -> DecoderModel {
        DecoderModel {
            state: self.state,
            count: self.count as int,
            invalid_count: self.invalid_count as int,
            accumulated_checksum: self.accumulated_checksum as int,
            raw_payload_len: self.raw_payload_len as int,
            expected_frame_size: self.expected_frame_size as int,
            bytes_read: self.bytes_read as int,
            buffer: self.buffer@,
        }
    }
}

impl Decoder {
    /// The decoder is well-formed; established by [`Decoder::new`] and
    /// preserved by every method.
    pub open spec fn wf(&self) -> bool {
        model_wf(self@)
    }

    /// The buffer must hold at least a standard header plus a maximal
    /// standard payload.
    fn check_buffer(buffer: &Vec<u8>) -> (r: Result<(), Error>)
        ensures
            r == if buffer@.len() < 258 {
                Err::<(), Error>(Error::InsufficientBufferSize)
            } else {
                Ok::<(), Error>(())
            },
    {
        if buffer.len() < 4 + (PayloadLength::MAX_STD as usize) {
            Err(Error::InsufficientBufferSize)
        } else {
            Ok(())
        }
    }

    /// A fresh decoder over `buffer`, which must hold at least 258 bytes;
    /// smaller buffers are rejected with
    /// [`Error::InsufficientBufferSize`].
    pub fn new(buffer: Vec<u8>) -> (r: Result<Decoder, Error>)
        ensures
            match r {
                Ok(d) => buffer@.len() >= 258 && d.wf() && d@ == (DecoderModel {
                    state: State::Preamble,
                    count: 0,
                    invalid_count: 0,
                    accumulated_checksum: 0,
                    raw_payload_len: 0,
                    expected_frame_size: 0,
                    bytes_read: 0,
                    buffer: buffer@,
                }),
                Err(e) => buffer@.len() < 258 && e == Error::InsufficientBufferSize,
            },
    {
        match Self::check_buffer(&buffer) {
            Err(e) => Err(e),
            Ok(_) => Ok(
                Decoder {
                    state: State::Preamble,
                    count: 0,
                    invalid_count: 0,
                    accumulated_checksum: 0,
                    raw_payload_len: 0,
                    expected_frame_size: 0,
                    bytes_read: 0,
                    buffer,
                },
            ),
        }
    }

    /// Clear volatile state; counters and buffer are preserved.
    pub fn reset(&mut self)
        requires
            old(self).wf(),
        ensures
            final(self).wf(),
            final(self)@ == spec_reset(old(self)@),
    {
        self.state = State::Preamble;
        self.accumulated_checksum = 0;
        self.raw_payload_len = 0;
        self.expected_frame_size = 0;
        self.bytes_read = 0;
    }

    /// Number of valid frames decoded so far; non-decreasing and saturating.
    pub fn count(&self) -> (r: usize)
        ensures
            r as int == self@.count,
    {
        self.count
    }

    /// Number of invalid frame sequences consumed so far; non-decreasing
    /// and saturating.
    pub fn invalid_count(&self) -> (r: usize)
        ensures
            r as int == self@.invalid_count,
    {
        self.invalid_count
    }

    /// Exchange the working buffer for `new_buffer`, returning the old one.
    /// The new buffer is validated as at construction; volatile state is
    /// cleared and the counters are preserved.
    pub fn swap_buffer(&mut self, new_buffer: Vec<u8>) -> (r: Result<Vec<u8>, Error>)
        requires
            old(self).wf(),
        ensures
            final(self).wf(),
            match r {
                Ok(old_buffer) => new_buffer@.len() >= 258 && old_buffer@ == old(self)@.buffer
                    && final(self)@ == (DecoderModel {
                    buffer: new_buffer@,
                    ..spec_reset(old(self)@)
                }),
                Err(e) => new_buffer@.len() < 258 && e == Error::InsufficientBufferSize
                    && final(self)@ == old(self)@,
            },
    {
        match Self::check_buffer(&new_buffer) {
            Err(e) => Err(e),
            Ok(_) => {
                self.reset();
                let mut swapped = new_buffer;
                core::mem::swap(&mut self.buffer, &mut swapped);
                Ok(swapped)
            },
        }
    }

    /// Append one byte to the buffer and accumulate it into the running
    /// checksum. When the buffer is full the byte is not stored: the call
    /// fails and volatile state is cleared, so that the next preamble
    /// byte begins a new frame; the counters are untouched.
    fn feed(&mut self, byte: u8) -> (r: Result<(), Error>)
        requires
            old(self).wf(),
        ensures
            final(self).wf(),
            match r {
                Ok(_) => old(self)@.bytes_read < old(self)@.buffer.len() && final(self)@
                    == spec_feed(old(self)@, byte),
                Err(e) => old(self)@.bytes_read >= old(self)@.buffer.len() && e
                    == Error::InsufficientBufferSize && final(self)@ == spec_reset(old(self)@),
            },
    {
        if self.bytes_read >= self.buffer.len() {
            self.reset();
            Err(Error::InsufficientBufferSize)
        } else {
            self.accumulated_checksum = self.accumulated_checksum.wrapping_add(byte as u16);
            self.buffer.set(self.bytes_read, byte);
            self.bytes_read = self.bytes_read + 1;
            Ok(())
        }
    }

    /// Bump the invalid counter, saturating.
    fn inc_invalid_count(&mut self)
        requires
            old(self).wf(),
        ensures
            final(self).wf(),
            final(self)@ == (DecoderModel {
                invalid_count: spec_sat_inc(old(self)@.invalid_count),
                ..old(self)@
            }),
    {
        self.invalid_count = self.invalid_count.saturating_add(1);
    }

    /// Run one state-machine transition; on the checksum transition of a
    /// frame whose accumulated sum closed to zero, return the frame's size.
    fn decode_inner(&mut self, byte: u8) -> (r: Result<Option<usize>, Error>)
        requires
            old(self).wf(),
        ensures
            final(self).wf(),
            ({
                let (m2, em) = spec_step(old(self)@, byte);
                &&& final(self)@ == m2
                &&& match r {
                    Ok(Some(n)) => em == StepEmit::Frame(n as int)
                        && n as int <= final(self)@.buffer.len(),
                    Ok(None) => em == StepEmit::Progress,
                    Err(e) => em == StepEmit::Overrun && e == Error::InsufficientBufferSize,
                }
            }),
    {
        match self.state {
            State::Preamble => {
                if byte == Frame::PREAMBLE {
                    match self.feed(byte) {
                        Err(e) => return Err(e),
                        Ok(_) => (),
                    }
                    // The checksum never includes the preamble byte.
                    self.accumulated_checksum = 0;
                    self.state = State::BusId;
                } else {
                    self.reset();
                }
            },
            State::BusId => {
                match self.feed(byte) {
                    Err(e) => return Err(e),
                    Ok(_) => (),
                }
                self.state = State::MsgId;
            },
            State::MsgId => {
                match self.feed(byte) {
                    Err(e) => return Err(e),
                    Ok(_) => (),
                }
                self.state = State::Len;
            },
            State::Len => {
                match self.feed(byte) {
                    Err(e) => return Err(e),
                    Ok(_) => (),
                }
                if byte == 0 {
                    // Message with no payload.
                    self.raw_payload_len = 0;
                    self.expected_frame_size = 5;
                    self.state = State::Checksum;
                } else if byte == Frame::STD_LEN_IS_EXT {
                    // Message with extended payload.
                    self.state = State::ExtLenMsb;
                } else {
                    // Message with standard payload.
                    self.raw_payload_len = byte as u16;
                    self.expected_frame_size = 5 + (byte as usize);
                    self.state = State::Payload;
                }
            },
            State::ExtLenMsb => {
                match self.feed(byte) {
                    Err(e) => return Err(e),
                    Ok(_) => (),
                }
                self.raw_payload_len = byte as u16;
                self.state = State::ExtLenLsb;
            },
            State::ExtLenLsb => {
                match self.feed(byte) {
                    Err(e) => return Err(e),
                    Ok(_) => (),
                }
                let assembled: u16 = self.raw_payload_len * 0x100 + (byte as u16);
                if assembled > PayloadLength::MAX_EXT {
                    // Over-long declared length: consumed as one invalid
                    // frame; back to hunting for the preamble.
                    self.reset();
                    self.inc_invalid_count();
                } else {
                    self.raw_payload_len = assembled;
                    self.expected_frame_size = 7 + (assembled as usize);
                    self.state = State::Payload;
                }
            },
            State::Payload => {
                match self.feed(byte) {
                    Err(e) => return Err(e),
                    Ok(_) => (),
                }
                if self.bytes_read.saturating_add(1) >= self.expected_frame_size {
                    self.state = State::Checksum;
                }
            },
            State::Checksum => {
                match self.feed(byte) {
                    Err(e) => return Err(e),
                    Ok(_) => (),
                }
                let accumulated_checksum = self.accumulated_checksum;
                let bytes_read = self.bytes_read;
                self.reset();
                if accumulated_checksum % 0x100 == 0 {
                    return Ok(Some(bytes_read));
                } else {
                    self.inc_invalid_count();
                }
            },
        }
        Ok(None)
    }

    /// Feed one byte; when it completes a checksum-valid byte sequence,
    /// validate it and yield the frame, counting it as valid or invalid.
    pub fn decode(&mut self, byte: u8) -> (r: Result<Option<Frame>, Error>)
        requires
            old(self).wf(),
        ensures
            final(self).wf(),
            ({
                let (m2, em) = spec_step(old(self)@, byte);
                match em {
                    StepEmit::Progress => final(self)@ == m2 && r matches Ok(None),
                    StepEmit::Overrun => final(self)@ == m2 && (r matches Err(e) && e
                        == Error::InsufficientBufferSize),
                    StepEmit::Frame(n) => {
                        let fb = m2.buffer.subrange(0, n);
                        if Frame::spec_valid(fb) {
                            &&& r matches Ok(Some(f)) && f@ == fb
                            &&& final(self)@ == (DecoderModel {
                                count: spec_sat_inc(m2.count),
                                ..m2
                            })
                        } else {
                            &&& r matches Err(e) && Frame::spec_check(fb) matches Err(fe) && e
                                == Error::FrameError(fe)
                            &&& final(self)@ == (DecoderModel {
                                invalid_count: spec_sat_inc(m2.invalid_count),
                                ..m2
                            })
                        }
                    },
                }
            }),
    {
        match self.decode_inner(byte) {
            Err(e) => Err(e),
            Ok(None) => Ok(None),
            Ok(Some(frame_size)) => {
                let bytes = copy_range(&self.buffer, 0, frame_size);
                match Frame::new(bytes) {
                    Ok(f) => {
                        self.count = self.count.saturating_add(1);
                        Ok(Some(f))
                    },
                    Err(e) => {
                        self.invalid_count = self.invalid_count.saturating_add(1);
                        Err(Error::FrameError(e))
                    },
                }
            },
        }
    }

    /// Like [`Decoder::decode`], but yields only the size of the decoded
    /// frame, which sits at the start of the working buffer.
    pub fn decode_frameless(&mut self, byte: u8) -> (r: Result<Option<usize>, Error>)
        requires
            old(self).wf(),
        ensures
            final(self).wf(),
            ({
                let (m2, em) = spec_step(old(self)@, byte);
                match em {
                    StepEmit::Progress => final(self)@ == m2 && r matches Ok(None),
                    StepEmit::Overrun => final(self)@ == m2 && (r matches Err(e) && e
                        == Error::InsufficientBufferSize),
                    StepEmit::Frame(n) => {
                        let fb = m2.buffer.subrange(0, n);
                        if Frame::spec_valid(fb) {
                            &&& r matches Ok(Some(sz)) && sz as int == n
                            &&& final(self)@ == (DecoderModel {
                                count: spec_sat_inc(m2.count),
                                ..m2
                            })
                        } else {
                            &&& r matches Err(e) && Frame::spec_check(fb) matches Err(fe) && e
                                == Error::FrameError(fe)
                            &&& final(self)@ == (DecoderModel {
                                invalid_count: spec_sat_inc(m2.invalid_count),
                                ..m2
                            })
                        }
                    },
                }
            }),
    {
        match self.decode(byte) {
            Err(e) => Err(e),
            Ok(None) => Ok(None),
            Ok(Some(f)) => {
                let buf = f.into_inner();
                Ok(Some(buf.len()))
            },
        }
    }
}

/// Running a byte sequence extended by one byte is running the sequence,
/// then stepping on that byte.
pub proof fn lemma_run_snoc(m: DecoderModel, bytes: Seq<u8>, last: u8)
    ensures
        spec_run(m, bytes.push(last)) == spec_step(spec_run(m, bytes), last).0,
    decreases bytes.len(),
{
    let snoc = bytes.push(last);
    assert(snoc.len() == bytes.len() + 1);
    assert(spec_run(m, snoc) == spec_run(spec_step(m, snoc.first()).0, snoc.drop_first()));
    if bytes.len() == 0 {
        assert(snoc.first() == last);
        assert(snoc.drop_first() =~= Seq::<u8>::empty());
        assert(spec_run(m, bytes) == m);
    } else {
        assert(snoc.first() == bytes.first());
        assert(snoc.drop_first() =~= bytes.drop_first().push(last));
        lemma_run_snoc(spec_step(m, bytes.first()).0, bytes.drop_first(), last);
        assert(spec_run(m, bytes) == spec_run(spec_step(m, bytes.first()).0, bytes.drop_first()));
    }
}

/// Preamble misses are skipped: a decoder hunting for the preamble with
/// clear volatile state consumes any sequence of bytes other than `0xFA`
/// without changing at all — in particular both counters stay put.
pub proof fn lemma_noise_is_skipped(m: DecoderModel, noise: Seq<u8>)
    requires
        m == spec_reset(m),
        forall|i: int| 0 <= i < noise.len() ==> noise[i] != 0xFA,
    ensures
        spec_run(m, noise) == m,
        spec_run_quiet(m, noise),
    decreases noise.len(),
{
    if noise.len() == 0 {
        assert(spec_run(m, noise) == m);
        assert(spec_run_quiet(m, noise));
    } else {
        assert(noise.first() != 0xFA);
        let (m1, em) = spec_step(m, noise.first());
        assert(m1 == m && em is Progress);
        lemma_noise_is_skipped(m, noise.drop_first());
        assert(spec_run(m, noise) == spec_run(m1, noise.drop_first()));
        assert(spec_run_quiet(m, noise) == (em is Progress && m1.count == m.count
            && m1.invalid_count == m.invalid_count && spec_run_quiet(m1, noise.drop_first())));
    }
}

/// Feeding the remaining payload bytes of a frame being gathered: every
/// byte is appended quietly and accumulated, and the last one moves the
/// decoder to the checksum state.
proof fn lemma_payload_run(m: DecoderModel, bytes: Seq<u8>)
    requires
        m.state is Payload,
        bytes.len() >= 1,
        m.bytes_read >= 0,
        m.bytes_read + bytes.len() + 1 == m.expected_frame_size,
        m.expected_frame_size <= m.buffer.len(),
    ensures
        spec_run_quiet(m, bytes),
        spec_run(m, bytes) == (DecoderModel {
            state: State::Checksum,
            accumulated_checksum: (m.accumulated_checksum + sum_of(bytes))
                % 0x10000,
            bytes_read: m.bytes_read + bytes.len(),
            buffer: spec_written(m.buffer, m.bytes_read, bytes),
            ..m
        }),
    decreases bytes.len(),
{
    let b0 = bytes.first();
    let rest = bytes.drop_first();
    assert(m.bytes_read < m.buffer.len());
    let (m1, em) = spec_step(m, b0);
    assert(spec_run(m, bytes) == spec_run(m1, rest));
    lemma_sum_of_cons(bytes);
    if bytes.len() == 1 {
        assert(m1.state is Checksum);
        assert(sum_of(rest) == 0);
        assert(spec_run(m1, rest) == m1);
        assert(spec_run_quiet(m1, rest));
        assert(m1.buffer =~= spec_written(m.buffer, m.bytes_read, bytes));
    } else {
        assert(m1.state is Payload);
        lemma_payload_run(m1, rest);
        lemma_add_mod_noop_right(
            sum_of(rest),
            m.accumulated_checksum + b0,
            0x10000,
        );
        assert(spec_written(m1.buffer, m1.bytes_read, rest) =~= spec_written(
            m.buffer,
            m.bytes_read,
            bytes,
        ));
    }
    assert(spec_run_quiet(m, bytes) == (em is Progress && m1.count == m.count
        && m1.invalid_count == m.invalid_count && spec_run_quiet(m1, rest)));
}

/// Streaming a well-formed frame: a decoder hunting for the preamble with
/// clear volatile state consumes the frame's bytes quietly, emits the
/// frame — which is valid — on its final byte, and returns to the hunt
/// with both counters untouched.
pub proof fn lemma_frame_stream_decodes(m: DecoderModel, bus: u8, msg: u8, payload: Seq<u8>)
    requires
        m == spec_reset(m),
        payload.len() <= 2048,
        m.buffer.len() >= Frame::spec_build_frame(bus, msg, payload).len(),
    ensures
        ({
            let fb = Frame::spec_build_frame(bus, msg, payload);
            let before = spec_run(m, fb.drop_last());
            let m2 = spec_run(m, fb);
            &&& spec_run_quiet(m, fb.drop_last())
            &&& spec_step(before, fb.last()).1 == StepEmit::Frame(fb.len() as int)
            &&& m2 == spec_step(before, fb.last()).0
            &&& m2 == spec_reset(m2)
            &&& m2.count == m.count
            &&& m2.invalid_count == m.invalid_count
            &&& m2.buffer.len() == m.buffer.len()
            &&& m2.buffer.subrange(0, fb.len() as int) == fb
            &&& Frame::spec_valid(fb)
        }),
{
    let fb = Frame::spec_build_frame(bus, msg, payload);
    lemma_frame_round_trip(bus, msg, payload);
    let s_all = sum_of(fb.subrange(1, fb.len() as int));
    lemma_frame_stream_header(m, bus, msg, payload);
    assert(s_all % 0x100 == 0) by {
        assert(Frame::spec_frame_size(fb) == fb.len());
        assert(Frame::spec_checksum(fb) == 0);
    }
    lemma_stream_final_step(m, spec_run(m, fb.drop_last()), fb, s_all);
}

/// Streaming all but the last byte of a well-formed frame: the header and
/// payload are consumed quietly, and the decoder ends up awaiting the
/// checksum byte with the frame's head in its buffer and the frame's sum
/// (less the checksum byte) in its accumulator.
#[verifier::rlimit(100)]
proof fn lemma_frame_stream_header(m: DecoderModel, bus: u8, msg: u8, payload: Seq<u8>)
    requires
        m == spec_reset(m),
        payload.len() <= 2048,
        m.buffer.len() >= Frame::spec_build_frame(bus, msg, payload).len(),
    ensures
        ({
            let fb = Frame::spec_build_frame(bus, msg, payload);
            let before = spec_run(m, fb.drop_last());
            let s_all = sum_of(fb.subrange(1, fb.len() as int));
            &&& spec_run_quiet(m, fb.drop_last())
            &&& before.state is Checksum
            &&& before.count == m.count
            &&& before.invalid_count == m.invalid_count
            &&& before.buffer.len() == m.buffer.len()
            &&& before.bytes_read == fb.len() - 1
            &&& before.accumulated_checksum == (s_all - fb.last()) % 0x10000
            &&& before.buffer.subrange(0, fb.len() - 1) == fb.drop_last()
        }),
{
    let n = payload.len() as int;
    let hs: int = if n > 254 {
        6
    } else {
        4
    };
    lemma_frame_round_trip(bus, msg, payload);
    let fb = Frame::spec_build_frame(bus, msg, payload);
    assert(fb.len() == hs + n + 1);
    let body = fb.drop_last();
    let cs = fb.last();
    assert(fb[0] == 0xFA);
    assert(fb[1] == bus);
    assert(fb[2] == msg);
    // Remaining input from position k of the body.
    let tail1 = body.subrange(1, hs + n);
    let tail2 = body.subrange(2, hs + n);
    let tail3 = body.subrange(3, hs + n);
    let tail4 = body.subrange(4, hs + n);
    assert(body.first() == fb[0] && body.drop_first() =~= tail1);
    assert(tail1.first() == fb[1] && tail1.drop_first() =~= tail2);
    assert(tail2.first() == fb[2] && tail2.drop_first() =~= tail3);
    assert(tail3.first() == fb[3] && tail3.drop_first() =~= tail4);
    // The four leading steps: preamble, bus id, message id, length byte.
    assert(m.bytes_read == 0 && 0 < m.buffer.len());
    let s1 = spec_step(m, fb[0]).0;
    let s2 = spec_step(s1, fb[1]).0;
    let s3 = spec_step(s2, fb[2]).0;
    let s4 = spec_step(s3, fb[3]).0;
    assert(spec_run(m, body) == spec_run(s1, tail1));
    assert(spec_run(s1, tail1) == spec_run(s2, tail2));
    assert(spec_run(s2, tail2) == spec_run(s3, tail3));
    assert(spec_run(s3, tail3) == spec_run(s4, tail4));
    lemma_small_mod(bus as nat, 0x10000);
    lemma_small_mod((bus + msg) as nat, 0x10000);
    assert(s2.accumulated_checksum == bus as int);
    assert(s3.accumulated_checksum == bus + msg);
    // The sum of everything the checksum covers, less the checksum byte.
    let covered = fb.subrange(1, hs + n + 1);
    assert(covered =~= tail1.push(cs));
    lemma_sum_of_push(tail1, cs);
    let s_all = sum_of(covered);
    assert(s_all - cs == sum_of(tail1));
    if n > 254 {
        assert(fb[3] == 0xFF);
        assert(s4.state is ExtLenMsb && s4.bytes_read == 4);
        lemma_small_mod((bus + msg + 0xFF) as nat, 0x10000);
        assert(s4.accumulated_checksum == bus + msg + 0xFF);
        assert(s4.buffer.subrange(0, 4) =~= fb.subrange(0, 4));
        assert(spec_run_quiet(s4, tail4) ==> spec_run_quiet(s3, tail3));
        assert(spec_run_quiet(s3, tail3) ==> spec_run_quiet(s2, tail2));
        assert(spec_run_quiet(s2, tail2) ==> spec_run_quiet(s1, tail1));
        assert(spec_run_quiet(s1, tail1) ==> spec_run_quiet(m, body));
        lemma_frame_stream_ext_tail(m, s4, bus, msg, payload);
    } else if n == 0 {
        assert(fb[3] == 0u8);
        assert(s4.state is Checksum && s4.expected_frame_size == 5 && s4.bytes_read == 4);
        assert(s4.accumulated_checksum == bus + msg);
        assert(tail4.len() == 0);
        assert(spec_run(s4, tail4) == s4);
        assert(spec_run_quiet(s4, tail4));
        assert(spec_run_quiet(s3, tail3));
        assert(spec_run_quiet(s2, tail2));
        assert(spec_run_quiet(s1, tail1));
        assert(spec_run_quiet(m, body));
        assert(tail1 =~= seq![bus, msg, 0u8]);
        lemma_sum_of_three(bus, msg, 0u8);
        assert(sum_of(tail1) == bus + msg);
        assert(s4.buffer.subrange(0, hs + n) =~= body);
    } else {
        let len_byte = fb[3];
        assert(len_byte == n as u8);
        assert(len_byte != 0 && len_byte != 0xFF);
        assert(s4.state is Payload && s4.expected_frame_size == 5 + n && s4.bytes_read == 4);
        lemma_small_mod((bus + msg + n) as nat, 0x10000);
        assert(s4.accumulated_checksum == bus + msg + n);
        assert(tail4 =~= payload);
        lemma_payload_run(s4, payload);
        let m_p = spec_run(s4, payload);
        assert(spec_run(m, body) == m_p);
        assert(spec_run_quiet(s3, tail3));
        assert(spec_run_quiet(s2, tail2));
        assert(spec_run_quiet(s1, tail1));
        assert(spec_run_quiet(m, body));
        let s_hdr = bus + msg + n;
        lemma_add_mod_noop_right(
            sum_of(payload),
            s_hdr,
            0x10000,
        );
        assert(m_p.accumulated_checksum == (s_hdr + sum_of(payload))
            % 0x10000);
        let hdr_rest = seq![bus, msg, len_byte];
        assert(tail1 =~= hdr_rest + payload);
        lemma_sum_of_append(hdr_rest, payload);
        lemma_sum_of_three(bus, msg, len_byte);
        assert(sum_of(tail1) == s_hdr + sum_of(
            payload,
        ));
        assert(m_p.buffer.subrange(0, hs + n) =~= body);
    }
}

/// The extended-header part of [`lemma_frame_stream_header`]: from the
/// length byte `0xFF` on, the two extended length bytes and the payload
/// are consumed quietly.
#[verifier::rlimit(100)]
proof fn lemma_frame_stream_ext_tail(
    m: DecoderModel,
    s4: DecoderModel,
    bus: u8,
    msg: u8,
    payload: Seq<u8>,
)
    requires
        m == spec_reset(m),
        254 < payload.len() <= 2048,
        m.buffer.len() >= Frame::spec_build_frame(bus, msg, payload).len(),
        ({
            let fb = Frame::spec_build_frame(bus, msg, payload);
            let s1 = spec_step(m, fb[0]).0;
            let s2 = spec_step(s1, fb[1]).0;
            let s3 = spec_step(s2, fb[2]).0;
            &&& s4 == spec_step(s3, fb[3]).0
            &&& s4.accumulated_checksum == bus + msg + 0xFF
            &&& spec_run(m, fb.drop_last()) == spec_run(s4, fb.drop_last().subrange(
                4,
                fb.len() - 1,
            ))
            &&& (spec_run_quiet(s4, fb.drop_last().subrange(4, fb.len() - 1)) ==> spec_run_quiet(
                m,
                fb.drop_last(),
            ))
            &&& s4.state is ExtLenMsb
            &&& s4.bytes_read == 4
            &&& s4.count == m.count
            &&& s4.invalid_count == m.invalid_count
            &&& s4.buffer.len() == m.buffer.len()
            &&& s4.buffer.subrange(0, 4) == fb.subrange(0, 4)
        }),
    ensures
        ({
            let fb = Frame::spec_build_frame(bus, msg, payload);
            let before = spec_run(m, fb.drop_last());
            let tail1 = fb.drop_last().subrange(1, fb.len() - 1);
            &&& spec_run_quiet(m, fb.drop_last())
            &&& before.state is Checksum
            &&& before.count == m.count
            &&& before.invalid_count == m.invalid_count
            &&& before.buffer.len() == m.buffer.len()
            &&& before.bytes_read == fb.len() - 1
            &&& before.accumulated_checksum == sum_of(tail1) % 0x10000
            &&& before.buffer.subrange(0, fb.len() - 1) == fb.drop_last()
        }),
{
    let n = payload.len() as int;
    let hs: int = 6;
    let fb = Frame::spec_build_frame(bus, msg, payload);
    assert(fb.len() == hs + n + 1);
    let body = fb.drop_last();
    let hi = fb[4];
    let lo = fb[5];
    assert(hi == ((n / 0x100) as u8) && lo == ((n % 0x100) as u8));
    lemma_fundamental_div_mod(n, 0x100);
    assert(0 <= n / 0x100 < 0x100 && 0 <= n % 0x100 < 0x100) by (nonlinear_arith)
        requires
            0 <= n <= 2048,
    ;
    let tail4 = body.subrange(4, hs + n);
    let tail5 = body.subrange(5, hs + n);
    let tail6 = body.subrange(6, hs + n);
    assert(tail4.first() == hi && tail4.drop_first() =~= tail5);
    assert(tail5.first() == lo && tail5.drop_first() =~= tail6);
    let s5 = spec_step(s4, hi).0;
    let s6 = spec_step(s5, lo).0;
    assert(spec_run(s4, tail4) == spec_run(s5, tail5));
    assert(spec_run(s5, tail5) == spec_run(s6, tail6));
    assert(s5.state is ExtLenLsb && s5.raw_payload_len == hi as int);
    assert((hi as int) * 0x100 + lo == n);
    assert(s6.state is Payload && s6.expected_frame_size == 7 + n && s6.bytes_read == 6);
    lemma_small_mod((bus + msg + 0xFF) as nat, 0x10000);
    lemma_small_mod((bus + msg + 0xFF + hi) as nat, 0x10000);
    lemma_small_mod((bus + msg + 0xFF + hi + lo) as nat, 0x10000);
    assert(s6.accumulated_checksum == bus + msg + 0xFF + hi + lo);
    assert(tail6 =~= payload);
    lemma_payload_run(s6, payload);
    let m_p = spec_run(s6, payload);
    assert(spec_run(m, body) == m_p);
    assert(spec_run_quiet(s6, tail6));
    assert(spec_run_quiet(s5, tail5));
    assert(spec_run_quiet(s4, tail4));
    assert(spec_run_quiet(m, body));
    let s_hdr = bus + msg + 0xFF + hi + lo;
    assert(m_p.accumulated_checksum == (s_hdr + sum_of(payload)) % 0x10000) by {
        lemma_add_mod_noop_right(sum_of(payload), s_hdr, 0x10000);
    }
    let tail1 = body.subrange(1, hs + n);
    assert(sum_of(tail1) == s_hdr + sum_of(payload)) by {
        let hdr_rest = seq![bus, msg, 0xFFu8, hi, lo];
        assert(tail1 =~= hdr_rest + payload);
        lemma_sum_of_append(hdr_rest, payload);
        lemma_sum_of_five(bus, msg, 0xFFu8, hi, lo);
    }
    assert(m_p.buffer.subrange(0, hs + n) =~= body);
}

/// The sum of a three-byte sequence literal.
proof fn lemma_sum_of_three(a: u8, b: u8, c: u8)
    ensures
        sum_of(seq![a, b, c]) == a + b + c,
{
    assert(seq![a] =~= Seq::<u8>::empty().push(a));
    lemma_sum_of_push(Seq::<u8>::empty(), a);
    assert(seq![a, b] =~= seq![a].push(b));
    lemma_sum_of_push(seq![a], b);
    assert(seq![a, b, c] =~= seq![a, b].push(c));
    lemma_sum_of_push(seq![a, b], c);
}

/// The sum of a five-byte sequence literal.
proof fn lemma_sum_of_five(a: u8, b: u8, c: u8, d: u8, e: u8)
    ensures
        sum_of(seq![a, b, c, d, e]) == a + b + c + d + e,
{
    lemma_sum_of_three(a, b, c);
    assert(seq![a, b, c, d] =~= seq![a, b, c].push(d));
    lemma_sum_of_push(seq![a, b, c], d);
    assert(seq![a, b, c, d, e] =~= seq![a, b, c, d].push(e));
    lemma_sum_of_push(seq![a, b, c, d], e);
}


/// Running a concatenation is running the first part, then the second.
pub proof fn lemma_run_append(m: DecoderModel, a: Seq<u8>, b: Seq<u8>)
    ensures
        spec_run(m, a + b) == spec_run(spec_run(m, a), b),
    decreases a.len(),
{
    if a.len() == 0 {
        assert(a + b =~= b);
    } else {
        assert((a + b).first() == a.first());
        assert((a + b).drop_first() =~= a.drop_first() + b);
        lemma_run_append(spec_step(m, a.first()).0, a.drop_first(), b);
    }
}

/// Two quiet runs in a row make one quiet run.
pub proof fn lemma_quiet_append(m: DecoderModel, a: Seq<u8>, b: Seq<u8>)
    requires
        spec_run_quiet(m, a),
        spec_run_quiet(spec_run(m, a), b),
    ensures
        spec_run_quiet(m, a + b),
    decreases a.len(),
{
    if a.len() == 0 {
        assert(a + b =~= b);
        assert(spec_run(m, a) == m);
    } else {
        assert((a + b).first() == a.first());
        assert((a + b).drop_first() =~= a.drop_first() + b);
        let m1 = spec_step(m, a.first()).0;
        assert(spec_run(m, a) == spec_run(m1, a.drop_first()));
        lemma_quiet_append(m1, a.drop_first(), b);
    }
}

/// Streaming resynchronization: a decoder hunting for the preamble that is
/// fed any prefix of non-preamble noise followed by a well-formed frame
/// consumes every byte before the frame's last one quietly — no emission,
/// no counter movement, so the noise leaves the invalid count untouched —
/// and emits exactly that frame, valid, on the final byte.
pub proof fn lemma_streaming_resynchronization(
    m: DecoderModel,
    noise: Seq<u8>,
    bus: u8,
    msg: u8,
    payload: Seq<u8>,
)
    requires
        m == spec_reset(m),
        forall|i: int| 0 <= i < noise.len() ==> noise[i] != 0xFA,
        payload.len() <= 2048,
        m.buffer.len() >= Frame::spec_build_frame(bus, msg, payload).len(),
    ensures
        ({
            let fb = Frame::spec_build_frame(bus, msg, payload);
            let input = noise + fb;
            let before = spec_run(m, input.drop_last());
            let m2 = spec_run(m, input);
            &&& spec_run_quiet(m, input.drop_last())
            &&& spec_step(before, input.last()).1 == StepEmit::Frame(fb.len() as int)
            &&& m2.count == m.count
            &&& m2.invalid_count == m.invalid_count
            &&& m2.buffer.subrange(0, fb.len() as int) == fb
            &&& Frame::spec_valid(fb)
        }),
{
    let fb = Frame::spec_build_frame(bus, msg, payload);
    let input = noise + fb;
    lemma_noise_is_skipped(m, noise);
    lemma_frame_stream_decodes(m, bus, msg, payload);
    assert(input.drop_last() =~= noise + fb.drop_last());
    lemma_run_append(m, noise, fb.drop_last());
    lemma_quiet_append(m, noise, fb.drop_last());
    assert(input.last() == fb.last());
    lemma_run_append(m, noise, fb);
}

/// The final, checksum byte of a well-formed frame being gathered: it is
/// appended, the accumulated sum closes to zero modulo 256, and the frame
/// is emitted.
proof fn lemma_stream_final_step(m: DecoderModel, before: DecoderModel, fb: Seq<u8>, s_all: int)
    requires
        fb.len() >= 5,
        before.state is Checksum,
        before.count == m.count,
        before.invalid_count == m.invalid_count,
        before.buffer.len() == m.buffer.len(),
        m.buffer.len() >= fb.len(),
        before.bytes_read == fb.len() - 1,
        before == spec_run(m, fb.drop_last()),
        s_all == sum_of(fb.subrange(1, fb.len() as int)),
        before.accumulated_checksum == (s_all - fb.last()) % 0x10000,
        s_all % 0x100 == 0,
        before.buffer.subrange(0, fb.len() - 1) == fb.drop_last(),
    ensures
        ({
            let m2 = spec_run(m, fb);
            &&& spec_step(before, fb.last()).1 == StepEmit::Frame(fb.len() as int)
            &&& m2 == spec_step(before, fb.last()).0
            &&& m2 == spec_reset(m2)
            &&& m2.count == m.count
            &&& m2.invalid_count == m.invalid_count
            &&& m2.buffer.len() == m.buffer.len()
            &&& m2.buffer.subrange(0, fb.len() as int) == fb
        }),
{
    assert(fb =~= fb.drop_last().push(fb.last()));
    lemma_run_snoc(m, fb.drop_last(), fb.last());
    assert(before.bytes_read < before.buffer.len());
    let f = spec_feed(before, fb.last());
    // The accumulator closes to a multiple of 256.
    lemma_add_mod_noop_right(
        fb.last() as int,
        s_all - fb.last(),
        0x10000,
    );
    assert(f.accumulated_checksum == s_all % 0x10000);
    lemma_mod_mod(s_all, 0x100, 0x100);
    assert(f.accumulated_checksum % 0x100 == 0);
    assert(spec_step(before, fb.last()).1 == StepEmit::Frame(fb.len() as int));
    let m2 = spec_step(before, fb.last()).0;
    assert(m2.buffer.subrange(0, fb.len() as int) =~= fb);
}

} // verus!
