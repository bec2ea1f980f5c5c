//! One output-configuration record on the wire: a data identifier and a
//! 16-bit big-endian output frequency — and the iterator over a
//! concatenated list of such records.

use vstd::prelude::*;
use crate::wire::{be_u16, read_u16_be, write_u16_be, WireError};
use crate::wire::data_id::DataId;

verus! {

/// Output frequency of one configured data type; `0` or `0xFFFF` means
/// "maximum frequency".
#[derive(Debug, Copy, Clone, PartialEq, Eq, Structural, Hash)]
pub struct OutputFrequency(pub u16);

impl OutputFrequency {
    /// Frequency value meaning "maximum frequency".
    pub const MAX: u16 = 0xFFFF;

    /// The record denoting maximum frequency.
    pub fn max_frequency() -> (r: Self)
        ensures
            r.0 == 0xFFFF,
    {
        OutputFrequency(0xFFFF)
    }
}

/// One output-configuration record: which data type to emit, and how
/// often.
#[derive(Debug, Copy, Clone, PartialEq, Eq, Structural, Hash)]
pub struct OutputConfiguration {
    pub data_id: DataId,
    pub output_frequency: OutputFrequency,
}

impl OutputConfiguration {
    pub fn new(data_id: DataId, output_frequency: OutputFrequency) -> (r: Self)
        ensures
            r == (OutputConfiguration { data_id, output_frequency }),
    {
        OutputConfiguration { data_id, output_frequency }
    }
}

/// The four wire bytes of one record: big-endian data identifier word,
/// big-endian frequency.
pub open spec fn spec_config_bytes(c: OutputConfiguration) -> Seq<u8> {
    seq![
        (DataId::spec_to_wire(c.data_id) / 0x100) as u8,
        (DataId::spec_to_wire(c.data_id) % 0x100) as u8,
        (c.output_frequency.0 / 0x100) as u8,
        (c.output_frequency.0 % 0x100) as u8,
    ]
}

/// The wire bytes of a list of records, concatenated in order.
pub open spec fn spec_configs_bytes(cs: Seq<OutputConfiguration>) -> Seq<u8>
    decreases cs.len(),
{
    if cs.len() == 0 {
        Seq::empty()
    } else {
        spec_configs_bytes(cs.drop_last()) + spec_config_bytes(cs.last())
    }
}

/// A list of records encodes to four bytes per record.
pub proof fn lemma_configs_bytes_len(cs: Seq<OutputConfiguration>)
    ensures
        spec_configs_bytes(cs).len() == 4 * cs.len(),
    decreases cs.len(),
{
    if cs.len() > 0 {
        lemma_configs_bytes_len(cs.drop_last());
    }
}

/// The record decoded from the first four bytes of `b`.
pub open spec fn spec_config_of(b: Seq<u8>) -> OutputConfiguration
    recommends
        b.len() >= 4,
{
    OutputConfiguration {
        data_id: DataId::spec_from_wire(be_u16(b.subrange(0, 2)) as u16),
        output_frequency: OutputFrequency(be_u16(b.subrange(2, 4)) as u16),
    }
}

/// A four-byte wire view holding one output-configuration record.
#[derive(Debug, Clone, PartialEq, Eq)]
pub struct WireOutputConfiguration {
    buffer: Vec<u8>,
}

impl View for WireOutputConfiguration {
    type V = Seq<u8>;

    closed spec fn view(&self) -> Seq<u8> {
        self.buffer@
    }
}

impl WireOutputConfiguration {
    /// Bytes one record occupies on the wire.
    pub const WIRE_SIZE: usize = 4;

    pub fn new_unchecked(buffer: Vec<u8>) -> (r: WireOutputConfiguration)
        ensures
            r@ == buffer@,
    {
        WireOutputConfiguration { buffer }
    }

    /// Wrap a buffer after checking it holds at least four bytes.
    pub fn new(buffer: Vec<u8>) -> (r: Result<WireOutputConfiguration, WireError>)
        ensures
            match r {
                Ok(w) => buffer@.len() >= 4 && w@ == buffer@,
                Err(e) => buffer@.len() < 4 && e == WireError::MissingBytes,
            },
    {
        let w = Self::new_unchecked(buffer);
        match w.check_len() {
            Err(e) => Err(e),
            Ok(_) => Ok(w),
        }
    }

    pub fn check_len(&self) -> (r: Result<(), WireError>)
        ensures
            r == if self@.len() < 4 {
                Err::<(), WireError>(WireError::MissingBytes)
            } else {
                Ok::<(), WireError>(())
            },
    {
        if self.buffer.len() < Self::WIRE_SIZE {
            Err(WireError::MissingBytes)
        } else {
            Ok(())
        }
    }

    pub fn into_inner(self) -> (r: Vec<u8>)
        ensures
            r@ == self@,
    {
        self.buffer
    }

    /// Length of a buffer able to hold one record.
    pub fn buffer_len() -> (r: usize)
        ensures
            r == 4,
    {
        Self::WIRE_SIZE
    }

    /// The record's decoded data identifier.
    pub fn data_id(&self) -> (r: DataId)
        requires
            self@.len() >= 2,
        ensures
            r == DataId::spec_from_wire(be_u16(self@.subrange(0, 2)) as u16),
    {
        let value = read_u16_be(self.buffer.as_slice(), 0);
        DataId::from_wire(value)
    }

    /// The record's output frequency.
    pub fn output_frequency(&self) -> (r: OutputFrequency)
        requires
            self@.len() >= 4,
        ensures
            r.0 as int == be_u16(self@.subrange(2, 4)),
    {
        OutputFrequency(read_u16_be(self.buffer.as_slice(), 2))
    }

    /// The whole decoded record.
    pub fn output_configuration(&self) -> (r: OutputConfiguration)
        requires
            self@.len() >= 4,
        ensures
            r == spec_config_of(self@),
    {
        proof {
            assert(self@.subrange(0, 2) =~= self@.subrange(0, 4).subrange(0, 2));
        }
        OutputConfiguration { data_id: self.data_id(), output_frequency: self.output_frequency() }
    }

    /// Encode `value`'s data identifier into the first two bytes.
    pub fn set_data_id(&mut self, value: DataId)
        requires
            old(self)@.len() >= 2,
        ensures
            final(self)@ == old(self)@.update(0, (DataId::spec_to_wire(value) / 0x100) as u8)
                .update(1, (DataId::spec_to_wire(value) % 0x100) as u8),
    {
        let wire = value.to_wire();
        write_u16_be(&mut self.buffer, 0, wire);
    }

    /// Encode `value` into bytes 2–3.
    pub fn set_output_frequency(&mut self, value: OutputFrequency)
        requires
            old(self)@.len() >= 4,
        ensures
            final(self)@ == old(self)@.update(2, (value.0 / 0x100) as u8).update(
                3,
                (value.0 % 0x100) as u8,
            ),
    {
        write_u16_be(&mut self.buffer, 2, value.0);
    }

    /// Encode the whole record into the first four bytes, leaving the rest
    /// unchanged.
    pub fn set_output_configuration(&mut self, value: OutputConfiguration)
        requires
            old(self)@.len() >= 4,
        ensures
            final(self)@.len() == old(self)@.len(),
            final(self)@.subrange(0, 4) == spec_config_bytes(value),
            final(self)@.skip(4) == old(self)@.skip(4),
    {
        self.set_data_id(value.data_id);
        self.set_output_frequency(value.output_frequency);
        proof {
            assert(self@.subrange(0, 4) =~= spec_config_bytes(value));
            assert(self@.skip(4) =~= old(self)@.skip(4));
        }
    }
}

/// Walks the concatenated output-configuration records of a payload.
#[derive(Debug, Clone, PartialEq, Eq)]
pub struct WireOutputConfigurationIterator {
    buffer: Vec<u8>,
}

impl View for WireOutputConfigurationIterator {
    type V = Seq<u8>;

    closed spec fn view(&self) -> Seq<u8> {
        self.buffer@
    }
}

impl WireOutputConfigurationIterator {
    pub fn new(buffer: Vec<u8>) -> (r: WireOutputConfigurationIterator)
        ensures
            r@ == buffer@,
    {
        WireOutputConfigurationIterator { buffer }
    }

    /// All whole records, in order; a trailing part of fewer than four
    /// bytes is ignored.
    pub fn iter(&self) -> (r: Vec<OutputConfiguration>)
        ensures
            r@.len() == self@.len() as int / 4,
            forall|j: int|
                0 <= j < r@.len() ==> r@[j] == spec_config_of(
                    #[trigger] self@.subrange(4 * j, 4 * j + 4),
                ),
    {
        let len = self.buffer.len();
        let n = len / 4;
        assert(4 * n <= len);
        let mut out: Vec<OutputConfiguration> = Vec::new();
        let mut k: usize = 0;
        while k < n
            invariant
                0 <= k <= n,
                len == self@.len(),
                n == len as int / 4,
                4 * n <= len,
                out@.len() == k,
                forall|j: int|
                    0 <= j < k ==> out@[j] == spec_config_of(
                        #[trigger] self@.subrange(4 * j, 4 * j + 4),
                    ),
            decreases n - k,
        {
            let off = 4 * k;
            let data_id = DataId::from_wire(read_u16_be(self.buffer.as_slice(), off));
            let freq = OutputFrequency(read_u16_be(self.buffer.as_slice(), off + 2));
            proof {
                assert(self@.subrange(off as int, off as int + 2) =~= self@.subrange(
                    4 * k,
                    4 * k + 4,
                ).subrange(0, 2));
                assert(self@.subrange(off as int + 2, off as int + 4) =~= self@.subrange(
                    4 * k,
                    4 * k + 4,
                ).subrange(2, 4));
            }
            out.push(OutputConfiguration { data_id, output_frequency: freq });
            k = k + 1;
        }
        out
    }
}

} // verus!
