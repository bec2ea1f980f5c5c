//! Wire-level primitives: big-endian field readers and writers over byte
//! slices, and the shared error kind for "not enough bytes".
//!
//! All multi-byte fields of the MT protocol are big-endian.

pub mod data_id;
pub mod mtdata2_packet;
pub mod output_config;

pub use data_id::{CoordinateSystem, DataId, DataType, Precision, WireDataId};
pub use mtdata2_packet::{MTData2Packet, MTData2PacketIter};
pub use output_config::{
    OutputConfiguration,
    OutputFrequency,
    WireOutputConfiguration,
    WireOutputConfigurationIterator,
};

use vstd::prelude::*;

verus! {

/// Error kind shared by all wire-level decoders: the given slice is shorter
/// than the fixed size the decoder demands.
#[derive(Debug, Copy, Clone, PartialEq, Eq, Structural, Hash)]
pub enum WireError {
    MissingBytes,
}

/// The big-endian 16-bit value held by the first two bytes of `b`.
pub open spec fn be_u16(b: Seq<u8>) -> int {
    (b[0] as int) * 0x100 + (b[1] as int)
}

/// The big-endian 32-bit value held by the first four bytes of `b`.
pub open spec fn be_u32(b: Seq<u8>) -> int {
    (b[0] as int) * 0x100_0000 + (b[1] as int) * 0x1_0000 + (b[2] as int) * 0x100 + (b[3] as int)
}

/// The big-endian 64-bit value held by the first eight bytes of `b`.
pub open spec fn be_u64(b: Seq<u8>) -> int {
    (b[0] as int) * 0x100_0000_0000_0000 + (b[1] as int) * 0x1_0000_0000_0000 + (b[2] as int)
        * 0x100_0000_0000 + (b[3] as int) * 0x1_0000_0000 + (b[4] as int) * 0x100_0000 + (
    b[5] as int) * 0x1_0000 + (b[6] as int) * 0x100 + (b[7] as int)
}

/// Read the big-endian 16-bit field at `offset`.
pub fn read_u16_be(bytes: &[u8], offset: usize) -> (r: u16)
    requires
        offset + 2 <= bytes@.len(),
    ensures
        r as int == be_u16(bytes@.subrange(offset as int, offset as int + 2)),
{
    (bytes[offset] as u16) * 0x100 + (bytes[offset + 1] as u16)
}

/// Read the big-endian 32-bit field at `offset`.
pub fn read_u32_be(bytes: &[u8], offset: usize) -> (r: u32)
    requires
        offset + 4 <= bytes@.len(),
    ensures
        r as int == be_u32(bytes@.subrange(offset as int, offset as int + 4)),
{
    (bytes[offset] as u32) * 0x100_0000 + (bytes[offset + 1] as u32) * 0x1_0000 + (bytes[offset
        + 2] as u32) * 0x100 + (bytes[offset + 3] as u32)
}

/// Read the big-endian 64-bit field at `offset`.
pub fn read_u64_be(bytes: &[u8], offset: usize) -> (r: u64)
    requires
        offset + 8 <= bytes@.len(),
    ensures
        r as int == be_u64(bytes@.subrange(offset as int, offset as int + 8)),
{
    (bytes[offset] as u64) * 0x100_0000_0000_0000 + (bytes[offset + 1] as u64) * 0x1_0000_0000_0000
        + (bytes[offset + 2] as u64) * 0x100_0000_0000 + (bytes[offset + 3] as u64) * 0x1_0000_0000
        + (bytes[offset + 4] as u64) * 0x100_0000 + (bytes[offset + 5] as u64) * 0x1_0000 + (
    bytes[offset + 6] as u64) * 0x100 + (bytes[offset + 7] as u64)
}

/// Copy of the bytes at `start..end`.
pub fn copy_range(bytes: &Vec<u8>, start: usize, end: usize) -> (r: Vec<u8>)
    requires
        start <= end <= bytes@.len(),
    ensures
        r@ == bytes@.subrange(start as int, end as int),
{
    let mut out: Vec<u8> = Vec::new();
    let mut i: usize = start;
    while i < end
        invariant
            start <= i <= end <= bytes@.len(),
            out@ == bytes@.subrange(start as int, i as int),
        decreases end - i,
    {
        out.push(bytes[i]);
        i = i + 1;
        proof {
            assert(out@ =~= bytes@.subrange(start as int, i as int));
        }
    }
    out
}

/// Write `value` as a big-endian 16-bit field at `offset`, leaving every
/// other byte unchanged.
pub fn write_u16_be(bytes: &mut Vec<u8>, offset: usize, value: u16)
    requires
        offset + 2 <= old(bytes)@.len(),
    ensures
        final(bytes)@ == old(bytes)@.update(offset as int, (value / 0x100) as u8).update(
            offset as int + 1,
            (value % 0x100) as u8,
        ),
        be_u16(final(bytes)@.subrange(offset as int, offset as int + 2)) == value as int,
{
    let n: usize = bytes.len();
    assert(offset + 1 < n);
    bytes.set(offset, (value / 0x100) as u8);
    bytes.set(offset + 1, (value % 0x100) as u8);
}

} // verus!
