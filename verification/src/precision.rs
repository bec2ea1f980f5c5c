//! The numeric-precision model of MTData2 measurements.
//!
//! Four precisions exist on the wire: IEEE 32-bit and 64-bit floats and
//! the 12.20 and 16.32 fixed-point forms. Each specifies a native wire
//! width and a big-endian field reader. Floating-point fields are carried
//! as their raw IEEE-754 bit patterns ([`Float32Bits`], [`Float64Bits`]):
//! the library states and proves the byte-exact extraction, and turning
//! the bits into native floats is the caller's concern. The fixed-point
//! forms are plain integers (`u32` for 12.20, `u64` for 16.32).

use vstd::prelude::*;
use crate::wire::{be_u32, be_u64, read_u32_be, read_u64_be, WireError};

verus! {

/// The raw bit pattern of an IEEE-754 32-bit float, read big-endian off
/// the wire.
#[derive(Debug, Copy, Clone, PartialEq, Eq, Structural, Hash)]
pub struct Float32Bits(pub u32);

/// The raw bit pattern of an IEEE-754 64-bit float, read big-endian off
/// the wire.
#[derive(Debug, Copy, Clone, PartialEq, Eq, Structural, Hash)]
pub struct Float64Bits(pub u64);

/// Closes the set of field representations to the four the protocol
/// knows.
pub trait Sealed {

}

impl Sealed for Float32Bits {

}

impl Sealed for Float64Bits {

}

impl Sealed for u32 {

}

impl Sealed for u64 {

}

/// A field representation with a fixed wire width and a big-endian
/// reader.
pub trait PrecisionExt: Sealed + Copy + Sized {
    /// Bytes one field of this precision occupies on the wire.
    spec fn spec_size() -> int;

    /// The value of the first `spec_size` bytes of `b`.
    spec fn spec_value(b: Seq<u8>) -> Self;

    /// Every wire width of the closed set is four or eight bytes.
    proof fn lemma_size_bounds()
        ensures
            Self::spec_size() == 4 || Self::spec_size() == 8,
    ;

    /// The wire width, executable.
    fn wire_width() -> (n: usize)
        ensures
            n as int == Self::spec_size(),
    ;

    /// Read one big-endian field at `offset`.
    fn read_field(bytes: &[u8], offset: usize) -> (r: Self)
        requires
            offset + Self::spec_size() <= bytes@.len(),
        ensures
            r == Self::spec_value(
                bytes@.subrange(offset as int, offset as int + Self::spec_size()),
            ),
    ;
}

impl PrecisionExt for Float32Bits {
    open spec fn spec_size() -> int {
        4
    }

    open spec fn spec_value(b: Seq<u8>) -> Self {
        Float32Bits(be_u32(b) as u32)
    }

    proof fn lemma_size_bounds() {
    }

    fn wire_width() -> (n: usize) {
        4
    }

    fn read_field(bytes: &[u8], offset: usize) -> (r: Self) {
        Float32Bits(read_u32_be(bytes, offset))
    }
}

impl PrecisionExt for Float64Bits {
    open spec fn spec_size() -> int {
        8
    }

    open spec fn spec_value(b: Seq<u8>) -> Self {
        Float64Bits(be_u64(b) as u64)
    }

    proof fn lemma_size_bounds() {
    }

    fn wire_width() -> (n: usize) {
        8
    }

    fn read_field(bytes: &[u8], offset: usize) -> (r: Self) {
        Float64Bits(read_u64_be(bytes, offset))
    }
}

impl PrecisionExt for u32 {
    open spec fn spec_size() -> int {
        4
    }

    open spec fn spec_value(b: Seq<u8>) -> Self {
        be_u32(b) as u32
    }

    proof fn lemma_size_bounds() {
    }

    fn wire_width() -> (n: usize) {
        4
    }

    fn read_field(bytes: &[u8], offset: usize) -> (r: Self) {
        read_u32_be(bytes, offset)
    }
}

impl PrecisionExt for u64 {
    open spec fn spec_size() -> int {
        8
    }

    open spec fn spec_value(b: Seq<u8>) -> Self {
        be_u64(b) as u64
    }

    proof fn lemma_size_bounds() {
    }

    fn wire_width() -> (n: usize) {
        8
    }

    fn read_field(bytes: &[u8], offset: usize) -> (r: Self) {
        read_u64_be(bytes, offset)
    }
}

/// Read one field, checking the slice length first.
pub fn read_fields1<T: PrecisionExt>(bytes: &[u8]) -> (r: Result<T, WireError>)
    ensures
        match r {
            Ok(v) => bytes@.len() >= T::spec_size() && v == T::spec_value(
                bytes@.subrange(0, T::spec_size()),
            ),
            Err(e) => bytes@.len() < T::spec_size() && e == WireError::MissingBytes,
        },
{
    proof {
        T::lemma_size_bounds();
    }
    let w = T::wire_width();
    if bytes.len() < w {
        Err(WireError::MissingBytes)
    } else {
        Ok(T::read_field(bytes, 0))
    }
}

/// Read two consecutive fields, checking the slice length first.
pub fn read_fields2<T: PrecisionExt>(bytes: &[u8]) -> (r: Result<(T, T), WireError>)
    ensures
        match r {
            Ok(v) => {
                let w = T::spec_size();
                &&& bytes@.len() >= 2 * w
                &&& v.0 == T::spec_value(bytes@.subrange(0, w))
                &&& v.1 == T::spec_value(bytes@.subrange(w, 2 * w))
            },
            Err(e) => bytes@.len() < 2 * T::spec_size() && e == WireError::MissingBytes,
        },
{
    proof {
        T::lemma_size_bounds();
    }
    let w = T::wire_width();
    if bytes.len() < 2 * w {
        Err(WireError::MissingBytes)
    } else {
        let f0 = T::read_field(bytes, 0);
        let f1 = T::read_field(bytes, w);
        Ok((f0, f1))
    }
}

/// Read three consecutive fields, checking the slice length first.
pub fn read_fields3<T: PrecisionExt>(bytes: &[u8]) -> (r: Result<(T, T, T), WireError>)
    ensures
        match r {
            Ok(v) => {
                let w = T::spec_size();
                &&& bytes@.len() >= 3 * w
                &&& v.0 == T::spec_value(bytes@.subrange(0, w))
                &&& v.1 == T::spec_value(bytes@.subrange(w, 2 * w))
                &&& v.2 == T::spec_value(bytes@.subrange(2 * w, 3 * w))
            },
            Err(e) => bytes@.len() < 3 * T::spec_size() && e == WireError::MissingBytes,
        },
{
    proof {
        T::lemma_size_bounds();
    }
    let w = T::wire_width();
    if bytes.len() < 3 * w {
        Err(WireError::MissingBytes)
    } else {
        let f0 = T::read_field(bytes, 0);
        let f1 = T::read_field(bytes, w);
        let f2 = T::read_field(bytes, 2 * w);
        Ok((f0, f1, f2))
    }
}

} // verus!
