//! The native-byte-order reading of the frame's length field.
//!
//! The wire format stores the length in the byte order native to the host
//! platform, so the mapping between the four length bytes and the integer
//! they stand for is fixed by the platform, not by this crate. It is left
//! abstract as [`u32_of_ne_bytes`]; the two executable conversions below
//! relate byteorder's native-order routines to it.

use vstd::prelude::*;

verus! {

/// The unsigned 32-bit integer that a four-byte sequence stands for in the
/// byte order native to the host platform.
pub uninterp spec fn u32_of_ne_bytes(b: Seq<u8>) -> u32;

/// The four bytes that stand for an unsigned 32-bit integer in the byte
/// order native to the host platform.
pub uninterp spec fn ne_bytes_of_u32(n: u32) -> Seq<u8>;

/// Relies on byteorder's `NativeEndian::read_u32`: it reads the four bytes
/// handed to it as a native-byte-order unsigned 32-bit integer, and the
/// result depends on those bytes alone.
#[verifier::external_body]
pub(crate) fn ne_read_u32(b0: u8, b1: u8, b2: u8, b3: u8) -> (n: u32)
    ensures
        n == u32_of_ne_bytes(seq![b0, b1, b2, b3]),
{
    let buf = [b0, b1, b2, b3];
    <byteorder::NativeEndian as byteorder::ByteOrder>::read_u32(&buf)
}

/// Relies on byteorder's `NativeEndian::write_u32`: it writes exactly the
/// four bytes that stand for `n` in native byte order — the same bytes for
/// the same integer every time — and reading them back with
/// `NativeEndian::read_u32` returns the integer that was written.
#[verifier::external_body]
pub(crate) fn ne_u32_bytes(n: u32) -> (r: Vec<u8>)
    ensures
        r@ == ne_bytes_of_u32(n),
        r@.len() == 4,
        u32_of_ne_bytes(r@) == n,
{
    let mut buf = [0u8; 4];
    <byteorder::NativeEndian as byteorder::ByteOrder>::write_u32(&mut buf, n);
    buf.to_vec()
}

} // verus!
