//! Big-endian words out of the bytes of a message.
//!
//! A sub-structure occupies fewer bytes on the wire than the word it is decoded from: its
//! bytes are followed by zero bytes up to the width of the word, so that what was sent
//! ends up in the most significant bits. The words themselves are read by the `byteorder`
//! crate.

use vstd::prelude::*;

verus! {

/// The number that a sequence of bytes denotes, most significant byte first.
pub open spec fn be_value(bytes: Seq<u8>) -> nat
    decreases bytes.len(),
{
    if bytes.len() == 0 {
        0
    } else {
        be_value(bytes.drop_last()) * 256 + bytes.last() as nat
    }
}

/// `bytes` followed by as many zero bytes as it takes to reach `width` bytes.
pub open spec fn zero_padded(bytes: Seq<u8>, width: nat) -> Seq<u8>
    recommends
        bytes.len() <= width,
{
    bytes + Seq::new((width - bytes.len()) as nat, |i: int| 0u8)
}

/// The `len` bytes of `data` from `offset` on, zero-padded to `width` bytes.
pub open spec fn padded_window(data: Seq<u8>, offset: nat, len: nat, width: nat) -> Seq<u8>
    recommends
        offset + len <= data.len(),
        len <= width,
{
    zero_padded(data.subrange(offset as int, (offset + len) as int), width)
}

/// `byteorder`'s `BigEndian::read_u32`: the first four bytes of `buf` as a big-endian
/// number. It panics when `buf` holds fewer than four bytes.
#[verifier::external_body]
pub(crate) fn read_be_u32(buf: &[u8]) -> (r: u32)
    requires
        buf@.len() >= 4,
    ensures
        r == be_value(buf@.subrange(0, 4)),
{
    <byteorder::BigEndian as byteorder::ByteOrder>::read_u32(buf)
}

/// `byteorder`'s `BigEndian::read_u64`: the first eight bytes of `buf` as a big-endian
/// number. It panics when `buf` holds fewer than eight bytes.
#[verifier::external_body]
pub(crate) fn read_be_u64(buf: &[u8]) -> (r: u64)
    requires
        buf@.len() >= 8,
    ensures
        r == be_value(buf@.subrange(0, 8)),
{
    <byteorder::BigEndian as byteorder::ByteOrder>::read_u64(buf)
}

/// `byteorder`'s `BigEndian::read_u128`: the first sixteen bytes of `buf` as a big-endian
/// number. It panics when `buf` holds fewer than sixteen bytes.
#[verifier::external_body]
pub(crate) fn read_be_u128(buf: &[u8]) -> (r: u128)
    requires
        buf@.len() >= 16,
    ensures
        r == be_value(buf@.subrange(0, 16)),
{
    <byteorder::BigEndian as byteorder::ByteOrder>::read_u128(buf)
}

/// Copies the `len` bytes of `data` from `offset` on and pads them with zero bytes to
/// `width` bytes.
pub fn pad_window(data: &[u8], offset: usize, len: usize, width: usize) -> (r: Vec<u8>)
    requires
        offset + len <= data@.len(),
        len <= width,
    ensures
        r@ == padded_window(data@, offset as nat, len as nat, width as nat),
{
    let total = data.len();
    assert(offset + len <= total);
    let mut buf: Vec<u8> = Vec::new();
    buf.extend_from_slice(&data[offset..offset + len]);
    assert(buf@ =~= data@.subrange(offset as int, offset + len));
    while buf.len() < width
        invariant
            len <= buf@.len() <= width,
            offset + len <= data@.len(),
            buf@.subrange(0, len as int) == data@.subrange(offset as int, offset + len),
            forall|i: int| len <= i < buf@.len() ==> buf@[i] == 0u8,
        decreases width - buf@.len(),
    {
        buf.push(0u8);
    }
    assert(buf@ =~= padded_window(data@, offset as nat, len as nat, width as nat));
    buf
}

/// The 128-bit word of a sub-structure that occupies `len` bytes of `data` from `offset`
/// on.
pub fn window_u128(data: &[u8], offset: usize, len: usize) -> (r: u128)
    requires
        offset + len <= data@.len(),
        len <= 16,
    ensures
        r == be_value(padded_window(data@, offset as nat, len as nat, 16)),
{
    let buf = pad_window(data, offset, len, 16);
    assert(buf@.subrange(0, 16) =~= buf@);
    read_be_u128(buf.as_slice())
}

/// The 64-bit word of a sub-structure that occupies `len` bytes of `data` from `offset`
/// on.
pub fn window_u64(data: &[u8], offset: usize, len: usize) -> (r: u64)
    requires
        offset + len <= data@.len(),
        len <= 8,
    ensures
        r == be_value(padded_window(data@, offset as nat, len as nat, 8)),
{
    let buf = pad_window(data, offset, len, 8);
    assert(buf@.subrange(0, 8) =~= buf@);
    read_be_u64(buf.as_slice())
}

} // verus!
