//! Little-endian encoding of the integers that make up the on-disk records.

use vstd::bytes::*;
use vstd::prelude::*;
use vstd::slice::slice_subrange;

verus! {

/// The four bytes that stand for a signed 32-bit integer.
pub open spec fn spec_i32_to_le_bytes(x: i32) -> Seq<u8> {
    spec_u32_to_le_bytes(x as u32)
}

/// The signed 32-bit integer that four bytes stand for.
pub open spec fn spec_i32_from_le_bytes(s: Seq<u8>) -> i32 {
    spec_u32_from_le_bytes(s) as i32
}

/// Appends the little-endian bytes of `x` to `buf`.
pub fn put_u64(buf: &mut Vec<u8>, x: u64)
    ensures
        final(buf)@ == old(buf)@ + spec_u64_to_le_bytes(x),
{
    let mut bytes = u64_to_le_bytes(x);
    buf.append(&mut bytes);
}

/// Appends the little-endian bytes of `x` to `buf`.
pub fn put_u32(buf: &mut Vec<u8>, x: u32)
    ensures
        final(buf)@ == old(buf)@ + spec_u32_to_le_bytes(x),
{
    let mut bytes = u32_to_le_bytes(x);
    buf.append(&mut bytes);
}

/// Appends the little-endian bytes of `x` to `buf`.
pub fn put_u16(buf: &mut Vec<u8>, x: u16)
    ensures
        final(buf)@ == old(buf)@ + spec_u16_to_le_bytes(x),
{
    let mut bytes = u16_to_le_bytes(x);
    buf.append(&mut bytes);
}

/// Appends the little-endian bytes of `x` to `buf`.
pub fn put_u128(buf: &mut Vec<u8>, x: u128)
    ensures
        final(buf)@ == old(buf)@ + spec_u128_to_le_bytes(x),
{
    let mut bytes = u128_to_le_bytes(x);
    buf.append(&mut bytes);
}

/// Appends the little-endian bytes of `x` to `buf`.
pub fn put_i32(buf: &mut Vec<u8>, x: i32)
    ensures
        final(buf)@ == old(buf)@ + spec_i32_to_le_bytes(x),
{
    let unsigned: u32 = #[verifier::truncate] (x as u32);
    put_u32(buf, unsigned);
}

/// Reads the `u64` that starts at `offset`.
pub fn get_u64(bytes: &[u8], offset: usize) -> (x: u64)
    requires
        offset + 8 <= bytes@.len(),
    ensures
        x == spec_u64_from_le_bytes(bytes@.subrange(offset as int, offset + 8)),
{
    let len: usize = bytes.len();
    u64_from_le_bytes(slice_subrange(bytes, offset, offset + 8))
}

/// Reads the `u32` that starts at `offset`.
pub fn get_u32(bytes: &[u8], offset: usize) -> (x: u32)
    requires
        offset + 4 <= bytes@.len(),
    ensures
        x == spec_u32_from_le_bytes(bytes@.subrange(offset as int, offset + 4)),
{
    let len: usize = bytes.len();
    u32_from_le_bytes(slice_subrange(bytes, offset, offset + 4))
}

/// Reads the `u16` that starts at `offset`.
pub fn get_u16(bytes: &[u8], offset: usize) -> (x: u16)
    requires
        offset + 2 <= bytes@.len(),
    ensures
        x == spec_u16_from_le_bytes(bytes@.subrange(offset as int, offset + 2)),
{
    let len: usize = bytes.len();
    u16_from_le_bytes(slice_subrange(bytes, offset, offset + 2))
}

/// Reads the `u128` that starts at `offset`.
pub fn get_u128(bytes: &[u8], offset: usize) -> (x: u128)
    requires
        offset + 16 <= bytes@.len(),
    ensures
        x == spec_u128_from_le_bytes(bytes@.subrange(offset as int, offset + 16)),
{
    let len: usize = bytes.len();
    u128_from_le_bytes(slice_subrange(bytes, offset, offset + 16))
}

/// Reads the `i32` that starts at `offset`.
pub fn get_i32(bytes: &[u8], offset: usize) -> (x: i32)
    requires
        offset + 4 <= bytes@.len(),
    ensures
        x == spec_i32_from_le_bytes(bytes@.subrange(offset as int, offset + 4)),
{
    let unsigned: u32 = get_u32(bytes, offset);
    #[verifier::truncate]
    (unsigned as i32)
}

} // verus!
