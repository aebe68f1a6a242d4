//! Little-endian field readers for the fixed-layout parts of a record.
//!
//! Every multi-byte field in a record buffer is stored least significant
//! byte first. The spec functions state the value of a field as a bitwise
//! combination of the bytes; the executable readers are proved to return
//! exactly that value.

use vstd::prelude::*;

verus! {

/// The 16-bit little-endian value stored at `off`.
pub open spec fn le_u16_at(b: Seq<u8>, off: int) -> u16 {
    (b[off] as u16) | ((b[off + 1] as u16) << 8)
}

/// The 32-bit little-endian value stored at `off`.
pub open spec fn le_u32_at(b: Seq<u8>, off: int) -> u32 {
    (b[off] as u32) | ((b[off + 1] as u32) << 8) | ((b[off + 2] as u32) << 16) | ((b[off
        + 3] as u32) << 24)
}

/// The 64-bit little-endian value stored at `off`.
pub open spec fn le_u64_at(b: Seq<u8>, off: int) -> u64 {
    (b[off] as u64) | ((b[off + 1] as u64) << 8) | ((b[off + 2] as u64) << 16) | ((b[off
        + 3] as u64) << 24) | ((b[off + 4] as u64) << 32) | ((b[off + 5] as u64) << 40) | ((b[off
        + 6] as u64) << 48) | ((b[off + 7] as u64) << 56)
}

/// The 64-bit little-endian value stored at `off`, reinterpreted as signed.
pub open spec fn le_i64_at(b: Seq<u8>, off: int) -> i64 {
    le_u64_at(b, off) as i64
}

/// Reads the 16-bit little-endian value at `off`.
pub fn read_le_u16(b: &[u8], off: usize) -> (r: u16)
    requires
        off + 2 <= b@.len(),
    ensures
        r == le_u16_at(b@, off as int),
{
    (b[off] as u16) | ((b[off + 1] as u16) << 8)
}

/// Reads the 32-bit little-endian value at `off`.
pub fn read_le_u32(b: &[u8], off: usize) -> (r: u32)
    requires
        off + 4 <= b@.len(),
    ensures
        r == le_u32_at(b@, off as int),
{
    (b[off] as u32) | ((b[off + 1] as u32) << 8) | ((b[off + 2] as u32) << 16) | ((b[off
        + 3] as u32) << 24)
}

/// Reads the 64-bit little-endian value at `off`.
pub fn read_le_u64(b: &[u8], off: usize) -> (r: u64)
    requires
        off + 8 <= b@.len(),
    ensures
        r == le_u64_at(b@, off as int),
{
    (b[off] as u64) | ((b[off + 1] as u64) << 8) | ((b[off + 2] as u64) << 16) | ((b[off
        + 3] as u64) << 24) | ((b[off + 4] as u64) << 32) | ((b[off + 5] as u64) << 40) | ((b[off
        + 6] as u64) << 48) | ((b[off + 7] as u64) << 56)
}

/// Reads the 64-bit little-endian value at `off` as a signed integer.
pub fn read_le_i64(b: &[u8], off: usize) -> (r: i64)
    requires
        off + 8 <= b@.len(),
    ensures
        r == le_i64_at(b@, off as int),
{
    read_le_u64(b, off) as i64
}

} // verus!
