//! Little-endian integers inside a byte buffer.

use vstd::prelude::*;

verus! {

/// The unsigned 16-bit little-endian integer that starts at `at`.
pub open spec fn le_u16(bytes: Seq<u8>, at: int) -> u16
    recommends
        0 <= at,
        at + 2 <= bytes.len(),
{
    (bytes[at] + 256 * bytes[at + 1]) as u16
}

/// The signed 16-bit little-endian integer, in two's complement, that starts
/// at `at`.
pub open spec fn le_i16(bytes: Seq<u8>, at: int) -> i16
    recommends
        0 <= at,
        at + 2 <= bytes.len(),
{
    if le_u16(bytes, at) < 32768 {
        le_u16(bytes, at) as i16
    } else {
        (le_u16(bytes, at) - 65536) as i16
    }
}

/// The unsigned 32-bit little-endian integer that starts at `at`.
pub open spec fn le_u32(bytes: Seq<u8>, at: int) -> u32
    recommends
        0 <= at,
        at + 4 <= bytes.len(),
{
    (bytes[at] + 256 * bytes[at + 1] + 65536 * bytes[at + 2] + 16777216 * bytes[at + 3]) as u32
}

/// The unsigned 64-bit little-endian integer that starts at `at`: its low
/// half comes first.
pub open spec fn le_u64(bytes: Seq<u8>, at: int) -> u64
    recommends
        0 <= at,
        at + 8 <= bytes.len(),
{
    (le_u32(bytes, at) + 4294967296 * le_u32(bytes, at + 4)) as u64
}

/// Reads the unsigned 16-bit little-endian integer that starts at `at`.
pub fn read_u16(bytes: &[u8], at: usize) -> (value: u16)
    requires
        at + 2 <= bytes.len(),
    ensures
        value == le_u16(bytes@, at as int),
{
    let low: u16 = bytes[at] as u16;
    let high: u16 = bytes[at + 1] as u16;
    low + 256 * high
}

/// Reads the signed 16-bit little-endian integer that starts at `at`.
pub fn read_i16(bytes: &[u8], at: usize) -> (value: i16)
    requires
        at + 2 <= bytes.len(),
    ensures
        value == le_i16(bytes@, at as int),
{
    let raw: u16 = read_u16(bytes, at);
    if raw < 32768 {
        raw as i16
    } else {
        (raw as i32 - 65536) as i16
    }
}

/// Reads the unsigned 32-bit little-endian integer that starts at `at`.
pub fn read_u32(bytes: &[u8], at: usize) -> (value: u32)
    requires
        at + 4 <= bytes.len(),
    ensures
        value == le_u32(bytes@, at as int),
{
    let b0: u32 = bytes[at] as u32;
    let b1: u32 = bytes[at + 1] as u32;
    let b2: u32 = bytes[at + 2] as u32;
    let b3: u32 = bytes[at + 3] as u32;
    b0 + 256 * b1 + 65536 * b2 + 16777216 * b3
}

/// Reads the unsigned 64-bit little-endian integer that starts at `at`.
pub fn read_u64(bytes: &[u8], at: usize) -> (value: u64)
    requires
        at + 8 <= bytes.len(),
    ensures
        value == le_u64(bytes@, at as int),
{
    let low: u64 = read_u32(bytes, at) as u64;
    let high: u64 = read_u32(bytes, at + 4) as u64;
    low + 4294967296 * high
}

/// Copies the bytes from `from` up to `to`; the byte at `to` stays out.
pub fn copy_range(bytes: &[u8], from: usize, to: usize) -> (copy: Vec<u8>)
    requires
        from <= to <= bytes.len(),
    ensures
        copy@ == bytes@.subrange(from as int, to as int),
{
    vstd::slice::slice_to_vec(vstd::slice::slice_subrange(bytes, from, to))
}

} // verus!
