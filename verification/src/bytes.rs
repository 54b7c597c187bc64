//! Big-endian field access on byte strings.

use vstd::prelude::*;
use vstd::slice::{slice_subrange, slice_to_vec};

verus! {

/// The unsigned 16-bit number stored big-endian at `at` and `at + 1`.
pub open spec fn be16(bytes: Seq<u8>, at: int) -> int {
    bytes[at] as int * 256 + bytes[at + 1] as int
}

/// The unsigned 32-bit number stored big-endian at `at .. at + 4`.
pub open spec fn be32(bytes: Seq<u8>, at: int) -> int {
    be16(bytes, at) * 65536 + be16(bytes, at + 2)
}

/// Reads the big-endian 16-bit number at `at`.
pub fn read_be16(bytes: &[u8], at: usize) -> (value: u16)
    requires
        at + 2 <= bytes@.len(),
    ensures
        value as int == be16(bytes@, at as int),
{
    let high: u16 = bytes[at] as u16;
    let low: u16 = bytes[at + 1] as u16;
    high * 256 + low
}

/// Reads the big-endian 32-bit number at `at`.
pub fn read_be32(bytes: &[u8], at: usize) -> (value: u32)
    requires
        at + 4 <= bytes@.len(),
    ensures
        value as int == be32(bytes@, at as int),
{
    let first: u32 = bytes[at] as u32;
    let second: u32 = bytes[at + 1] as u32;
    let third: u32 = bytes[at + 2] as u32;
    let fourth: u32 = bytes[at + 3] as u32;
    first * 16777216 + second * 65536 + third * 256 + fourth
}

/// An owned copy of `bytes`.
pub fn copy_all(bytes: &[u8]) -> (copy: Vec<u8>)
    ensures
        copy@ == bytes@,
{
    slice_to_vec(bytes)
}

/// An owned copy of `bytes[from .. to]`.
pub fn copy_range(bytes: &[u8], from: usize, to: usize) -> (copy: Vec<u8>)
    requires
        from <= to <= bytes@.len(),
    ensures
        copy@ == bytes@.subrange(from as int, to as int),
{
    slice_to_vec(slice_subrange(bytes, from, to))
}

/// An owned copy of `bytes[from ..]`, empty when `from` lies past the end.
pub fn copy_from(bytes: &[u8], from: usize) -> (copy: Vec<u8>)
    ensures
        copy@ == tail(bytes@, from as int),
{
    if from <= bytes.len() {
        copy_range(bytes, from, bytes.len())
    } else {
        Vec::new()
    }
}

/// `bytes[from ..]`, or nothing when `from` lies past the end.
pub open spec fn tail(bytes: Seq<u8>, from: int) -> Seq<u8> {
    if 0 <= from <= bytes.len() {
        bytes.subrange(from, bytes.len() as int)
    } else {
        Seq::empty()
    }
}

} // verus!
