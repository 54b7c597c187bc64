//! The ICMPv6 header: type, code, and a two-byte checksum.

use vstd::prelude::*;
use crate::bytes::{be16, copy_from, read_be16, tail};

verus! {

/// Length of the header.
pub const HEADER_LEN: usize = 4;

/// Whether `bytes` is long enough to hold the header.
pub open spec fn is_packet(bytes: Seq<u8>) -> bool {
    bytes.len() >= HEADER_LEN
}

pub open spec fn checksum(packet: Seq<u8>) -> int {
    be16(packet, 2)
}

/// Everything behind the header.
pub open spec fn payload(packet: Seq<u8>) -> Seq<u8> {
    tail(packet, HEADER_LEN as int)
}

pub fn get_checksum(packet: &[u8]) -> (value: u16)
    requires
        is_packet(packet@),
    ensures
        value as int == checksum(packet@),
{
    read_be16(packet, 2)
}

/// A copy of the payload.
pub fn get_payload(packet: &[u8]) -> (bytes: Vec<u8>)
    ensures
        bytes@ == payload(packet@),
{
    copy_from(packet, HEADER_LEN)
}

} // verus!
