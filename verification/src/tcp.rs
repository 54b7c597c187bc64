//! The TCP header.
//!
//! ```text
//! byte 0..2   source port
//! byte 2..4   destination port
//! byte 4..8   sequence number
//! byte 12     data offset in 32-bit words (high nibble)
//! byte 13     flags
//! byte 14..16 window
//! ```

use vstd::prelude::*;
use crate::bytes::{be16, be32, copy_from, read_be16, read_be32, tail};

verus! {

/// Length of a header without options.
pub const MIN_HEADER_LEN: usize = 20;

pub const FLAG_ACK: u8 = 0x10;

pub const FLAG_RST: u8 = 0x04;

pub const FLAG_SYN: u8 = 0x02;

pub const FLAG_FIN: u8 = 0x01;

/// Whether `bytes` is long enough to hold a header without options.
pub open spec fn is_packet(bytes: Seq<u8>) -> bool {
    bytes.len() >= MIN_HEADER_LEN
}

pub open spec fn source(packet: Seq<u8>) -> int {
    be16(packet, 0)
}

pub open spec fn destination(packet: Seq<u8>) -> int {
    be16(packet, 2)
}

pub open spec fn sequence(packet: Seq<u8>) -> int {
    be32(packet, 4)
}

/// Length of the header in bytes, as the header itself states it.
pub open spec fn header_len(packet: Seq<u8>) -> int {
    (packet[12] as int / 16) * 4
}

/// The flag bits, one byte.
pub open spec fn flags(packet: Seq<u8>) -> u8 {
    packet[13]
}

/// Whether the bit of `mask` is set among the flags.
pub open spec fn has_flag(packet: Seq<u8>, mask: u8) -> bool {
    flags(packet) & mask != 0
}

pub open spec fn window(packet: Seq<u8>) -> int {
    be16(packet, 14)
}

/// Where the payload starts: behind the options, and never inside the
/// fixed part of the header, whatever the data offset field says.
pub open spec fn payload_start(packet: Seq<u8>) -> int {
    if header_len(packet) > MIN_HEADER_LEN {
        header_len(packet)
    } else {
        MIN_HEADER_LEN as int
    }
}

/// Everything behind the header and its options.
pub open spec fn payload(packet: Seq<u8>) -> Seq<u8> {
    tail(packet, payload_start(packet))
}

pub fn get_source(packet: &[u8]) -> (value: u16)
    requires
        is_packet(packet@),
    ensures
        value as int == source(packet@),
{
    read_be16(packet, 0)
}

pub fn get_destination(packet: &[u8]) -> (value: u16)
    requires
        is_packet(packet@),
    ensures
        value as int == destination(packet@),
{
    read_be16(packet, 2)
}

pub fn get_sequence(packet: &[u8]) -> (value: u32)
    requires
        is_packet(packet@),
    ensures
        value as int == sequence(packet@),
{
    read_be32(packet, 4)
}

pub fn get_flags(packet: &[u8]) -> (value: u8)
    requires
        is_packet(packet@),
    ensures
        value == flags(packet@),
{
    packet[13]
}

pub fn get_window(packet: &[u8]) -> (value: u16)
    requires
        is_packet(packet@),
    ensures
        value as int == window(packet@),
{
    read_be16(packet, 14)
}

/// A copy of the payload.
pub fn get_payload(packet: &[u8]) -> (bytes: Vec<u8>)
    requires
        is_packet(packet@),
    ensures
        bytes@ == payload(packet@),
{
    let header: usize = (packet[12] / 16) as usize * 4;
    let start: usize = if header > MIN_HEADER_LEN { header } else { MIN_HEADER_LEN };
    copy_from(packet, start)
}

} // verus!
