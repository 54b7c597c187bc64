//! The IPv4 header.
//!
//! ```text
//! byte 0      version (high nibble), header length in 32-bit words (low nibble)
//! byte 2..4   total length
//! byte 8      time to live
//! byte 9      protocol of the payload
//! byte 12..16 source address
//! byte 16..20 destination address
//! ```

use vstd::prelude::*;
use crate::bytes::{be16, copy_range, read_be16};

verus! {

/// Length of a header without options.
pub const MIN_HEADER_LEN: usize = 20;

/// Whether `bytes` is long enough to hold an IPv4 header without options.
pub open spec fn is_packet(bytes: Seq<u8>) -> bool {
    bytes.len() >= MIN_HEADER_LEN
}

/// Length of the header in bytes, as the header itself states it.
pub open spec fn header_len(packet: Seq<u8>) -> int {
    (packet[0] as int % 16) * 4
}

pub open spec fn total_length(packet: Seq<u8>) -> int {
    be16(packet, 2)
}

pub open spec fn ttl(packet: Seq<u8>) -> int {
    packet[8] as int
}

/// The protocol number of the payload.
pub open spec fn next_level_protocol(packet: Seq<u8>) -> u8 {
    packet[9]
}

/// The four bytes of the source address.
pub open spec fn source(packet: Seq<u8>) -> Seq<u8> {
    packet.subrange(12, 16)
}

/// The four bytes of the destination address.
pub open spec fn destination(packet: Seq<u8>) -> Seq<u8> {
    packet.subrange(16, 20)
}

/// Where the payload starts: behind the options, and never inside the
/// fixed part of the header, whatever the header length field says.
pub open spec fn payload_start(packet: Seq<u8>) -> int {
    if header_len(packet) > MIN_HEADER_LEN {
        header_len(packet)
    } else {
        MIN_HEADER_LEN as int
    }
}

/// Length of the payload as the header states it: the total length less
/// the header length, and nothing where that would be negative.
pub open spec fn stated_payload_len(packet: Seq<u8>) -> int {
    if total_length(packet) > header_len(packet) {
        total_length(packet) - header_len(packet)
    } else {
        0
    }
}

/// Where the payload ends: at its stated length or at the end of the bytes,
/// whichever comes first.
pub open spec fn payload_end(packet: Seq<u8>) -> int {
    if payload_start(packet) + stated_payload_len(packet) < packet.len() {
        payload_start(packet) + stated_payload_len(packet)
    } else {
        packet.len() as int
    }
}

/// The payload of a packet; empty where the bytes end at or before its start.
pub open spec fn payload(packet: Seq<u8>) -> Seq<u8> {
    if packet.len() <= payload_start(packet) {
        Seq::empty()
    } else {
        packet.subrange(payload_start(packet), payload_end(packet))
    }
}

pub fn get_total_length(packet: &[u8]) -> (value: u16)
    requires
        is_packet(packet@),
    ensures
        value as int == total_length(packet@),
{
    read_be16(packet, 2)
}

pub fn get_ttl(packet: &[u8]) -> (value: u8)
    requires
        is_packet(packet@),
    ensures
        value as int == ttl(packet@),
{
    packet[8]
}

pub fn get_next_level_protocol(packet: &[u8]) -> (value: u8)
    requires
        is_packet(packet@),
    ensures
        value == next_level_protocol(packet@),
{
    packet[9]
}

/// A copy of the payload.
pub fn get_payload(packet: &[u8]) -> (bytes: Vec<u8>)
    requires
        is_packet(packet@),
    ensures
        bytes@ == payload(packet@),
{
    let len: usize = packet.len();
    let header: usize = (packet[0] % 16) as usize * 4;
    let total: usize = get_total_length(packet) as usize;
    let start: usize = if header > MIN_HEADER_LEN { header } else { MIN_HEADER_LEN };
    let stated: usize = if total > header { total - header } else { 0 };
    let end: usize = if start + stated < len { start + stated } else { len };
    if len <= start {
        Vec::new()
    } else {
        copy_range(packet, start, end)
    }
}

} // verus!
