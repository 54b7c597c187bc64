//! The IPv6 fixed header.
//!
//! ```text
//! byte 0..4   version (4 bits), traffic class (8 bits), flow label (20 bits)
//! byte 4..6   payload length
//! byte 6      next header
//! byte 7      hop limit
//! byte 8..24  source address
//! byte 24..40 destination address
//! ```

use vstd::prelude::*;
use crate::bytes::{be16, copy_range, read_be16};

verus! {

/// Length of the fixed header.
pub const HEADER_LEN: usize = 40;

/// Whether `bytes` is long enough to hold the fixed header.
pub open spec fn is_packet(bytes: Seq<u8>) -> bool {
    bytes.len() >= HEADER_LEN
}

/// The eight bits that straddle the first two bytes.
pub open spec fn traffic_class(packet: Seq<u8>) -> int {
    (packet[0] as int % 16) * 16 + packet[1] as int / 16
}

/// The low twenty bits of the first four bytes.
pub open spec fn flow_label(packet: Seq<u8>) -> int {
    (packet[1] as int % 16) * 65536 + be16(packet, 2)
}

pub open spec fn payload_length(packet: Seq<u8>) -> int {
    be16(packet, 4)
}

/// The protocol number of what follows the fixed header.
pub open spec fn next_header(packet: Seq<u8>) -> u8 {
    packet[6]
}

/// The sixteen bytes of the source address.
pub open spec fn source(packet: Seq<u8>) -> Seq<u8> {
    packet.subrange(8, 24)
}

/// The sixteen bytes of the destination address.
pub open spec fn destination(packet: Seq<u8>) -> Seq<u8> {
    packet.subrange(24, 40)
}

/// Where the payload ends: at its stated length or at the end of the bytes,
/// whichever comes first.
pub open spec fn payload_end(packet: Seq<u8>) -> int {
    if HEADER_LEN + payload_length(packet) < packet.len() {
        HEADER_LEN + payload_length(packet)
    } else {
        packet.len() as int
    }
}

/// The payload of a packet; empty where the bytes end with the header.
pub open spec fn payload(packet: Seq<u8>) -> Seq<u8> {
    if packet.len() <= HEADER_LEN {
        Seq::empty()
    } else {
        packet.subrange(HEADER_LEN as int, payload_end(packet))
    }
}

pub fn get_traffic_class(packet: &[u8]) -> (value: u8)
    requires
        is_packet(packet@),
    ensures
        value as int == traffic_class(packet@),
{
    (packet[0] % 16) * 16 + packet[1] / 16
}

pub fn get_flow_label(packet: &[u8]) -> (value: u32)
    requires
        is_packet(packet@),
    ensures
        value as int == flow_label(packet@),
{
    let high: u32 = (packet[1] % 16) as u32;
    let low: u32 = read_be16(packet, 2) as u32;
    high * 65536 + low
}

pub fn get_payload_length(packet: &[u8]) -> (value: u16)
    requires
        is_packet(packet@),
    ensures
        value as int == payload_length(packet@),
{
    read_be16(packet, 4)
}

pub fn get_next_header(packet: &[u8]) -> (value: u8)
    requires
        is_packet(packet@),
    ensures
        value == next_header(packet@),
{
    packet[6]
}

/// A copy of the payload.
pub fn get_payload(packet: &[u8]) -> (bytes: Vec<u8>)
    requires
        is_packet(packet@),
    ensures
        bytes@ == payload(packet@),
{
    let len: usize = packet.len();
    let stated: usize = get_payload_length(packet) as usize;
    let end: usize = if HEADER_LEN + stated < len { HEADER_LEN + stated } else { len };
    if len <= HEADER_LEN {
        Vec::new()
    } else {
        copy_range(packet, HEADER_LEN, end)
    }
}

} // verus!
