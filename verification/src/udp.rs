//! The UDP header: source port, destination port, length and checksum,
//! two bytes each.

use vstd::prelude::*;
use crate::bytes::{be16, copy_from, read_be16, tail};

verus! {

/// Length of the header.
pub const HEADER_LEN: usize = 8;

/// Whether `bytes` is long enough to hold the header.
pub open spec fn is_packet(bytes: Seq<u8>) -> bool {
    bytes.len() >= HEADER_LEN
}

pub open spec fn source(packet: Seq<u8>) -> int {
    be16(packet, 0)
}

pub open spec fn destination(packet: Seq<u8>) -> int {
    be16(packet, 2)
}

pub open spec fn length(packet: Seq<u8>) -> int {
    be16(packet, 4)
}

pub open spec fn checksum(packet: Seq<u8>) -> int {
    be16(packet, 6)
}

/// Everything behind the header.
pub open spec fn payload(packet: Seq<u8>) -> Seq<u8> {
    tail(packet, HEADER_LEN as int)
}

pub fn get_source(packet: &[u8]) -> (value: u16)
    requires
        is_packet(packet@),
    ensures
        value as int == source(packet@),
{
    read_be16(packet, 0)
}

pub fn get_destination(packet: &[u8]) -> (value: u16)
    requires
        is_packet(packet@),
    ensures
        value as int == destination(packet@),
{
    read_be16(packet, 2)
}

pub fn get_length(packet: &[u8]) -> (value: u16)
    requires
        is_packet(packet@),
    ensures
        value as int == length(packet@),
{
    read_be16(packet, 4)
}

pub fn get_checksum(packet: &[u8]) -> (value: u16)
    requires
        is_packet(packet@),
    ensures
        value as int == checksum(packet@),
{
    read_be16(packet, 6)
}

/// A copy of the payload.
pub fn get_payload(packet: &[u8]) -> (bytes: Vec<u8>)
    ensures
        bytes@ == payload(packet@),
{
    copy_from(packet, HEADER_LEN)
}

} // verus!
