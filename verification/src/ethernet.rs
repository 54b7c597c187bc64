//! The Ethernet II frame header.
//!
//! ```text
//! 0        6        12         14
//! | dest   | source | ethertype | payload ...
//! ```

use vstd::prelude::*;
use crate::bytes::{be16, copy_all, copy_from, read_be16, tail};

verus! {

/// Length of the header: two hardware addresses and the ethertype.
pub const HEADER_LEN: usize = 14;

/// Ethertype of IPv4.
pub const ETHERTYPE_IPV4: u16 = 0x0800;

/// Ethertype of IPv6.
pub const ETHERTYPE_IPV6: u16 = 0x86DD;

/// Whether `bytes` is long enough to hold an Ethernet header.
pub open spec fn is_frame(bytes: Seq<u8>) -> bool {
    bytes.len() >= HEADER_LEN
}

/// The protocol type field of a frame.
pub open spec fn ethertype(frame: Seq<u8>) -> int {
    be16(frame, 12)
}

/// Everything behind the header of a frame.
pub open spec fn payload(frame: Seq<u8>) -> Seq<u8> {
    tail(frame, HEADER_LEN as int)
}

/// One frame as the capture device delivered it, link-layer header included.
/// A value of this type always holds a complete header.
pub struct EthernetFrame {
    bytes: Vec<u8>,
}

impl View for EthernetFrame {
    type V = Seq<u8>;

    closed spec fn view(&self) -> Seq<u8> {
        self.bytes@
    }
}

impl EthernetFrame {
    #[verifier::type_invariant]
    spec fn complete(self) -> bool {
        is_frame(self.bytes@)
    }

    /// Takes `bytes` as a frame. Bytes too short to hold the header are no
    /// frame.
    pub fn new(bytes: &[u8]) -> (frame: Option<EthernetFrame>)
        ensures
            frame is Some <==> is_frame(bytes@),
            frame matches Some(f) ==> f@ == bytes@,
    {
        if bytes.len() >= HEADER_LEN {
            Some(EthernetFrame { bytes: copy_all(bytes) })
        } else {
            None
        }
    }

    /// The whole frame.
    pub fn packet(&self) -> (bytes: &[u8])
        ensures
            bytes@ == self@,
            is_frame(bytes@),
    {
        proof {
            use_type_invariant(self);
        }
        self.bytes.as_slice()
    }

    /// The protocol type field.
    pub fn get_ethertype(&self) -> (value: u16)
        ensures
            value as int == ethertype(self@),
            is_frame(self@),
    {
        proof {
            use_type_invariant(self);
        }
        read_be16(self.bytes.as_slice(), 12)
    }

    /// A copy of what follows the header.
    pub fn payload(&self) -> (bytes: Vec<u8>)
        ensures
            bytes@ == payload(self@),
            is_frame(self@),
    {
        proof {
            use_type_invariant(self);
        }
        copy_from(self.bytes.as_slice(), HEADER_LEN)
    }
}

} // verus!
