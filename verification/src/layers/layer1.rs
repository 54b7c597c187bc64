//! The network layer: IPv4 or IPv6.

use vstd::prelude::*;
use vstd::string::StringExecFns;
use crate::bytes::{copy_all, copy_range};
use crate::error::ClassifyError;
use crate::ethernet;
use crate::ethernet::EthernetFrame;
use crate::ipv4;
use crate::ipv6;
use crate::packet_info::{InfoMap, PacketInfo};
use crate::table::{distinct_keys, lemma_lookup_first, lookup, Table};
use crate::text::{decimal_string, decimal_text, ipv4_string, ipv4_text, ipv6_string, ipv6_text};

verus! {

/// The network packet of a frame, header and payload: all the bytes
/// behind the Ethernet header.
#[derive(Debug, PartialEq, Eq)]
pub enum LayerOne {
    V4(Vec<u8>),
    V6(Vec<u8>),
}

/// What a `LayerOne` stands for.
pub enum NetworkLayer {
    V4(Seq<u8>),
    V6(Seq<u8>),
}

impl View for LayerOne {
    type V = NetworkLayer;

    open spec fn view(&self) -> NetworkLayer {
        match self {
            LayerOne::V4(packet) => NetworkLayer::V4(packet@),
            LayerOne::V6(packet) => NetworkLayer::V6(packet@),
        }
    }
}

/// The fields shown of an IPv4 packet.
pub open spec fn ipv4_info(packet: Seq<u8>) -> Seq<(Seq<char>, Seq<char>)> {
    if ipv4::is_packet(packet) {
        seq![
            ("Version"@, "IPv4"@),
            ("Source IP"@, ipv4_text(ipv4::source(packet))),
            ("Destination IP"@, ipv4_text(ipv4::destination(packet))),
            ("TTL"@, decimal_text(ipv4::ttl(packet) as nat)),
            ("Total Length"@, decimal_text(ipv4::total_length(packet) as nat)),
        ]
    } else {
        seq![("Error"@, "Invalid IPv4 packet"@)]
    }
}

/// The fields shown of an IPv6 packet.
pub open spec fn ipv6_info(packet: Seq<u8>) -> Seq<(Seq<char>, Seq<char>)> {
    if ipv6::is_packet(packet) {
        seq![
            ("Version"@, "IPv6"@),
            ("Source IP"@, ipv6_text(ipv6::source(packet))),
            ("Destination IP"@, ipv6_text(ipv6::destination(packet))),
            ("Traffic Class"@, decimal_text(ipv6::traffic_class(packet) as nat)),
            ("Flow Label"@, decimal_text(ipv6::flow_label(packet) as nat)),
        ]
    } else {
        seq![("Error"@, "Invalid IPv6 packet"@)]
    }
}

impl NetworkLayer {
    /// The bytes of the packet.
    pub open spec fn packet(self) -> Seq<u8> {
        match self {
            NetworkLayer::V4(packet) => packet,
            NetworkLayer::V6(packet) => packet,
        }
    }

    /// The network layer of a frame: by its ethertype IPv4 or IPv6, with
    /// everything behind the Ethernet header as the packet. Any other
    /// ethertype is unsupported, and so is a packet too short for its
    /// header.
    pub open spec fn of_frame(frame: Seq<u8>) -> Result<NetworkLayer, ClassifyError> {
        let packet = ethernet::payload(frame);
        if !ethernet::is_frame(frame) {
            Err(ClassifyError::UnsupportedNetworkProtocol)
        } else if ethernet::ethertype(frame) == ethernet::ETHERTYPE_IPV4 && ipv4::is_packet(
            packet,
        ) {
            Ok(NetworkLayer::V4(packet))
        } else if ethernet::ethertype(frame) == ethernet::ETHERTYPE_IPV6 && ipv6::is_packet(
            packet,
        ) {
            Ok(NetworkLayer::V6(packet))
        } else {
            Err(ClassifyError::UnsupportedNetworkProtocol)
        }
    }

    /// The fields shown of this layer.
    pub open spec fn info(self) -> Seq<(Seq<char>, Seq<char>)> {
        match self {
            NetworkLayer::V4(packet) => ipv4_info(packet),
            NetworkLayer::V6(packet) => ipv6_info(packet),
        }
    }
}

/// The fields of a whole IPv4 packet show the two addresses of its header.
pub proof fn lemma_ipv4_info_shows_addresses(packet: Seq<u8>)
    requires
        ipv4::is_packet(packet),
    ensures
        lookup(ipv4_info(packet), "Source IP"@) == Some(ipv4_text(ipv4::source(packet))),
        lookup(ipv4_info(packet), "Destination IP"@) == Some(
            ipv4_text(ipv4::destination(packet)),
        ),
{
    reveal_strlit("Version");
    reveal_strlit("Source IP");
    reveal_strlit("Destination IP");
    assert("Version"@.len() == 7 && "Source IP"@.len() == 9 && "Destination IP"@.len() == 14);
    lemma_lookup_first(ipv4_info(packet), "Source IP"@, 1);
    lemma_lookup_first(ipv4_info(packet), "Destination IP"@, 2);
}

/// The fields of a whole IPv6 packet show the two addresses of its header.
pub proof fn lemma_ipv6_info_shows_addresses(packet: Seq<u8>)
    requires
        ipv6::is_packet(packet),
    ensures
        lookup(ipv6_info(packet), "Source IP"@) == Some(ipv6_text(ipv6::source(packet))),
        lookup(ipv6_info(packet), "Destination IP"@) == Some(
            ipv6_text(ipv6::destination(packet)),
        ),
{
    reveal_strlit("Version");
    reveal_strlit("Source IP");
    reveal_strlit("Destination IP");
    assert("Version"@.len() == 7 && "Source IP"@.len() == 9 && "Destination IP"@.len() == 14);
    lemma_lookup_first(ipv6_info(packet), "Source IP"@, 1);
    lemma_lookup_first(ipv6_info(packet), "Destination IP"@, 2);
}

impl Clone for LayerOne {
    fn clone(&self) -> (copy: LayerOne)
        ensures
            copy@ == self@,
    {
        match self {
            LayerOne::V4(packet) => LayerOne::V4(copy_all(packet.as_slice())),
            LayerOne::V6(packet) => LayerOne::V6(copy_all(packet.as_slice())),
        }
    }
}

impl LayerOne {
    /// Classifies the network layer of a frame.
    pub fn from_frame(frame: &EthernetFrame) -> (layer: Result<LayerOne, ClassifyError>)
        ensures
            match layer {
                Ok(found) => NetworkLayer::of_frame(frame@) == Ok::<NetworkLayer, ClassifyError>(
                    found@,
                ),
                Err(error) => NetworkLayer::of_frame(frame@) == Err::<NetworkLayer, ClassifyError>(
                    error,
                ),
            },
    {
        let ethertype = frame.get_ethertype();
        let packet = frame.payload();
        if ethertype == ethernet::ETHERTYPE_IPV4 && packet.len() >= ipv4::MIN_HEADER_LEN {
            Ok(LayerOne::V4(packet))
        } else if ethertype == ethernet::ETHERTYPE_IPV6 && packet.len() >= ipv6::HEADER_LEN {
            Ok(LayerOne::V6(packet))
        } else {
            Err(ClassifyError::UnsupportedNetworkProtocol)
        }
    }

    /// The bytes of the packet.
    pub fn packet(&self) -> (bytes: &[u8])
        ensures
            bytes@ == self@.packet(),
    {
        match self {
            LayerOne::V4(packet) => packet.as_slice(),
            LayerOne::V6(packet) => packet.as_slice(),
        }
    }
}

/// The fields shown of an IPv4 packet.
fn ipv4_fields(packet: &[u8]) -> (table: InfoMap)
    ensures
        table@ == ipv4_info(packet@),
        distinct_keys(table@),
{
    let mut table: InfoMap = Table::new();
    if packet.len() >= ipv4::MIN_HEADER_LEN {
        proof {
            reveal_strlit("Version");
            reveal_strlit("Source IP");
            reveal_strlit("Destination IP");
            reveal_strlit("TTL");
            reveal_strlit("Total Length");
            assert("Version"@.len() == 7 && "Source IP"@.len() == 9 && "Destination IP"@.len()
                == 14 && "TTL"@.len() == 3 && "Total Length"@.len() == 12);
        }
        let source = copy_range(packet, 12, 16);
        let destination = copy_range(packet, 16, 20);
        table.insert(String::from_str("Version"), String::from_str("IPv4"));
        table.insert(String::from_str("Source IP"), ipv4_string(source.as_slice()));
        table.insert(String::from_str("Destination IP"), ipv4_string(destination.as_slice()));
        table.insert(String::from_str("TTL"), decimal_string(ipv4::get_ttl(packet) as u64));
        table.insert(
            String::from_str("Total Length"),
            decimal_string(ipv4::get_total_length(packet) as u64),
        );
        assert(table@ =~= ipv4_info(packet@));
    } else {
        table.insert(String::from_str("Error"), String::from_str("Invalid IPv4 packet"));
        assert(table@ =~= ipv4_info(packet@));
    }
    table
}

/// The fields shown of an IPv6 packet.
fn ipv6_fields(packet: &[u8]) -> (table: InfoMap)
    ensures
        table@ == ipv6_info(packet@),
        distinct_keys(table@),
{
    let mut table: InfoMap = Table::new();
    if packet.len() >= ipv6::HEADER_LEN {
        proof {
            reveal_strlit("Version");
            reveal_strlit("Source IP");
            reveal_strlit("Destination IP");
            reveal_strlit("Traffic Class");
            reveal_strlit("Flow Label");
            assert("Version"@.len() == 7 && "Source IP"@.len() == 9 && "Destination IP"@.len()
                == 14 && "Traffic Class"@.len() == 13 && "Flow Label"@.len() == 10);
        }
        let source = copy_range(packet, 8, 24);
        let destination = copy_range(packet, 24, 40);
        table.insert(String::from_str("Version"), String::from_str("IPv6"));
        table.insert(String::from_str("Source IP"), ipv6_string(source.as_slice()));
        table.insert(String::from_str("Destination IP"), ipv6_string(destination.as_slice()));
        table.insert(
            String::from_str("Traffic Class"),
            decimal_string(ipv6::get_traffic_class(packet) as u64),
        );
        table.insert(
            String::from_str("Flow Label"),
            decimal_string(ipv6::get_flow_label(packet) as u64),
        );
        assert(table@ =~= ipv6_info(packet@));
    } else {
        table.insert(String::from_str("Error"), String::from_str("Invalid IPv6 packet"));
        assert(table@ =~= ipv6_info(packet@));
    }
    table
}

impl PacketInfo for LayerOne {
    open spec fn info(&self) -> Seq<(Seq<char>, Seq<char>)> {
        self@.info()
    }

    /// Version, addresses, and time to live with total length (IPv4) or
    /// traffic class with flow label (IPv6). Bytes too short for the header
    /// give the single field `Error`.
    fn get_info(&self) -> (table: InfoMap) {
        match self {
            LayerOne::V4(packet) => ipv4_fields(packet.as_slice()),
            LayerOne::V6(packet) => ipv6_fields(packet.as_slice()),
        }
    }
}

} // verus!
