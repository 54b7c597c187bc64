//! The transport layer: TCP, UDP or ICMPv6.

use vstd::prelude::*;
use vstd::string::StringExecFns;
use crate::bytes::{be16, copy_all};
use crate::error::ClassifyError;
use crate::icmpv6;
use crate::ipv4;
use crate::ipv6;
use crate::layers::layer1::{LayerOne, NetworkLayer};
use crate::packet_info::{InfoMap, PacketInfo};
use crate::table::{distinct_keys, lemma_lookup_first, lookup, Table};
use crate::tcp;
use crate::text::{bool_str, bool_text, decimal_string, decimal_text, hex4_string, hex4_text};
use crate::udp;

verus! {

/// Protocol number of TCP.
pub const PROTOCOL_TCP: u8 = 6;

/// Protocol number of UDP.
pub const PROTOCOL_UDP: u8 = 17;

/// Protocol number of ICMPv6.
pub const PROTOCOL_ICMPV6: u8 = 58;

/// The transport packet of a frame, header and payload: the payload of
/// its network packet.
#[derive(Debug, PartialEq, Eq)]
pub enum LayerTwo {
    TCP(Vec<u8>),
    UDP(Vec<u8>),
    ICMPV6(Vec<u8>),
}

/// What a `LayerTwo` stands for.
pub enum TransportLayer {
    TCP(Seq<u8>),
    UDP(Seq<u8>),
    ICMPV6(Seq<u8>),
}

impl View for LayerTwo {
    type V = TransportLayer;

    open spec fn view(&self) -> TransportLayer {
        match self {
            LayerTwo::TCP(packet) => TransportLayer::TCP(packet@),
            LayerTwo::UDP(packet) => TransportLayer::UDP(packet@),
            LayerTwo::ICMPV6(packet) => TransportLayer::ICMPV6(packet@),
        }
    }
}

/// The transport layer that a network packet carries, by the protocol
/// number that its header names: UDP or TCP, and under IPv6 also ICMPv6.
/// Any other number is unsupported, and so is a payload too short for the
/// header of the protocol named.
pub open spec fn carried(protocol: u8, payload: Seq<u8>, over_ipv6: bool) -> Result<
    TransportLayer,
    ClassifyError,
> {
    if protocol == PROTOCOL_UDP && udp::is_packet(payload) {
        Ok(TransportLayer::UDP(payload))
    } else if protocol == PROTOCOL_TCP && tcp::is_packet(payload) {
        Ok(TransportLayer::TCP(payload))
    } else if over_ipv6 && protocol == PROTOCOL_ICMPV6 && icmpv6::is_packet(payload) {
        Ok(TransportLayer::ICMPV6(payload))
    } else {
        Err(ClassifyError::UnsupportedTransportProtocol)
    }
}

/// The source port of a UDP or TCP packet, its first two bytes, in decimal.
pub open spec fn source_port_text(packet: Seq<u8>) -> Seq<char> {
    decimal_text(be16(packet, 0) as nat)
}

/// The destination port of a UDP or TCP packet, its third and fourth byte,
/// in decimal.
pub open spec fn destination_port_text(packet: Seq<u8>) -> Seq<char> {
    decimal_text(be16(packet, 2) as nat)
}

/// Four of the TCP flags, each with `true` or `false`.
pub open spec fn flags_text(flags: u8) -> Seq<char> {
    "ACK:"@ + bool_text(flags & tcp::FLAG_ACK != 0) + " RST:"@ + bool_text(
        flags & tcp::FLAG_RST != 0,
    ) + " SYN:"@ + bool_text(flags & tcp::FLAG_SYN != 0) + " FIN:"@ + bool_text(
        flags & tcp::FLAG_FIN != 0,
    )
}

/// The fields shown of a TCP packet.
pub open spec fn tcp_info(packet: Seq<u8>) -> Seq<(Seq<char>, Seq<char>)> {
    if tcp::is_packet(packet) {
        seq![
            ("Protocol"@, "TCP"@),
            ("Source Port"@, decimal_text(tcp::source(packet) as nat)),
            ("Destination Port"@, decimal_text(tcp::destination(packet) as nat)),
            ("Sequence"@, decimal_text(tcp::sequence(packet) as nat)),
            ("Window Size"@, decimal_text(tcp::window(packet) as nat)),
            ("Flags"@, flags_text(tcp::flags(packet))),
        ]
    } else {
        seq![("Error"@, "Invalid TCP packet"@)]
    }
}

/// The fields shown of a UDP packet.
pub open spec fn udp_info(packet: Seq<u8>) -> Seq<(Seq<char>, Seq<char>)> {
    if udp::is_packet(packet) {
        seq![
            ("Protocol"@, "UDP"@),
            ("Source Port"@, decimal_text(udp::source(packet) as nat)),
            ("Destination Port"@, decimal_text(udp::destination(packet) as nat)),
            ("Length"@, decimal_text(udp::length(packet) as nat)),
            ("Checksum"@, hex4_text(udp::checksum(packet))),
        ]
    } else {
        seq![("Error"@, "Invalid UDP packet"@)]
    }
}

/// The fields shown of an ICMPv6 packet.
pub open spec fn icmpv6_info(packet: Seq<u8>) -> Seq<(Seq<char>, Seq<char>)> {
    if icmpv6::is_packet(packet) {
        seq![("Protocol"@, "ICMPv6"@), ("Checksum"@, hex4_text(icmpv6::checksum(packet)))]
    } else {
        seq![("Error"@, "Invalid ICMPv6 packet"@)]
    }
}

impl TransportLayer {
    /// The bytes of the packet.
    pub open spec fn packet(self) -> Seq<u8> {
        match self {
            TransportLayer::TCP(packet) => packet,
            TransportLayer::UDP(packet) => packet,
            TransportLayer::ICMPV6(packet) => packet,
        }
    }

    /// The transport layer of a network packet: what its payload is, by
    /// the protocol number in its header.
    pub open spec fn of_network(network: NetworkLayer) -> Result<TransportLayer, ClassifyError> {
        match network {
            NetworkLayer::V4(packet) => if ipv4::is_packet(packet) {
                carried(ipv4::next_level_protocol(packet), ipv4::payload(packet), false)
            } else {
                Err(ClassifyError::UnsupportedTransportProtocol)
            },
            NetworkLayer::V6(packet) => if ipv6::is_packet(packet) {
                carried(ipv6::next_header(packet), ipv6::payload(packet), true)
            } else {
                Err(ClassifyError::UnsupportedTransportProtocol)
            },
        }
    }

    /// The fields shown of this layer.
    pub open spec fn info(self) -> Seq<(Seq<char>, Seq<char>)> {
        match self {
            TransportLayer::TCP(packet) => tcp_info(packet),
            TransportLayer::UDP(packet) => udp_info(packet),
            TransportLayer::ICMPV6(packet) => icmpv6_info(packet),
        }
    }
}

/// The fields of a whole TCP packet show the two ports of its header.
pub proof fn lemma_tcp_info_shows_ports(packet: Seq<u8>)
    requires
        tcp::is_packet(packet),
    ensures
        lookup(tcp_info(packet), "Source Port"@) == Some(decimal_text(tcp::source(packet) as nat)),
        lookup(tcp_info(packet), "Destination Port"@) == Some(
            decimal_text(tcp::destination(packet) as nat),
        ),
{
    reveal_strlit("Protocol");
    reveal_strlit("Source Port");
    reveal_strlit("Destination Port");
    assert("Protocol"@.len() == 8 && "Source Port"@.len() == 11 && "Destination Port"@.len()
        == 16);
    lemma_lookup_first(tcp_info(packet), "Source Port"@, 1);
    lemma_lookup_first(tcp_info(packet), "Destination Port"@, 2);
}

/// The fields of a whole UDP packet show the two ports of its header.
pub proof fn lemma_udp_info_shows_ports(packet: Seq<u8>)
    requires
        udp::is_packet(packet),
    ensures
        lookup(udp_info(packet), "Source Port"@) == Some(decimal_text(udp::source(packet) as nat)),
        lookup(udp_info(packet), "Destination Port"@) == Some(
            decimal_text(udp::destination(packet) as nat),
        ),
{
    reveal_strlit("Protocol");
    reveal_strlit("Source Port");
    reveal_strlit("Destination Port");
    assert("Protocol"@.len() == 8 && "Source Port"@.len() == 11 && "Destination Port"@.len()
        == 16);
    lemma_lookup_first(udp_info(packet), "Source Port"@, 1);
    lemma_lookup_first(udp_info(packet), "Destination Port"@, 2);
}

/// Bytes that end inside the header of the protocol they are taken for
/// show one field, `Error`, that names the protocol.
pub proof fn lemma_truncated_transport_shows_error(packet: Seq<u8>)
    ensures
        !tcp::is_packet(packet) ==> TransportLayer::TCP(packet).info() == seq![
            ("Error"@, "Invalid TCP packet"@),
        ],
        !udp::is_packet(packet) ==> TransportLayer::UDP(packet).info() == seq![
            ("Error"@, "Invalid UDP packet"@),
        ],
        !icmpv6::is_packet(packet) ==> TransportLayer::ICMPV6(packet).info() == seq![
            ("Error"@, "Invalid ICMPv6 packet"@),
        ],
{
}

impl Clone for LayerTwo {
    fn clone(&self) -> (copy: LayerTwo)
        ensures
            copy@ == self@,
    {
        match self {
            LayerTwo::TCP(packet) => LayerTwo::TCP(copy_all(packet.as_slice())),
            LayerTwo::UDP(packet) => LayerTwo::UDP(copy_all(packet.as_slice())),
            LayerTwo::ICMPV6(packet) => LayerTwo::ICMPV6(copy_all(packet.as_slice())),
        }
    }
}

/// Takes `payload` as the transport packet that `protocol` names.
fn carried_packet(protocol: u8, payload: Vec<u8>, over_ipv6: bool) -> (layer: Result<
    LayerTwo,
    ClassifyError,
>)
    ensures
        match layer {
            Ok(found) => carried(protocol, payload@, over_ipv6) == Ok::<
                TransportLayer,
                ClassifyError,
            >(found@),
            Err(error) => carried(protocol, payload@, over_ipv6) == Err::<
                TransportLayer,
                ClassifyError,
            >(error),
        },
{
    if protocol == PROTOCOL_UDP && payload.len() >= udp::HEADER_LEN {
        Ok(LayerTwo::UDP(payload))
    } else if protocol == PROTOCOL_TCP && payload.len() >= tcp::MIN_HEADER_LEN {
        Ok(LayerTwo::TCP(payload))
    } else if over_ipv6 && protocol == PROTOCOL_ICMPV6 && payload.len() >= icmpv6::HEADER_LEN {
        Ok(LayerTwo::ICMPV6(payload))
    } else {
        Err(ClassifyError::UnsupportedTransportProtocol)
    }
}

impl LayerTwo {
    /// Classifies the transport layer of a network packet.
    pub fn from_network(network: &LayerOne) -> (layer: Result<LayerTwo, ClassifyError>)
        ensures
            match layer {
                Ok(found) => TransportLayer::of_network(network@) == Ok::<
                    TransportLayer,
                    ClassifyError,
                >(found@),
                Err(error) => TransportLayer::of_network(network@) == Err::<
                    TransportLayer,
                    ClassifyError,
                >(error),
            },
    {
        match network {
            LayerOne::V4(data) => {
                let packet = data.as_slice();
                if packet.len() >= ipv4::MIN_HEADER_LEN {
                    carried_packet(
                        ipv4::get_next_level_protocol(packet),
                        ipv4::get_payload(packet),
                        false,
                    )
                } else {
                    Err(ClassifyError::UnsupportedTransportProtocol)
                }
            },
            LayerOne::V6(data) => {
                let packet = data.as_slice();
                if packet.len() >= ipv6::HEADER_LEN {
                    carried_packet(ipv6::get_next_header(packet), ipv6::get_payload(packet), true)
                } else {
                    Err(ClassifyError::UnsupportedTransportProtocol)
                }
            },
        }
    }

    /// The bytes of the packet.
    pub fn packet(&self) -> (bytes: &[u8])
        ensures
            bytes@ == self@.packet(),
    {
        match self {
            LayerTwo::TCP(packet) => packet.as_slice(),
            LayerTwo::UDP(packet) => packet.as_slice(),
            LayerTwo::ICMPV6(packet) => packet.as_slice(),
        }
    }
}

/// Four of the TCP flags, each with `true` or `false`.
pub fn flags_string(flags: u8) -> (text: String)
    ensures
        text@ == flags_text(flags),
{
    let mut text = String::from_str("ACK:");
    text.append(bool_str(flags & tcp::FLAG_ACK != 0));
    text.append(" RST:");
    text.append(bool_str(flags & tcp::FLAG_RST != 0));
    text.append(" SYN:");
    text.append(bool_str(flags & tcp::FLAG_SYN != 0));
    text.append(" FIN:");
    text.append(bool_str(flags & tcp::FLAG_FIN != 0));
    text
}

/// The fields shown of a TCP packet.
fn tcp_fields(packet: &[u8]) -> (table: InfoMap)
    ensures
        table@ == tcp_info(packet@),
        distinct_keys(table@),
{
    let mut table: InfoMap = Table::new();
    if packet.len() >= tcp::MIN_HEADER_LEN {
        proof {
            reveal_strlit("Protocol");
            reveal_strlit("Source Port");
            reveal_strlit("Destination Port");
            reveal_strlit("Sequence");
            reveal_strlit("Window Size");
            reveal_strlit("Flags");
            assert("Protocol"@.len() == 8 && "Source Port"@.len() == 11 && "Destination Port"@.len()
                == 16 && "Sequence"@.len() == 8 && "Window Size"@.len() == 11 && "Flags"@.len()
                == 5);
            assert("Protocol"@[0] == 'P' && "Sequence"@[0] == 'S' && "Source Port"@[0] == 'S'
                && "Window Size"@[0] == 'W');
        }
        table.insert(String::from_str("Protocol"), String::from_str("TCP"));
        table.insert(
            String::from_str("Source Port"),
            decimal_string(tcp::get_source(packet) as u64),
        );
        table.insert(
            String::from_str("Destination Port"),
            decimal_string(tcp::get_destination(packet) as u64),
        );
        table.insert(String::from_str("Sequence"), decimal_string(tcp::get_sequence(packet) as u64));
        table.insert(
            String::from_str("Window Size"),
            decimal_string(tcp::get_window(packet) as u64),
        );
        table.insert(String::from_str("Flags"), flags_string(tcp::get_flags(packet)));
        assert(table@ =~= tcp_info(packet@));
    } else {
        table.insert(String::from_str("Error"), String::from_str("Invalid TCP packet"));
        assert(table@ =~= tcp_info(packet@));
    }
    table
}

/// The fields shown of a UDP packet.
fn udp_fields(packet: &[u8]) -> (table: InfoMap)
    ensures
        table@ == udp_info(packet@),
        distinct_keys(table@),
{
    let mut table: InfoMap = Table::new();
    if packet.len() >= udp::HEADER_LEN {
        proof {
            reveal_strlit("Protocol");
            reveal_strlit("Source Port");
            reveal_strlit("Destination Port");
            reveal_strlit("Length");
            reveal_strlit("Checksum");
            assert("Protocol"@.len() == 8 && "Source Port"@.len() == 11 && "Destination Port"@.len()
                == 16 && "Length"@.len() == 6 && "Checksum"@.len() == 8);
            assert("Protocol"@[0] == 'P' && "Checksum"@[0] == 'C');
        }
        table.insert(String::from_str("Protocol"), String::from_str("UDP"));
        table.insert(
            String::from_str("Source Port"),
            decimal_string(udp::get_source(packet) as u64),
        );
        table.insert(
            String::from_str("Destination Port"),
            decimal_string(udp::get_destination(packet) as u64),
        );
        table.insert(String::from_str("Length"), decimal_string(udp::get_length(packet) as u64));
        table.insert(String::from_str("Checksum"), hex4_string(udp::get_checksum(packet)));
        assert(table@ =~= udp_info(packet@));
    } else {
        table.insert(String::from_str("Error"), String::from_str("Invalid UDP packet"));
        assert(table@ =~= udp_info(packet@));
    }
    table
}

/// The fields shown of an ICMPv6 packet.
fn icmpv6_fields(packet: &[u8]) -> (table: InfoMap)
    ensures
        table@ == icmpv6_info(packet@),
        distinct_keys(table@),
{
    let mut table: InfoMap = Table::new();
    if packet.len() >= icmpv6::HEADER_LEN {
        proof {
            reveal_strlit("Protocol");
            reveal_strlit("Checksum");
            assert("Protocol"@[0] == 'P' && "Checksum"@[0] == 'C');
        }
        table.insert(String::from_str("Protocol"), String::from_str("ICMPv6"));
        table.insert(String::from_str("Checksum"), hex4_string(icmpv6::get_checksum(packet)));
        assert(table@ =~= icmpv6_info(packet@));
    } else {
        table.insert(String::from_str("Error"), String::from_str("Invalid ICMPv6 packet"));
        assert(table@ =~= icmpv6_info(packet@));
    }
    table
}

impl PacketInfo for LayerTwo {
    open spec fn info(&self) -> Seq<(Seq<char>, Seq<char>)> {
        self@.info()
    }

    /// Protocol and, as far as the protocol has them, ports, sequence
    /// number, window, flags, length and checksum. Bytes too short for the
    /// header give the single field `Error`.
    fn get_info(&self) -> (table: InfoMap) {
        match self {
            LayerTwo::TCP(packet) => tcp_fields(packet.as_slice()),
            LayerTwo::UDP(packet) => udp_fields(packet.as_slice()),
            LayerTwo::ICMPV6(packet) => icmpv6_fields(packet.as_slice()),
        }
    }
}

} // verus!
