//! The application layer, guessed from the port numbers alone.

use vstd::prelude::*;
use vstd::string::StringExecFns;
use crate::bytes::copy_all;
use crate::icmpv6;
use crate::layers::layer2::{LayerTwo, TransportLayer};
use crate::packet_info::{InfoMap, PacketInfo};
use crate::table::Table;
use crate::tcp;
use crate::text::{decimal_string, decimal_text};
use crate::udp;

verus! {

/// UDP port of DNS.
pub const PORT_DNS: u16 = 53;

/// UDP port of multicast DNS.
pub const PORT_MDNS: u16 = 5353;

/// TCP port of HTTP.
pub const PORT_HTTP: u16 = 80;

/// TCP port of HTTPS.
pub const PORT_HTTPS: u16 = 443;

/// The payload of a transport packet, named by what it is taken to be.
#[derive(Debug)]
pub enum LayerThree {
    DNS(DNS),
    MDNS(MDNS),
    HTTP(HTTP),
    HTTPS(HTTPS),
    Raw(Raw),
}

#[derive(Debug)]
pub struct DNS {
    pub payload: Vec<u8>,
}

#[derive(Debug)]
pub struct MDNS {
    pub payload: Vec<u8>,
}

#[derive(Debug)]
pub struct HTTP {
    pub payload: Vec<u8>,
}

#[derive(Debug)]
pub struct HTTPS {
    pub payload: Vec<u8>,
}

#[derive(Debug)]
pub struct Raw {
    pub payload: Vec<u8>,
}

/// What a `LayerThree` stands for: the protocol with the payload.
pub enum ApplicationLayer {
    DNS(Seq<u8>),
    MDNS(Seq<u8>),
    HTTP(Seq<u8>),
    HTTPS(Seq<u8>),
    Raw(Seq<u8>),
}

impl View for LayerThree {
    type V = ApplicationLayer;

    open spec fn view(&self) -> ApplicationLayer {
        match self {
            LayerThree::DNS(inner) => ApplicationLayer::DNS(inner.payload@),
            LayerThree::MDNS(inner) => ApplicationLayer::MDNS(inner.payload@),
            LayerThree::HTTP(inner) => ApplicationLayer::HTTP(inner.payload@),
            LayerThree::HTTPS(inner) => ApplicationLayer::HTTPS(inner.payload@),
            LayerThree::Raw(inner) => ApplicationLayer::Raw(inner.payload@),
        }
    }
}

/// Whether one of the two ports is `port`.
pub open spec fn either_port(source: int, destination: int, port: int) -> bool {
    source == port || destination == port
}

/// What is carried over UDP between these ports: DNS where one of them is
/// 53, else multicast DNS where one of them is 5353, else unknown.
pub open spec fn over_udp(source: int, destination: int, payload: Seq<u8>) -> ApplicationLayer {
    if either_port(source, destination, PORT_DNS as int) {
        ApplicationLayer::DNS(payload)
    } else if either_port(source, destination, PORT_MDNS as int) {
        ApplicationLayer::MDNS(payload)
    } else {
        ApplicationLayer::Raw(payload)
    }
}

/// What is carried over TCP between these ports: HTTP where one of them is
/// 80, else HTTPS where one of them is 443, else unknown.
pub open spec fn over_tcp(source: int, destination: int, payload: Seq<u8>) -> ApplicationLayer {
    if either_port(source, destination, PORT_HTTP as int) {
        ApplicationLayer::HTTP(payload)
    } else if either_port(source, destination, PORT_HTTPS as int) {
        ApplicationLayer::HTTPS(payload)
    } else {
        ApplicationLayer::Raw(payload)
    }
}

impl ApplicationLayer {
    /// The payload.
    pub open spec fn payload(self) -> Seq<u8> {
        match self {
            ApplicationLayer::DNS(payload) => payload,
            ApplicationLayer::MDNS(payload) => payload,
            ApplicationLayer::HTTP(payload) => payload,
            ApplicationLayer::HTTPS(payload) => payload,
            ApplicationLayer::Raw(payload) => payload,
        }
    }

    /// The name shown for the protocol.
    pub open spec fn label(self) -> Seq<char> {
        match self {
            ApplicationLayer::DNS(_) => "DNS"@,
            ApplicationLayer::MDNS(_) => "MDNS"@,
            ApplicationLayer::HTTP(_) => "HTTP"@,
            ApplicationLayer::HTTPS(_) => "HTTPS"@,
            ApplicationLayer::Raw(_) => "Raw/Unknown"@,
        }
    }

    /// The application layer of a transport packet: its payload, named by
    /// the ports of UDP and TCP, and unknown under ICMPv6. A packet too
    /// short for its header has none.
    pub open spec fn of_transport(transport: TransportLayer) -> Option<ApplicationLayer> {
        match transport {
            TransportLayer::UDP(packet) => if udp::is_packet(packet) {
                Some(over_udp(udp::source(packet), udp::destination(packet), udp::payload(packet)))
            } else {
                None
            },
            TransportLayer::TCP(packet) => if tcp::is_packet(packet) {
                Some(over_tcp(tcp::source(packet), tcp::destination(packet), tcp::payload(packet)))
            } else {
                None
            },
            TransportLayer::ICMPV6(packet) => if icmpv6::is_packet(packet) {
                Some(ApplicationLayer::Raw(icmpv6::payload(packet)))
            } else {
                None
            },
        }
    }

    /// The fields shown of this layer: the protocol and how long the
    /// payload is, nothing of what it holds.
    pub open spec fn info(self) -> Seq<(Seq<char>, Seq<char>)> {
        seq![("Protocol"@, self.label()), ("Payload Length"@, decimal_text(self.payload().len()))]
    }
}

/// The guess does not depend on which of the two ports is the source: two
/// UDP packets with the same payload whose ports are each other's in
/// exchanged places get the same application layer. With 53 as the source
/// port of the one, and so as the destination port of the other, both are
/// DNS.
pub proof fn lemma_udp_ports_are_unordered(first: Seq<u8>, second: Seq<u8>)
    requires
        udp::is_packet(first),
        udp::is_packet(second),
        udp::source(first) == udp::destination(second),
        udp::destination(first) == udp::source(second),
        udp::payload(first) == udp::payload(second),
    ensures
        ApplicationLayer::of_transport(TransportLayer::UDP(first)) == ApplicationLayer::of_transport(
            TransportLayer::UDP(second),
        ),
        udp::source(first) == PORT_DNS ==> ApplicationLayer::of_transport(
            TransportLayer::UDP(first),
        ) == Some(ApplicationLayer::DNS(udp::payload(first))) && ApplicationLayer::of_transport(
            TransportLayer::UDP(second),
        ) == Some(ApplicationLayer::DNS(udp::payload(second))),
{
}

/// The same of TCP: two packets with the same payload whose ports are each
/// other's in exchanged places get the same application layer.
pub proof fn lemma_tcp_ports_are_unordered(first: Seq<u8>, second: Seq<u8>)
    requires
        tcp::is_packet(first),
        tcp::is_packet(second),
        tcp::source(first) == tcp::destination(second),
        tcp::destination(first) == tcp::source(second),
        tcp::payload(first) == tcp::payload(second),
    ensures
        ApplicationLayer::of_transport(TransportLayer::TCP(first)) == ApplicationLayer::of_transport(
            TransportLayer::TCP(second),
        ),
{
}

impl Clone for DNS {
    fn clone(&self) -> (copy: DNS)
        ensures
            copy.payload@ == self.payload@,
    {
        DNS { payload: copy_all(self.payload.as_slice()) }
    }
}

impl Clone for MDNS {
    fn clone(&self) -> (copy: MDNS)
        ensures
            copy.payload@ == self.payload@,
    {
        MDNS { payload: copy_all(self.payload.as_slice()) }
    }
}

impl Clone for HTTP {
    fn clone(&self) -> (copy: HTTP)
        ensures
            copy.payload@ == self.payload@,
    {
        HTTP { payload: copy_all(self.payload.as_slice()) }
    }
}

impl Clone for HTTPS {
    fn clone(&self) -> (copy: HTTPS)
        ensures
            copy.payload@ == self.payload@,
    {
        HTTPS { payload: copy_all(self.payload.as_slice()) }
    }
}

impl Clone for Raw {
    fn clone(&self) -> (copy: Raw)
        ensures
            copy.payload@ == self.payload@,
    {
        Raw { payload: copy_all(self.payload.as_slice()) }
    }
}

impl Clone for LayerThree {
    fn clone(&self) -> (copy: LayerThree)
        ensures
            copy@ == self@,
    {
        match self {
            LayerThree::DNS(inner) => LayerThree::DNS(inner.clone()),
            LayerThree::MDNS(inner) => LayerThree::MDNS(inner.clone()),
            LayerThree::HTTP(inner) => LayerThree::HTTP(inner.clone()),
            LayerThree::HTTPS(inner) => LayerThree::HTTPS(inner.clone()),
            LayerThree::Raw(inner) => LayerThree::Raw(inner.clone()),
        }
    }
}

/// Names a UDP payload by the ports.
fn name_over_udp(source: u16, destination: u16, payload: Vec<u8>) -> (layer: LayerThree)
    ensures
        layer@ == over_udp(source as int, destination as int, payload@),
{
    if source == PORT_DNS || destination == PORT_DNS {
        LayerThree::DNS(DNS { payload })
    } else if source == PORT_MDNS || destination == PORT_MDNS {
        LayerThree::MDNS(MDNS { payload })
    } else {
        LayerThree::Raw(Raw { payload })
    }
}

/// Names a TCP payload by the ports.
fn name_over_tcp(source: u16, destination: u16, payload: Vec<u8>) -> (layer: LayerThree)
    ensures
        layer@ == over_tcp(source as int, destination as int, payload@),
{
    if source == PORT_HTTP || destination == PORT_HTTP {
        LayerThree::HTTP(HTTP { payload })
    } else if source == PORT_HTTPS || destination == PORT_HTTPS {
        LayerThree::HTTPS(HTTPS { payload })
    } else {
        LayerThree::Raw(Raw { payload })
    }
}

impl LayerThree {
    /// Classifies the application layer of a transport packet.
    pub fn from_transport(transport: &LayerTwo) -> (layer: Option<LayerThree>)
        ensures
            match layer {
                Some(found) => ApplicationLayer::of_transport(transport@) == Some(found@),
                None => ApplicationLayer::of_transport(transport@) is None,
            },
    {
        match transport {
            LayerTwo::UDP(data) => {
                let packet = data.as_slice();
                if packet.len() >= udp::HEADER_LEN {
                    Some(
                        name_over_udp(
                            udp::get_source(packet),
                            udp::get_destination(packet),
                            udp::get_payload(packet),
                        ),
                    )
                } else {
                    None
                }
            },
            LayerTwo::TCP(data) => {
                let packet = data.as_slice();
                if packet.len() >= tcp::MIN_HEADER_LEN {
                    Some(
                        name_over_tcp(
                            tcp::get_source(packet),
                            tcp::get_destination(packet),
                            tcp::get_payload(packet),
                        ),
                    )
                } else {
                    None
                }
            },
            LayerTwo::ICMPV6(data) => {
                let packet = data.as_slice();
                if packet.len() >= icmpv6::HEADER_LEN {
                    Some(LayerThree::Raw(Raw { payload: icmpv6::get_payload(packet) }))
                } else {
                    None
                }
            },
        }
    }

    /// The payload.
    pub fn payload(&self) -> (bytes: &[u8])
        ensures
            bytes@ == self@.payload(),
    {
        match self {
            LayerThree::DNS(inner) => inner.payload.as_slice(),
            LayerThree::MDNS(inner) => inner.payload.as_slice(),
            LayerThree::HTTP(inner) => inner.payload.as_slice(),
            LayerThree::HTTPS(inner) => inner.payload.as_slice(),
            LayerThree::Raw(inner) => inner.payload.as_slice(),
        }
    }

    /// The name shown for the protocol.
    pub fn label(&self) -> (text: &'static str)
        ensures
            text@ == self@.label(),
    {
        match self {
            LayerThree::DNS(_) => "DNS",
            LayerThree::MDNS(_) => "MDNS",
            LayerThree::HTTP(_) => "HTTP",
            LayerThree::HTTPS(_) => "HTTPS",
            LayerThree::Raw(_) => "Raw/Unknown",
        }
    }
}

impl PacketInfo for LayerThree {
    open spec fn info(&self) -> Seq<(Seq<char>, Seq<char>)> {
        self@.info()
    }

    /// The protocol and the length of the payload.
    fn get_info(&self) -> (table: InfoMap) {
        proof {
            reveal_strlit("Protocol");
            reveal_strlit("Payload Length");
            assert("Protocol"@.len() == 8 && "Payload Length"@.len() == 14);
        }
        let mut table: InfoMap = Table::new();
        table.insert(String::from_str("Protocol"), String::from_str(self.label()));
        table.insert(
            String::from_str("Payload Length"),
            decimal_string(self.payload().len() as u64),
        );
        assert(table@ =~= self@.info());
        table
    }
}

} // verus!
