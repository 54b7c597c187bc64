//! A frame classified into its three layers.

use vstd::prelude::*;
use vstd::string::StringExecFns;
use crate::error::ClassifyError;
use crate::ethernet;
use crate::ethernet::EthernetFrame;
use crate::icmpv6;
use crate::ipv4;
use crate::ipv6;
use crate::layers::layer1::{
    lemma_ipv4_info_shows_addresses, lemma_ipv6_info_shows_addresses, LayerOne, NetworkLayer,
};
use crate::layers::layer2::{
    destination_port_text, lemma_tcp_info_shows_ports, lemma_udp_info_shows_ports,
    source_port_text, LayerTwo, TransportLayer, PROTOCOL_ICMPV6, PROTOCOL_TCP, PROTOCOL_UDP,
};
use crate::layers::layer3::{ApplicationLayer, LayerThree};
use crate::packet_info::{InfoMap, PacketInfo};
use crate::record::PresentationRecord;
use crate::table::{distinct_keys, lookup, Table};
use crate::tcp;
use crate::text::{ipv4_text, ipv6_text};
use crate::udp;

verus! {

/// What a `MyPacket` stands for: the three layers of one frame.
pub struct ClassifiedPacket {
    pub network: NetworkLayer,
    pub transport: TransportLayer,
    pub application: Option<ApplicationLayer>,
}

impl ClassifiedPacket {
    /// Whether each layer is what the classifier finds in the layer below
    /// it.
    pub open spec fn is_layered(self) -> bool {
        &&& TransportLayer::of_network(self.network) == Ok::<TransportLayer, ClassifyError>(
            self.transport,
        )
        &&& self.application == ApplicationLayer::of_transport(self.transport)
    }
}

/// The classification of a frame: its network layer, the transport layer
/// of that, and the application layer of that. It fails where the first or
/// the second stage does, with the error of that stage.
pub open spec fn classify(frame: Seq<u8>) -> Result<ClassifiedPacket, ClassifyError> {
    match NetworkLayer::of_frame(frame) {
        Err(error) => Err(error),
        Ok(network) => match TransportLayer::of_network(network) {
            Err(error) => Err(error),
            Ok(transport) => Ok(
                ClassifiedPacket {
                    network,
                    transport,
                    application: ApplicationLayer::of_transport(transport),
                },
            ),
        },
    }
}

/// The fields of all layers of a packet, each layer under its name.
pub open spec fn packet_info(packet: ClassifiedPacket) -> Seq<
    (Seq<char>, Seq<(Seq<char>, Seq<char>)>),
> {
    let layers = seq![
        ("Layer 1"@, packet.network.info()),
        ("Layer 2"@, packet.transport.info()),
    ];
    match packet.application {
        Some(application) => layers.push(("Layer 3"@, application.info())),
        None => layers,
    }
}

/// One line for each field: the name, a colon and a blank, the value.
pub open spec fn lines_text(info: Seq<(Seq<char>, Seq<char>)>) -> Seq<char>
    decreases info.len(),
{
    if info.len() == 0 {
        Seq::empty()
    } else {
        lines_text(info.drop_last()) + info.last().0 + ": "@ + info.last().1 + "\n"@
    }
}

/// The report of a packet: a title, then each layer under a heading.
pub open spec fn pretty_text(packet: ClassifiedPacket) -> Seq<char> {
    let layers = "=== Packet Information ===\n\n"@ + "Layer 1 (Network):\n----------------\n"@
        + lines_text(packet.network.info()) + "\nLayer 2 (Transport):\n------------------\n"@
        + lines_text(packet.transport.info());
    match packet.application {
        Some(application) => layers + "\nLayer 3 (Application):\n--------------------\n"@
            + lines_text(application.info()),
        None => layers,
    }
}

/// One frame with its three layers. It is made once and never changed.
#[derive(Debug)]
pub struct MyPacket {
    layer_1: LayerOne,
    layer_2: LayerTwo,
    layer_3: Option<LayerThree>,
}

impl View for MyPacket {
    type V = ClassifiedPacket;

    closed spec fn view(&self) -> ClassifiedPacket {
        ClassifiedPacket {
            network: self.layer_1@,
            transport: self.layer_2@,
            application: match self.layer_3 {
                Some(layer) => Some(layer@),
                None => None,
            },
        }
    }
}

impl MyPacket {
    #[verifier::type_invariant]
    spec fn layered(self) -> bool {
        self@.is_layered()
    }

    /// Classifies a frame, stage by stage. A frame that is not IPv4 or
    /// IPv6, or whose transport protocol is not recognized, or whose bytes
    /// end inside a header, gives the error of the stage that met it.
    pub fn new(layer_1_packet: &EthernetFrame) -> (packet: Result<MyPacket, ClassifyError>)
        ensures
            match packet {
                Ok(found) => classify(layer_1_packet@) == Ok::<ClassifiedPacket, ClassifyError>(
                    found@,
                ),
                Err(error) => classify(layer_1_packet@) == Err::<ClassifiedPacket, ClassifyError>(
                    error,
                ),
            },
    {
        let layer_1 = match LayerOne::from_frame(layer_1_packet) {
            Ok(layer) => layer,
            Err(error) => {
                return Err(error);
            },
        };
        let layer_2 = match LayerTwo::from_network(&layer_1) {
            Ok(layer) => layer,
            Err(error) => {
                return Err(error);
            },
        };
        let layer_3 = LayerThree::from_transport(&layer_2);
        Ok(MyPacket { layer_1, layer_2, layer_3 })
    }
}

/// Appends one line for each field of `table`.
fn push_lines(text: &mut String, table: &InfoMap)
    ensures
        final(text)@ == old(text)@ + lines_text(table@),
{
    let ghost before = text@;
    let entries = table.entries();
    let mut at: usize = 0;
    assert(table@.take(0) =~= Seq::empty());
    assert(text@ =~= before + lines_text(table@.take(0)));
    while at < entries.len()
        invariant
            at <= entries@.len(),
            entries@.len() == table@.len(),
            forall|i: int|
                0 <= i < entries@.len() ==> (#[trigger] entries@[i]).key@ == table@[i].0
                    && entries@[i].value@ == table@[i].1,
            text@ == before + lines_text(table@.take(at as int)),
        decreases entries@.len() - at,
    {
        let entry = &entries[at];
        text.append(entry.key.as_str());
        text.append(": ");
        text.append(entry.value.as_str());
        text.append("\n");
        proof {
            let shown = table@.take(at + 1);
            assert(shown.drop_last() =~= table@.take(at as int));
            assert(shown.last() == table@[at as int]);
            assert(text@ =~= before + lines_text(shown));
        }
        at = at + 1;
    }
    assert(table@.take(at as int) =~= table@);
}

/// What can be asked of a classified packet.
pub trait CustomPacket {
    /// The layers of this packet.
    spec fn classified(&self) -> ClassifiedPacket;

    /// A copy of the network layer.
    fn get_network(&self) -> (layer: LayerOne)
        ensures
            layer@ == self.classified().network,
    ;

    /// A copy of the transport layer. It is what the classifier finds in
    /// the network layer.
    fn get_transport(&self) -> (layer: LayerTwo)
        ensures
            layer@ == self.classified().transport,
            TransportLayer::of_network(self.classified().network) == Ok::<
                TransportLayer,
                ClassifyError,
            >(layer@),
    ;

    /// A copy of the application layer, where there is one. It is what the
    /// classifier finds in the transport layer.
    fn get_application(&self) -> (layer: Option<LayerThree>)
        ensures
            match layer {
                Some(found) => self.classified().application == Some(found@),
                None => self.classified().application is None,
            },
            self.classified().application == ApplicationLayer::of_transport(
                self.classified().transport,
            ),
    ;

    /// The report of this packet as text, for the caller to print.
    fn pretty_print(&self) -> (text: String)
        ensures
            text@ == pretty_text(self.classified()),
    ;

    /// The fields of all layers, each layer under its name.
    fn get_packet_info(&self) -> (record: PresentationRecord)
        ensures
            record@ == packet_info(self.classified()),
            distinct_keys(record@),
    ;
}

impl CustomPacket for MyPacket {
    open spec fn classified(&self) -> ClassifiedPacket {
        self@
    }

    fn get_network(&self) -> (layer: LayerOne) {
        self.layer_1.clone()
    }

    fn get_transport(&self) -> (layer: LayerTwo) {
        proof {
            use_type_invariant(self);
        }
        self.layer_2.clone()
    }

    fn get_application(&self) -> (layer: Option<LayerThree>) {
        proof {
            use_type_invariant(self);
        }
        match &self.layer_3 {
            Some(layer) => Some(layer.clone()),
            None => None,
        }
    }

    fn get_packet_info(&self) -> (record: PresentationRecord) {
        proof {
            reveal_strlit("Layer 1");
            reveal_strlit("Layer 2");
            reveal_strlit("Layer 3");
            assert("Layer 1"@[6] == '1' && "Layer 2"@[6] == '2' && "Layer 3"@[6] == '3');
        }
        let mut record: PresentationRecord = Table::new();
        record.insert(String::from_str("Layer 1"), self.layer_1.get_info());
        record.insert(String::from_str("Layer 2"), self.layer_2.get_info());
        if let Some(layer_3) = &self.layer_3 {
            record.insert(String::from_str("Layer 3"), layer_3.get_info());
        }
        assert(record@ =~= packet_info(self@));
        record
    }

    fn pretty_print(&self) -> (text: String) {
        let mut text = String::from_str("=== Packet Information ===\n\n");
        text.append("Layer 1 (Network):\n----------------\n");
        push_lines(&mut text, &self.layer_1.get_info());
        text.append("\nLayer 2 (Transport):\n------------------\n");
        push_lines(&mut text, &self.layer_2.get_info());
        if let Some(layer_3) = &self.layer_3 {
            text.append("\nLayer 3 (Application):\n--------------------\n");
            push_lines(&mut text, &layer_3.get_info());
        }
        assert(text@ =~= pretty_text(self@));
        text
    }
}

/// A frame that names IPv4 and UDP or TCP, and holds both headers whole, is
/// classified as that, and its layers show the addresses and the ports
/// that stand in the frame.
pub proof fn lemma_ipv4_frame_round_trip(frame: Seq<u8>)
    requires
        ethernet::is_frame(frame),
        ethernet::ethertype(frame) == ethernet::ETHERTYPE_IPV4,
        ipv4::is_packet(ethernet::payload(frame)),
        ({
            let protocol = ipv4::next_level_protocol(ethernet::payload(frame));
            let segment = ipv4::payload(ethernet::payload(frame));
            ||| protocol == PROTOCOL_UDP && udp::is_packet(segment)
            ||| protocol == PROTOCOL_TCP && tcp::is_packet(segment)
        }),
    ensures
        classify(frame) matches Ok(packet) && {
            let protocol = ipv4::next_level_protocol(ethernet::payload(frame));
            let segment = ipv4::payload(ethernet::payload(frame));
            &&& packet.network == NetworkLayer::V4(ethernet::payload(frame))
            &&& protocol == PROTOCOL_UDP ==> packet.transport == TransportLayer::UDP(segment)
            &&& protocol == PROTOCOL_TCP ==> packet.transport == TransportLayer::TCP(segment)
            &&& lookup(packet.network.info(), "Source IP"@) == Some(
                ipv4_text(frame.subrange(26, 30)),
            )
            &&& lookup(packet.network.info(), "Destination IP"@) == Some(
                ipv4_text(frame.subrange(30, 34)),
            )
            &&& lookup(packet.transport.info(), "Source Port"@) == Some(source_port_text(segment))
            &&& lookup(packet.transport.info(), "Destination Port"@) == Some(destination_port_text(segment))
        },
{
    let datagram = ethernet::payload(frame);
    let segment = ipv4::payload(datagram);
    lemma_ipv4_info_shows_addresses(datagram);
    assert(ipv4::source(datagram) =~= frame.subrange(26, 30));
    assert(ipv4::destination(datagram) =~= frame.subrange(30, 34));
    if ipv4::next_level_protocol(datagram) == PROTOCOL_UDP {
        lemma_udp_info_shows_ports(segment);
    } else {
        lemma_tcp_info_shows_ports(segment);
    }
}

/// A frame that names IPv6 and UDP, TCP or ICMPv6, and holds both headers
/// whole, is classified as that, and its layers show the addresses and,
/// under UDP and TCP, the ports that stand in the frame.
pub proof fn lemma_ipv6_frame_round_trip(frame: Seq<u8>)
    requires
        ethernet::is_frame(frame),
        ethernet::ethertype(frame) == ethernet::ETHERTYPE_IPV6,
        ipv6::is_packet(ethernet::payload(frame)),
        ({
            let protocol = ipv6::next_header(ethernet::payload(frame));
            let segment = ipv6::payload(ethernet::payload(frame));
            ||| protocol == PROTOCOL_UDP && udp::is_packet(segment)
            ||| protocol == PROTOCOL_TCP && tcp::is_packet(segment)
            ||| protocol == PROTOCOL_ICMPV6 && icmpv6::is_packet(segment)
        }),
    ensures
        classify(frame) matches Ok(packet) && {
            let protocol = ipv6::next_header(ethernet::payload(frame));
            let segment = ipv6::payload(ethernet::payload(frame));
            &&& packet.network == NetworkLayer::V6(ethernet::payload(frame))
            &&& protocol == PROTOCOL_UDP ==> packet.transport == TransportLayer::UDP(segment)
            &&& protocol == PROTOCOL_TCP ==> packet.transport == TransportLayer::TCP(segment)
            &&& protocol == PROTOCOL_ICMPV6 ==> packet.transport == TransportLayer::ICMPV6(segment)
            &&& lookup(packet.network.info(), "Source IP"@) == Some(
                ipv6_text(frame.subrange(22, 38)),
            )
            &&& lookup(packet.network.info(), "Destination IP"@) == Some(
                ipv6_text(frame.subrange(38, 54)),
            )
            &&& protocol != PROTOCOL_ICMPV6 ==> lookup(packet.transport.info(), "Source Port"@)
                == Some(source_port_text(segment))
            &&& protocol != PROTOCOL_ICMPV6 ==> lookup(
                packet.transport.info(),
                "Destination Port"@,
            ) == Some(destination_port_text(segment))
        },
{
    let datagram = ethernet::payload(frame);
    let segment = ipv6::payload(datagram);
    lemma_ipv6_info_shows_addresses(datagram);
    assert(ipv6::source(datagram) =~= frame.subrange(22, 38));
    assert(ipv6::destination(datagram) =~= frame.subrange(38, 54));
    if ipv6::next_header(datagram) == PROTOCOL_UDP {
        lemma_udp_info_shows_ports(segment);
    } else if ipv6::next_header(datagram) == PROTOCOL_TCP {
        lemma_tcp_info_shows_ports(segment);
    }
}

/// A frame whose ethertype is neither IPv4 nor IPv6 is refused at the
/// first stage; one whose network packet names a transport protocol that
/// is not recognized there is refused at the second. Neither gets a packet.
pub proof fn lemma_unrecognized_frame_is_refused(frame: Seq<u8>)
    requires
        ethernet::is_frame(frame),
    ensures
        ethernet::ethertype(frame) != ethernet::ETHERTYPE_IPV4 && ethernet::ethertype(frame)
            != ethernet::ETHERTYPE_IPV6 ==> classify(frame) == Err::<
            ClassifiedPacket,
            ClassifyError,
        >(ClassifyError::UnsupportedNetworkProtocol),
        NetworkLayer::of_frame(frame) matches Ok(NetworkLayer::V4(datagram)) && ({
            let protocol = ipv4::next_level_protocol(datagram);
            protocol != PROTOCOL_UDP && protocol != PROTOCOL_TCP
        }) ==> classify(frame) == Err::<ClassifiedPacket, ClassifyError>(
            ClassifyError::UnsupportedTransportProtocol,
        ),
        NetworkLayer::of_frame(frame) matches Ok(NetworkLayer::V6(datagram)) && ({
            let protocol = ipv6::next_header(datagram);
            protocol != PROTOCOL_UDP && protocol != PROTOCOL_TCP && protocol != PROTOCOL_ICMPV6
        }) ==> classify(frame) == Err::<ClassifiedPacket, ClassifyError>(
            ClassifyError::UnsupportedTransportProtocol,
        ),
{
}

} // verus!
