use packet_sniffer::custom_packet::{CustomPacket, MyPacket};
use packet_sniffer::error::ClassifyError;
use packet_sniffer::ethernet::EthernetFrame;
use packet_sniffer::layers::layer1::LayerOne;
use packet_sniffer::layers::layer2::LayerTwo;
use packet_sniffer::layers::layer3::LayerThree;
use packet_sniffer::packet_info::{InfoMap, PacketInfo};

fn ethernet(ethertype: u16, payload: &[u8]) -> Vec<u8> {
    let mut frame = vec![0xde, 0xad, 0xbe, 0xef, 0x00, 0x01, 0x02, 0x00, 0x00, 0x00, 0x00, 0x02];
    frame.extend_from_slice(&ethertype.to_be_bytes());
    frame.extend_from_slice(payload);
    frame
}

fn ipv4(protocol: u8, source: [u8; 4], destination: [u8; 4], payload: &[u8]) -> Vec<u8> {
    let total = u16::try_from(20 + payload.len()).unwrap();
    let mut packet = vec![0x45, 0x00];
    packet.extend_from_slice(&total.to_be_bytes());
    packet.extend_from_slice(&[0x1c, 0x46, 0x40, 0x00, 64, protocol, 0x00, 0x00]);
    packet.extend_from_slice(&source);
    packet.extend_from_slice(&destination);
    packet.extend_from_slice(payload);
    packet
}

fn ipv6(next_header: u8, source: [u8; 16], destination: [u8; 16], payload: &[u8]) -> Vec<u8> {
    let length = u16::try_from(payload.len()).unwrap();
    let mut packet = vec![0x6a, 0xb1, 0x23, 0x45];
    packet.extend_from_slice(&length.to_be_bytes());
    packet.extend_from_slice(&[next_header, 255]);
    packet.extend_from_slice(&source);
    packet.extend_from_slice(&destination);
    packet.extend_from_slice(payload);
    packet
}

fn udp(source: u16, destination: u16, checksum: u16, payload: &[u8]) -> Vec<u8> {
    let length = u16::try_from(8 + payload.len()).unwrap();
    let mut packet = Vec::new();
    packet.extend_from_slice(&source.to_be_bytes());
    packet.extend_from_slice(&destination.to_be_bytes());
    packet.extend_from_slice(&length.to_be_bytes());
    packet.extend_from_slice(&checksum.to_be_bytes());
    packet.extend_from_slice(payload);
    packet
}

fn tcp(source: u16, destination: u16, sequence: u32, flags: u8, payload: &[u8]) -> Vec<u8> {
    let mut packet = Vec::new();
    packet.extend_from_slice(&source.to_be_bytes());
    packet.extend_from_slice(&destination.to_be_bytes());
    packet.extend_from_slice(&sequence.to_be_bytes());
    packet.extend_from_slice(&[0, 0, 0, 0, 0x50, flags, 0x20, 0x00, 0, 0, 0, 0]);
    packet.extend_from_slice(payload);
    packet
}

fn echo_request(checksum: u16, payload: &[u8]) -> Vec<u8> {
    let mut packet = vec![128, 0];
    packet.extend_from_slice(&checksum.to_be_bytes());
    packet.extend_from_slice(payload);
    packet
}

const LINK_LOCAL: [u8; 16] = [0xfe, 0x80, 0, 0, 0, 0, 0, 0, 0, 0, 0, 0, 0, 0, 0, 1];

const ALL_MDNS: [u8; 16] = [0xff, 0x02, 0, 0, 0, 0, 0, 0, 0, 0, 0, 0, 0, 0, 0, 0xfb];

fn classify(frame: &[u8]) -> Result<MyPacket, ClassifyError> {
    MyPacket::new(&EthernetFrame::new(frame).expect("a whole Ethernet header"))
}

fn field<'a>(table: &'a InfoMap, key: &str) -> Option<&'a str> {
    table.get(key).map(|value| value.as_str())
}

fn keys(table: &InfoMap) -> Vec<&str> {
    table.entries().iter().map(|entry| entry.key.as_str()).collect()
}

fn dns_query_frame() -> Vec<u8> {
    let segment = udp(51000, 53, 0x00ff, &[0x12, 0x34, 0x01, 0x00]);
    ethernet(0x0800, &ipv4(17, [192, 168, 1, 10], [8, 8, 8, 8], &segment))
}

#[test]
fn frame_shorter_than_header_is_no_frame() {
    assert!(EthernetFrame::new(&[0u8; 13]).is_none());
    assert!(EthernetFrame::new(&[0u8; 14]).is_some());
}

#[test]
fn frame_gives_ethertype_and_payload() {
    let frame = EthernetFrame::new(&ethernet(0x86dd, &[1, 2, 3])).unwrap();
    assert_eq!(frame.get_ethertype(), 0x86dd);
    assert_eq!(frame.payload(), vec![1, 2, 3]);
    assert_eq!(frame.packet().len(), 17);
}

#[test]
fn ipv4_udp_to_port_53_is_dns() {
    let frame = dns_query_frame();
    let packet = classify(&frame).unwrap();
    assert_eq!(packet.get_network(), LayerOne::V4(frame[14..].to_vec()));
    assert_eq!(packet.get_transport(), LayerTwo::UDP(frame[34..].to_vec()));
    match packet.get_application() {
        Some(LayerThree::DNS(dns)) => assert_eq!(dns.payload, vec![0x12, 0x34, 0x01, 0x00]),
        other => panic!("expected DNS, got {:?}", other),
    }
}

#[test]
fn ipv4_udp_fields_are_exact() {
    let packet = classify(&dns_query_frame()).unwrap();
    let network = packet.get_network().get_info();
    assert_eq!(keys(&network), vec!["Version", "Source IP", "Destination IP", "TTL", "Total Length"]);
    assert_eq!(field(&network, "Version"), Some("IPv4"));
    assert_eq!(field(&network, "Source IP"), Some("192.168.1.10"));
    assert_eq!(field(&network, "Destination IP"), Some("8.8.8.8"));
    assert_eq!(field(&network, "TTL"), Some("64"));
    assert_eq!(field(&network, "Total Length"), Some("32"));
    let transport = packet.get_transport().get_info();
    assert_eq!(
        keys(&transport),
        vec!["Protocol", "Source Port", "Destination Port", "Length", "Checksum"]
    );
    assert_eq!(field(&transport, "Protocol"), Some("UDP"));
    assert_eq!(field(&transport, "Source Port"), Some("51000"));
    assert_eq!(field(&transport, "Destination Port"), Some("53"));
    assert_eq!(field(&transport, "Length"), Some("12"));
    assert_eq!(field(&transport, "Checksum"), Some("0x00ff"));
    let application = packet.get_application().unwrap().get_info();
    assert_eq!(keys(&application), vec!["Protocol", "Payload Length"]);
    assert_eq!(field(&application, "Protocol"), Some("DNS"));
    assert_eq!(field(&application, "Payload Length"), Some("4"));
}

#[test]
fn ipv4_tcp_from_port_80_is_http() {
    let segment = tcp(80, 40000, 0x0102_0304, 0x12, b"GET");
    let frame = ethernet(0x0800, &ipv4(6, [10, 0, 0, 1], [10, 0, 0, 255], &segment));
    let packet = classify(&frame).unwrap();
    assert_eq!(packet.get_transport(), LayerTwo::TCP(segment.clone()));
    match packet.get_application() {
        Some(LayerThree::HTTP(http)) => assert_eq!(http.payload, b"GET".to_vec()),
        other => panic!("expected HTTP, got {:?}", other),
    }
    let transport = packet.get_transport().get_info();
    assert_eq!(
        keys(&transport),
        vec!["Protocol", "Source Port", "Destination Port", "Sequence", "Window Size", "Flags"]
    );
    assert_eq!(field(&transport, "Protocol"), Some("TCP"));
    assert_eq!(field(&transport, "Source Port"), Some("80"));
    assert_eq!(field(&transport, "Destination Port"), Some("40000"));
    assert_eq!(field(&transport, "Sequence"), Some("16909060"));
    assert_eq!(field(&transport, "Window Size"), Some("8192"));
    assert_eq!(field(&transport, "Flags"), Some("ACK:true RST:false SYN:true FIN:false"));
    let application = packet.get_application().unwrap().get_info();
    assert_eq!(field(&application, "Protocol"), Some("HTTP"));
    assert_eq!(field(&application, "Payload Length"), Some("3"));
}

#[test]
fn tcp_port_443_is_https_and_other_ports_are_raw() {
    let secure = LayerTwo::TCP(tcp(50123, 443, 1, 0x10, &[1, 2]));
    assert!(matches!(LayerThree::from_transport(&secure), Some(LayerThree::HTTPS(_))));
    let other = LayerTwo::TCP(tcp(50123, 8080, 1, 0x10, &[1, 2]));
    let layer = LayerThree::from_transport(&other).unwrap();
    assert!(matches!(layer, LayerThree::Raw(_)));
    assert_eq!(field(&layer.get_info(), "Protocol"), Some("Raw/Unknown"));
    let both = LayerTwo::TCP(tcp(443, 80, 1, 0x10, &[]));
    assert!(matches!(LayerThree::from_transport(&both), Some(LayerThree::HTTP(_))));
}

#[test]
fn tcp_flags_are_shown_one_by_one() {
    let reset = LayerTwo::TCP(tcp(1, 2, 0, 0x05, &[]));
    assert_eq!(
        field(&reset.get_info(), "Flags"),
        Some("ACK:false RST:true SYN:false FIN:true")
    );
    let urgent = LayerTwo::TCP(tcp(1, 2, 0, 0xe8, &[]));
    assert_eq!(
        field(&urgent.get_info(), "Flags"),
        Some("ACK:false RST:false SYN:false FIN:false")
    );
}

#[test]
fn tcp_payload_starts_behind_the_options() {
    let mut segment = tcp(1234, 4321, 7, 0x18, &[]);
    segment[12] = 0x70;
    segment.extend_from_slice(&[1, 1, 1, 1, 1, 1, 1, 1, 0xaa, 0xbb]);
    let layer = LayerThree::from_transport(&LayerTwo::TCP(segment)).unwrap();
    assert_eq!(layer.payload(), &[0xaa, 0xbb]);
    let mut short = tcp(1234, 4321, 7, 0x18, &[9, 9]);
    short[12] = 0xf0;
    let layer = LayerThree::from_transport(&LayerTwo::TCP(short)).unwrap();
    assert_eq!(layer.payload(), &[] as &[u8]);
    let mut small = tcp(1234, 4321, 7, 0x18, &[9, 9]);
    small[12] = 0x20;
    let layer = LayerThree::from_transport(&LayerTwo::TCP(small)).unwrap();
    assert_eq!(layer.payload(), &[9, 9]);
}

#[test]
fn ipv6_udp_port_5353_is_mdns() {
    let segment = udp(5353, 5353, 0xbeef, &[0; 7]);
    let frame = ethernet(0x86dd, &ipv6(17, LINK_LOCAL, ALL_MDNS, &segment));
    let packet = classify(&frame).unwrap();
    assert_eq!(packet.get_network(), LayerOne::V6(frame[14..].to_vec()));
    assert_eq!(packet.get_transport(), LayerTwo::UDP(segment));
    assert!(matches!(packet.get_application(), Some(LayerThree::MDNS(_))));
    let network = packet.get_network().get_info();
    assert_eq!(
        keys(&network),
        vec!["Version", "Source IP", "Destination IP", "Traffic Class", "Flow Label"]
    );
    assert_eq!(field(&network, "Version"), Some("IPv6"));
    assert_eq!(field(&network, "Source IP"), Some("fe80::1"));
    assert_eq!(field(&network, "Destination IP"), Some("ff02::fb"));
    assert_eq!(field(&network, "Traffic Class"), Some("171"));
    assert_eq!(field(&network, "Flow Label"), Some("74565"));
    let application = packet.get_application().unwrap().get_info();
    assert_eq!(field(&application, "Protocol"), Some("MDNS"));
    assert_eq!(field(&application, "Payload Length"), Some("7"));
}

#[test]
fn dns_port_wins_over_mdns_port() {
    let layer = LayerThree::from_transport(&LayerTwo::UDP(udp(5353, 53, 0, &[1]))).unwrap();
    assert!(matches!(layer, LayerThree::DNS(_)));
    let raw = LayerThree::from_transport(&LayerTwo::UDP(udp(5000, 6000, 0, &[1]))).unwrap();
    assert!(matches!(raw, LayerThree::Raw(_)));
}

#[test]
fn ipv6_echo_request_is_raw() {
    let message = echo_request(0x1234, &[0, 1, 0, 2, 9, 9]);
    let frame = ethernet(0x86dd, &ipv6(58, LINK_LOCAL, ALL_MDNS, &message));
    let packet = classify(&frame).unwrap();
    assert_eq!(packet.get_transport(), LayerTwo::ICMPV6(message));
    match packet.get_application() {
        Some(LayerThree::Raw(raw)) => assert_eq!(raw.payload, vec![0, 1, 0, 2, 9, 9]),
        other => panic!("expected Raw, got {:?}", other),
    }
    let transport = packet.get_transport().get_info();
    assert_eq!(keys(&transport), vec!["Protocol", "Checksum"]);
    assert_eq!(field(&transport, "Protocol"), Some("ICMPv6"));
    assert_eq!(field(&transport, "Checksum"), Some("0x1234"));
}

#[test]
fn other_ethertypes_are_refused_at_the_first_stage() {
    let arp = ethernet(0x0806, &[0; 28]);
    assert_eq!(classify(&arp).err(), Some(ClassifyError::UnsupportedNetworkProtocol));
    let vlan = ethernet(0x8100, &dns_query_frame()[14..]);
    assert_eq!(classify(&vlan).err(), Some(ClassifyError::UnsupportedNetworkProtocol));
}

#[test]
fn other_transports_are_refused_at_the_second_stage() {
    let ping = ethernet(0x0800, &ipv4(1, [10, 0, 0, 1], [10, 0, 0, 2], &[8, 0, 0, 0, 0, 0, 0, 0]));
    assert_eq!(classify(&ping).err(), Some(ClassifyError::UnsupportedTransportProtocol));
    let echo_over_v4 = ethernet(0x0800, &ipv4(58, [10, 0, 0, 1], [10, 0, 0, 2], &[128, 0, 0, 0]));
    assert_eq!(classify(&echo_over_v4).err(), Some(ClassifyError::UnsupportedTransportProtocol));
    let hop_by_hop = ethernet(0x86dd, &ipv6(0, LINK_LOCAL, ALL_MDNS, &[0; 16]));
    assert_eq!(classify(&hop_by_hop).err(), Some(ClassifyError::UnsupportedTransportProtocol));
}

#[test]
fn truncated_headers_are_refused_not_fatal() {
    let short_v4 = ethernet(0x0800, &[0x45; 19]);
    assert_eq!(classify(&short_v4).err(), Some(ClassifyError::UnsupportedNetworkProtocol));
    let short_v6 = ethernet(0x86dd, &[0x60; 39]);
    assert_eq!(classify(&short_v6).err(), Some(ClassifyError::UnsupportedNetworkProtocol));
    let short_udp = ethernet(0x0800, &ipv4(17, [1, 1, 1, 1], [2, 2, 2, 2], &[0; 7]));
    assert_eq!(classify(&short_udp).err(), Some(ClassifyError::UnsupportedTransportProtocol));
    let short_tcp = ethernet(0x86dd, &ipv6(6, LINK_LOCAL, ALL_MDNS, &[0; 19]));
    assert_eq!(classify(&short_tcp).err(), Some(ClassifyError::UnsupportedTransportProtocol));
    let short_echo = ethernet(0x86dd, &ipv6(58, LINK_LOCAL, ALL_MDNS, &[0; 3]));
    assert_eq!(classify(&short_echo).err(), Some(ClassifyError::UnsupportedTransportProtocol));
}

#[test]
fn error_messages_name_the_layer() {
    assert_eq!(ClassifyError::UnsupportedNetworkProtocol.message(), "Unsupported LayerOne protocol");
    assert_eq!(
        ClassifyError::UnsupportedTransportProtocol.message(),
        "Unsupported LayerTwo protocol"
    );
}

#[test]
fn ipv4_payload_ends_with_the_total_length() {
    let segment = udp(4000, 53, 0, &[1, 2, 3]);
    let mut datagram = ipv4(17, [1, 1, 1, 1], [2, 2, 2, 2], &segment);
    datagram.extend_from_slice(&[0xee; 6]);
    let frame = ethernet(0x0800, &datagram);
    let packet = classify(&frame).unwrap();
    assert_eq!(packet.get_network(), LayerOne::V4(datagram));
    assert_eq!(packet.get_transport(), LayerTwo::UDP(segment));
}

#[test]
fn ipv4_payload_starts_behind_the_options() {
    let segment = udp(4000, 5353, 0, &[1, 2, 3]);
    let mut datagram = ipv4(17, [1, 1, 1, 1], [2, 2, 2, 2], &[]);
    datagram[0] = 0x46;
    datagram[3] = 24 + 11;
    datagram.extend_from_slice(&[1, 1, 1, 1]);
    datagram.extend_from_slice(&segment);
    let packet = classify(&ethernet(0x0800, &datagram)).unwrap();
    assert_eq!(packet.get_transport(), LayerTwo::UDP(segment));
}

#[test]
fn ipv6_payload_ends_with_the_payload_length() {
    let segment = udp(4000, 53, 0, &[1, 2, 3]);
    let mut datagram = ipv6(17, LINK_LOCAL, ALL_MDNS, &segment);
    datagram.extend_from_slice(&[0xee; 5]);
    let packet = classify(&ethernet(0x86dd, &datagram)).unwrap();
    assert_eq!(packet.get_transport(), LayerTwo::UDP(segment));
}

#[test]
fn port_position_does_not_matter() {
    let outbound = LayerTwo::UDP(udp(53, 40000, 0, &[7, 7]));
    let inbound = LayerTwo::UDP(udp(40000, 53, 0, &[7, 7]));
    let first = LayerThree::from_transport(&outbound).unwrap();
    let second = LayerThree::from_transport(&inbound).unwrap();
    assert!(matches!(first, LayerThree::DNS(_)));
    assert!(matches!(second, LayerThree::DNS(_)));
    assert_eq!(first.payload(), second.payload());
    assert_eq!(first.label(), second.label());
}

#[test]
fn truncated_transport_bytes_show_an_error_field() {
    let tcp_info = LayerTwo::TCP(vec![0; 19]).get_info();
    assert_eq!(keys(&tcp_info), vec!["Error"]);
    assert_eq!(field(&tcp_info, "Error"), Some("Invalid TCP packet"));
    let udp_info = LayerTwo::UDP(vec![0; 7]).get_info();
    assert_eq!(keys(&udp_info), vec!["Error"]);
    assert_eq!(field(&udp_info, "Error"), Some("Invalid UDP packet"));
    let echo_info = LayerTwo::ICMPV6(vec![0; 3]).get_info();
    assert_eq!(keys(&echo_info), vec!["Error"]);
    assert_eq!(field(&echo_info, "Error"), Some("Invalid ICMPv6 packet"));
    assert!(LayerThree::from_transport(&LayerTwo::TCP(vec![0; 19])).is_none());
}

#[test]
fn truncated_network_bytes_show_an_error_field() {
    let v4 = LayerOne::V4(vec![0x45; 19]).get_info();
    assert_eq!(keys(&v4), vec!["Error"]);
    assert_eq!(field(&v4, "Error"), Some("Invalid IPv4 packet"));
    let v6 = LayerOne::V6(vec![0x60; 39]).get_info();
    assert_eq!(field(&v6, "Error"), Some("Invalid IPv6 packet"));
    assert_eq!(
        LayerTwo::from_network(&LayerOne::V4(vec![0x45; 19])).err(),
        Some(ClassifyError::UnsupportedTransportProtocol)
    );
}

#[test]
fn packet_info_names_the_three_layers() {
    let packet = classify(&dns_query_frame()).unwrap();
    let record = packet.get_packet_info();
    let names: Vec<&str> = record.entries().iter().map(|entry| entry.key.as_str()).collect();
    assert_eq!(names, vec!["Layer 1", "Layer 2", "Layer 3"]);
    assert_eq!(field(record.get("Layer 1").unwrap(), "Source IP"), Some("192.168.1.10"));
    assert_eq!(field(record.get("Layer 2").unwrap(), "Destination Port"), Some("53"));
    assert_eq!(field(record.get("Layer 3").unwrap(), "Protocol"), Some("DNS"));
}

#[test]
fn pretty_print_lists_every_field() {
    let packet = classify(&dns_query_frame()).unwrap();
    let expected = "=== Packet Information ===\n\n\
Layer 1 (Network):\n----------------\n\
Version: IPv4\nSource IP: 192.168.1.10\nDestination IP: 8.8.8.8\nTTL: 64\nTotal Length: 32\n\
\nLayer 2 (Transport):\n------------------\n\
Protocol: UDP\nSource Port: 51000\nDestination Port: 53\nLength: 12\nChecksum: 0x00ff\n\
\nLayer 3 (Application):\n--------------------\n\
Protocol: DNS\nPayload Length: 4\n";
    assert_eq!(packet.pretty_print(), expected);
}
