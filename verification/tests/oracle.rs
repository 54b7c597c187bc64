use packet_sniffer::ethernet::EthernetFrame;
use packet_sniffer::layers::layer1::LayerOne;
use packet_sniffer::layers::layer2::LayerTwo;
use packet_sniffer::layers::layer3::LayerThree;
use packet_sniffer::packet_info::{InfoMap, PacketInfo};
use packet_sniffer::{icmpv6, ipv4, ipv6, tcp, udp};
use pnet::packet::ethernet::EthernetPacket;
use pnet::packet::icmpv6::Icmpv6Packet;
use pnet::packet::ipv4::Ipv4Packet;
use pnet::packet::ipv6::Ipv6Packet;
use pnet::packet::tcp::TcpPacket;
use pnet::packet::udp::UdpPacket;
use pnet::packet::Packet;

/// Bytes that look arbitrary and are the same on every run.
fn noise(seed: u64, len: usize) -> Vec<u8> {
    let mut state: u64 = seed.wrapping_mul(0x9e37_79b9_7f4a_7c15).wrapping_add(0x1234_5678_9abc_def1);
    let mut bytes = Vec::with_capacity(len);
    for _ in 0..len {
        state = state.wrapping_mul(6364136223846793005).wrapping_add(1442695040888963407);
        bytes.push(state.to_be_bytes()[1]);
    }
    bytes
}

fn length_for(seed: u64, least: usize) -> usize {
    let spread: usize = usize::from(noise(seed, 1)[0] % 48);
    if seed % 5 == 0 {
        spread
    } else {
        least + spread
    }
}

fn field<'a>(table: &'a InfoMap, key: &str) -> Option<&'a str> {
    table.get(key).map(|value| value.as_str())
}

#[test]
fn ethernet_header_reads_as_the_packet_library_reads_it() {
    for seed in 0..400u64 {
        let bytes = noise(seed, length_for(seed, 14));
        let ours = EthernetFrame::new(&bytes);
        let theirs = EthernetPacket::new(&bytes);
        assert_eq!(ours.is_some(), theirs.is_some());
        if let (Some(ours), Some(theirs)) = (ours, theirs) {
            assert_eq!(ours.get_ethertype(), theirs.get_ethertype().0);
            assert_eq!(ours.payload(), theirs.payload());
            assert_eq!(ours.packet(), theirs.packet());
        }
    }
}

#[test]
fn ipv4_header_reads_as_the_packet_library_reads_it() {
    for seed in 0..3000u64 {
        let mut bytes = noise(seed, length_for(seed, 20));
        if bytes.len() >= 4 && seed % 3 != 0 {
            bytes[2] = 0;
        }
        let info = LayerOne::V4(bytes.clone()).get_info();
        match Ipv4Packet::new(&bytes) {
            Some(theirs) => {
                assert_eq!(ipv4::get_ttl(&bytes), theirs.get_ttl());
                assert_eq!(ipv4::get_total_length(&bytes), theirs.get_total_length());
                assert_eq!(ipv4::get_next_level_protocol(&bytes), theirs.get_next_level_protocol().0);
                assert_eq!(ipv4::get_payload(&bytes), theirs.payload(), "seed {}", seed);
                assert_eq!(field(&info, "Version"), Some("IPv4"));
                assert_eq!(field(&info, "Source IP"), Some(theirs.get_source().to_string().as_str()));
                assert_eq!(
                    field(&info, "Destination IP"),
                    Some(theirs.get_destination().to_string().as_str())
                );
                assert_eq!(field(&info, "TTL"), Some(theirs.get_ttl().to_string().as_str()));
                assert_eq!(
                    field(&info, "Total Length"),
                    Some(theirs.get_total_length().to_string().as_str())
                );
            },
            None => assert_eq!(field(&info, "Error"), Some("Invalid IPv4 packet")),
        }
    }
}

#[test]
fn ipv6_header_reads_as_the_packet_library_reads_it() {
    for seed in 0..3000u64 {
        let mut bytes = noise(seed, length_for(seed, 40));
        if bytes.len() >= 40 {
            if seed % 3 != 0 {
                bytes[4] = 0;
            }
            if seed % 2 == 0 {
                let first: usize = usize::from(bytes[0] % 16);
                let count: usize = usize::from(bytes[1] % 17);
                for at in first..(first + count).min(16) {
                    bytes[8 + at] = 0;
                    bytes[24 + (15 - at)] = 0;
                }
            }
            if seed % 7 == 0 {
                for at in 0..10 {
                    bytes[8 + at] = 0;
                }
                bytes[18] = 0xff;
                bytes[19] = 0xff;
            }
        }
        let info = LayerOne::V6(bytes.clone()).get_info();
        match Ipv6Packet::new(&bytes) {
            Some(theirs) => {
                assert_eq!(ipv6::get_traffic_class(&bytes), theirs.get_traffic_class());
                assert_eq!(ipv6::get_flow_label(&bytes), theirs.get_flow_label());
                assert_eq!(ipv6::get_payload_length(&bytes), theirs.get_payload_length());
                assert_eq!(ipv6::get_next_header(&bytes), theirs.get_next_header().0);
                assert_eq!(ipv6::get_payload(&bytes), theirs.payload(), "seed {}", seed);
                assert_eq!(field(&info, "Version"), Some("IPv6"));
                assert_eq!(field(&info, "Source IP"), Some(theirs.get_source().to_string().as_str()));
                assert_eq!(
                    field(&info, "Destination IP"),
                    Some(theirs.get_destination().to_string().as_str())
                );
                assert_eq!(
                    field(&info, "Traffic Class"),
                    Some(theirs.get_traffic_class().to_string().as_str())
                );
                assert_eq!(
                    field(&info, "Flow Label"),
                    Some(theirs.get_flow_label().to_string().as_str())
                );
            },
            None => assert_eq!(field(&info, "Error"), Some("Invalid IPv6 packet")),
        }
    }
}

#[test]
fn udp_header_reads_as_the_packet_library_reads_it() {
    for seed in 0..1000u64 {
        let bytes = noise(seed, length_for(seed, 8));
        let info = LayerTwo::UDP(bytes.clone()).get_info();
        match UdpPacket::new(&bytes) {
            Some(theirs) => {
                assert_eq!(udp::get_source(&bytes), theirs.get_source());
                assert_eq!(udp::get_destination(&bytes), theirs.get_destination());
                assert_eq!(udp::get_length(&bytes), theirs.get_length());
                assert_eq!(udp::get_checksum(&bytes), theirs.get_checksum());
                assert_eq!(udp::get_payload(&bytes), theirs.payload());
                assert_eq!(field(&info, "Checksum"), Some(format!("0x{:04x}", theirs.get_checksum()).as_str()));
                assert_eq!(field(&info, "Length"), Some(theirs.get_length().to_string().as_str()));
                let layer = LayerThree::from_transport(&LayerTwo::UDP(bytes.clone())).unwrap();
                assert_eq!(layer.payload(), theirs.payload());
            },
            None => assert_eq!(field(&info, "Error"), Some("Invalid UDP packet")),
        }
    }
}

#[test]
fn tcp_header_reads_as_the_packet_library_reads_it() {
    for seed in 0..3000u64 {
        let bytes = noise(seed, length_for(seed, 20));
        let info = LayerTwo::TCP(bytes.clone()).get_info();
        match TcpPacket::new(&bytes) {
            Some(theirs) => {
                assert_eq!(tcp::get_source(&bytes), theirs.get_source());
                assert_eq!(tcp::get_destination(&bytes), theirs.get_destination());
                assert_eq!(tcp::get_sequence(&bytes), theirs.get_sequence());
                assert_eq!(tcp::get_window(&bytes), theirs.get_window());
                assert_eq!(tcp::get_flags(&bytes), theirs.get_flags());
                assert_eq!(tcp::get_payload(&bytes), theirs.payload(), "seed {}", seed);
                let flags = format!(
                    "ACK:{} RST:{} SYN:{} FIN:{}",
                    theirs.get_flags() & 0b00010000 != 0,
                    theirs.get_flags() & 0b00000100 != 0,
                    theirs.get_flags() & 0b00000010 != 0,
                    theirs.get_flags() & 0b00000001 != 0,
                );
                assert_eq!(field(&info, "Flags"), Some(flags.as_str()));
                assert_eq!(field(&info, "Sequence"), Some(theirs.get_sequence().to_string().as_str()));
                assert_eq!(field(&info, "Window Size"), Some(theirs.get_window().to_string().as_str()));
            },
            None => assert_eq!(field(&info, "Error"), Some("Invalid TCP packet")),
        }
    }
}

#[test]
fn echo_header_reads_as_the_packet_library_reads_it() {
    for seed in 0..500u64 {
        let bytes = noise(seed, length_for(seed, 4));
        let info = LayerTwo::ICMPV6(bytes.clone()).get_info();
        match Icmpv6Packet::new(&bytes) {
            Some(theirs) => {
                assert_eq!(icmpv6::get_checksum(&bytes), theirs.get_checksum());
                assert_eq!(icmpv6::get_payload(&bytes), theirs.payload());
                assert_eq!(field(&info, "Checksum"), Some(format!("0x{:04x}", theirs.get_checksum()).as_str()));
            },
            None => assert_eq!(field(&info, "Error"), Some("Invalid ICMPv6 packet")),
        }
    }
}
