use packet_sniffer::bytes::{copy_from, copy_range, read_be16, read_be32};
use packet_sniffer::layers::layer2::flags_string;
use packet_sniffer::text::{
    bool_str, decimal_string, hex4_string, ipv4_string, ipv6_string, push_decimal, push_hex,
};

fn groups(values: [u16; 8]) -> Vec<u8> {
    let mut bytes = Vec::new();
    for value in values {
        bytes.extend_from_slice(&value.to_be_bytes());
    }
    bytes
}

#[test]
fn big_endian_numbers_are_read_high_byte_first() {
    let bytes = [0x12, 0x34, 0x56, 0x78, 0x9a];
    assert_eq!(read_be16(&bytes, 0), 0x1234);
    assert_eq!(read_be16(&bytes, 3), 0x789a);
    assert_eq!(read_be32(&bytes, 1), 0x3456_789a);
    assert_eq!(read_be32(&[0xff, 0xff, 0xff, 0xff], 0), u32::MAX);
}

#[test]
fn ranges_are_copied_and_a_start_past_the_end_gives_nothing() {
    let bytes = [1, 2, 3, 4, 5];
    assert_eq!(copy_range(&bytes, 1, 3), vec![2, 3]);
    assert_eq!(copy_range(&bytes, 5, 5), Vec::<u8>::new());
    assert_eq!(copy_from(&bytes, 3), vec![4, 5]);
    assert_eq!(copy_from(&bytes, 5), Vec::<u8>::new());
    assert_eq!(copy_from(&bytes, 6), Vec::<u8>::new());
}

#[test]
fn decimal_has_no_leading_zeros() {
    assert_eq!(decimal_string(0), "0");
    assert_eq!(decimal_string(9), "9");
    assert_eq!(decimal_string(10), "10");
    assert_eq!(decimal_string(65535), "65535");
    assert_eq!(decimal_string(4_294_967_295), "4294967295");
    assert_eq!(decimal_string(u64::MAX), "18446744073709551615");
    let mut text = String::from("n=");
    push_decimal(&mut text, 1005);
    assert_eq!(text, "n=1005");
}

#[test]
fn hexadecimal_is_lower_case() {
    let mut text = String::new();
    push_hex(&mut text, 0);
    push_hex(&mut text, 0xabc);
    push_hex(&mut text, 0xffff);
    push_hex(&mut text, 0x10);
    assert_eq!(text, "0abcffff10");
    assert_eq!(hex4_string(0), "0x0000");
    assert_eq!(hex4_string(0xf), "0x000f");
    assert_eq!(hex4_string(0x1a2b), "0x1a2b");
    assert_eq!(hex4_string(0xffff), "0xffff");
    assert_eq!(hex4_string(0xABCD), "0xabcd");
}

#[test]
fn booleans_and_flags_are_spelled_out() {
    assert_eq!(bool_str(true), "true");
    assert_eq!(bool_str(false), "false");
    assert_eq!(flags_string(0), "ACK:false RST:false SYN:false FIN:false");
    assert_eq!(flags_string(0xff), "ACK:true RST:true SYN:true FIN:true");
    assert_eq!(flags_string(0x10), "ACK:true RST:false SYN:false FIN:false");
    assert_eq!(flags_string(0x04), "ACK:false RST:true SYN:false FIN:false");
    assert_eq!(flags_string(0x02), "ACK:false RST:false SYN:true FIN:false");
    assert_eq!(flags_string(0x01), "ACK:false RST:false SYN:false FIN:true");
}

#[test]
fn ipv4_addresses_are_dotted_decimal() {
    assert_eq!(ipv4_string(&[0, 0, 0, 0]), "0.0.0.0");
    assert_eq!(ipv4_string(&[127, 0, 0, 1]), "127.0.0.1");
    assert_eq!(ipv4_string(&[255, 255, 255, 255]), "255.255.255.255");
    assert_eq!(ipv4_string(&[192, 168, 100, 9]), "192.168.100.9");
}

#[test]
fn ipv6_zero_runs_are_compressed() {
    assert_eq!(ipv6_string(&groups([0, 0, 0, 0, 0, 0, 0, 0])), "::");
    assert_eq!(ipv6_string(&groups([0, 0, 0, 0, 0, 0, 0, 1])), "::1");
    assert_eq!(ipv6_string(&groups([1, 0, 0, 0, 0, 0, 0, 0])), "1::");
    assert_eq!(
        ipv6_string(&groups([0x2001, 0xdb8, 0, 0, 0, 0xff00, 0x42, 0x8329])),
        "2001:db8::ff00:42:8329"
    );
    assert_eq!(ipv6_string(&groups([0xfe80, 0, 0, 0, 0x200, 0xff, 0xfe00, 2])), "fe80::200:ff:fe00:2");
}

#[test]
fn ipv6_compresses_the_first_of_equal_runs_and_the_longer_of_two() {
    assert_eq!(ipv6_string(&groups([0x2001, 0xdb8, 0, 0, 1, 0, 0, 1])), "2001:db8::1:0:0:1");
    assert_eq!(ipv6_string(&groups([1, 0, 0, 2, 0, 0, 0, 3])), "1:0:0:2::3");
    assert_eq!(ipv6_string(&groups([1, 0, 0, 0, 2, 0, 0, 3])), "1::2:0:0:3");
}

#[test]
fn ipv6_single_zero_groups_stay() {
    assert_eq!(ipv6_string(&groups([1, 0, 2, 0, 3, 0, 4, 0])), "1:0:2:0:3:0:4:0");
    assert_eq!(ipv6_string(&groups([0, 1, 2, 3, 4, 5, 6, 7])), "0:1:2:3:4:5:6:7");
    assert_eq!(
        ipv6_string(&groups([0x1, 0x22, 0x333, 0x4444, 0xa, 0xbc, 0xdef, 0xffff])),
        "1:22:333:4444:a:bc:def:ffff"
    );
}

#[test]
fn ipv6_mapped_addresses_end_in_dotted_decimal() {
    assert_eq!(ipv6_string(&groups([0, 0, 0, 0, 0, 0xffff, 0xc0a8, 0x0101])), "::ffff:192.168.1.1");
    assert_eq!(ipv6_string(&groups([0, 0, 0, 0, 0, 0xffff, 0, 0])), "::ffff:0.0.0.0");
    assert_eq!(ipv6_string(&groups([0, 0, 0, 0, 0, 0, 0x0102, 0x0304])), "::102:304");
    assert_eq!(ipv6_string(&groups([0, 0, 0, 0, 0xffff, 0, 0x0102, 0x0304])), "::ffff:0:102:304");
}
