//! The IP address literal parsers.

use controller::net::{parse_ipv4, parse_ipv6};

fn v4(s: &str) -> Option<[u8; 4]> {
    parse_ipv4(s).map(|a| a.octets)
}

fn v6(s: &str) -> Option<[u16; 8]> {
    parse_ipv6(s).map(|a| a.segments)
}

#[test]
fn ipv4_accepts_dotted_quads() {
    assert_eq!(v4("10.0.0.1"), Some([10, 0, 0, 1]));
    assert_eq!(v4("0.0.0.0"), Some([0, 0, 0, 0]));
    assert_eq!(v4("255.255.255.255"), Some([255, 255, 255, 255]));
    assert_eq!(v4("192.168.1.42"), Some([192, 168, 1, 42]));
}

#[test]
fn ipv4_rejects_out_of_range_octets() {
    assert_eq!(v4("256.0.0.1"), None);
    assert_eq!(v4("10.0.0.300"), None);
    assert_eq!(v4("1000.1.1.1"), None);
}

#[test]
fn ipv4_rejects_wrong_shapes() {
    assert_eq!(v4(""), None);
    assert_eq!(v4("10.0.0"), None);
    assert_eq!(v4("10.0.0.0.1"), None);
    assert_eq!(v4("10..0.1"), None);
    assert_eq!(v4("10.0.0.1."), None);
    assert_eq!(v4(".10.0.0.1"), None);
    assert_eq!(v4("not-an-ip"), None);
    assert_eq!(v4("10.0.0.a"), None);
    assert_eq!(v4("10.0.0. 1"), None);
}

#[test]
fn ipv4_rejects_leading_zeros() {
    assert_eq!(v4("01.2.3.4"), None);
    assert_eq!(v4("1.2.3.04"), None);
    assert_eq!(v4("0.00.0.0"), None);
}

#[test]
fn ipv6_accepts_full_form() {
    assert_eq!(v6("1:2:3:4:5:6:7:8"), Some([1, 2, 3, 4, 5, 6, 7, 8]));
    assert_eq!(
        v6("2001:db8:0:0:0:8a2e:370:7334"),
        Some([0x2001, 0xdb8, 0, 0, 0, 0x8a2e, 0x370, 0x7334])
    );
    assert_eq!(v6("AbCd:0:0:0:0:0:0:EF"), Some([0xabcd, 0, 0, 0, 0, 0, 0, 0xef]));
}

#[test]
fn ipv6_accepts_compressed_forms() {
    assert_eq!(v6("::"), Some([0, 0, 0, 0, 0, 0, 0, 0]));
    assert_eq!(v6("::1"), Some([0, 0, 0, 0, 0, 0, 0, 1]));
    assert_eq!(v6("1::"), Some([1, 0, 0, 0, 0, 0, 0, 0]));
    assert_eq!(
        v6("2001:db8::8a2e:370:7334"),
        Some([0x2001, 0xdb8, 0, 0, 0, 0x8a2e, 0x370, 0x7334])
    );
    assert_eq!(v6("1:2:3:4:5:6:7::"), Some([1, 2, 3, 4, 5, 6, 7, 0]));
    assert_eq!(v6("::2:3:4:5:6:7:8"), Some([0, 2, 3, 4, 5, 6, 7, 8]));
}

#[test]
fn ipv6_accepts_embedded_dotted_quads() {
    assert_eq!(
        v6("::ffff:192.168.1.2"),
        Some([0, 0, 0, 0, 0, 0xffff, 0xc0a8, 0x0102])
    );
    assert_eq!(v6("::1.2.3.4"), Some([0, 0, 0, 0, 0, 0, 0x0102, 0x0304]));
    assert_eq!(
        v6("1:2:3:4:5:6:1.2.3.4"),
        Some([1, 2, 3, 4, 5, 6, 0x0102, 0x0304])
    );
    assert_eq!(v6("64:ff9b::255.255.255.255"), Some([0x64, 0xff9b, 0, 0, 0, 0, 0xffff, 0xffff]));
}

#[test]
fn ipv6_rejects_misplaced_dotted_quads() {
    assert_eq!(v6("1.2.3.4"), None);
    assert_eq!(v6("1.2.3.4::"), None);
    assert_eq!(v6("::1.2.3.4:5"), None);
    assert_eq!(v6("::1.2.3.400"), None);
    assert_eq!(v6("1:2:3:4:5:6:7:1.2.3.4"), None);
    assert_eq!(v6("::01.2.3.4"), None);
}

#[test]
fn ipv6_rejects_wrong_shapes() {
    assert_eq!(v6(""), None);
    assert_eq!(v6(":"), None);
    assert_eq!(v6(":::"), None);
    assert_eq!(v6("1:2:3:4:5:6:7"), None);
    assert_eq!(v6("1:2:3:4:5:6:7:8:9"), None);
    assert_eq!(v6("1::2::3"), None);
    assert_eq!(v6("1:2:3:4:5:6:7:8::"), None);
    assert_eq!(v6("::1:2:3:4:5:6:7:8"), None);
    assert_eq!(v6("12345::"), None);
    assert_eq!(v6("g::1"), None);
    assert_eq!(v6("1:2:3:4:5:6:7:"), None);
    assert_eq!(v6(":1:2:3:4:5:6:7"), None);
}
