use adapter_dns::addr::Ipv4Address;
use adapter_dns::addr::decode_ipv4;
use adapter_dns::addr::encode_ipv4;

fn quad(a: u8, b: u8, c: u8, d: u8) -> Ipv4Address {
    Ipv4Address { a, b, c, d }
}

#[test]
fn decodes_network_order_field() {
    // 10.0.0.1 stored in network byte order, read natively little-endian.
    assert_eq!(decode_ipv4(0x0100_000A), quad(10, 0, 0, 1));
    assert_eq!(decode_ipv4(0x0808_0808), quad(8, 8, 8, 8));
    assert_eq!(decode_ipv4(0x0100_007F), quad(127, 0, 0, 1));
    assert_eq!(decode_ipv4(0), quad(0, 0, 0, 0));
    assert_eq!(decode_ipv4(u32::MAX), quad(255, 255, 255, 255));
}

#[test]
fn encodes_back_to_network_order_field() {
    assert_eq!(encode_ipv4(quad(10, 0, 0, 1)), 0x0100_000A);
    assert_eq!(encode_ipv4(quad(192, 168, 1, 254)), 0xFE01_A8C0);
    assert_eq!(encode_ipv4(quad(0, 0, 0, 0)), 0);
    assert_eq!(encode_ipv4(quad(255, 255, 255, 255)), u32::MAX);
}

#[test]
fn round_trip_from_field() {
    let fields = [
        0u32,
        1,
        0x0100_000A,
        0x0808_0808,
        0xDEAD_BEEF,
        u32::MAX,
        0x8000_0001,
    ];
    for raw in fields {
        assert_eq!(encode_ipv4(decode_ipv4(raw)), raw);
    }
}

#[test]
fn round_trip_from_address() {
    let addrs = [
        quad(0, 0, 0, 0),
        quad(10, 0, 0, 1),
        quad(8, 8, 8, 8),
        quad(172, 16, 254, 3),
        quad(255, 255, 255, 255),
    ];
    for addr in addrs {
        assert_eq!(decode_ipv4(encode_ipv4(addr)), addr);
    }
}

#[test]
fn renders_dotted_quad() {
    assert_eq!(quad(10, 0, 0, 1).to_dotted(), "10.0.0.1");
    assert_eq!(quad(8, 8, 8, 8).to_dotted(), "8.8.8.8");
    assert_eq!(quad(192, 168, 1, 254).to_dotted(), "192.168.1.254");
    assert_eq!(quad(0, 0, 0, 0).to_dotted(), "0.0.0.0");
    assert_eq!(quad(255, 255, 255, 255).to_dotted(), "255.255.255.255");
    assert_eq!(quad(1, 23, 45, 100).to_dotted(), "1.23.45.100");
}
