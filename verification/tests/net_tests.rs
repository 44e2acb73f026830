use rusty_board::net::{read_ip, read_ipv4, read_network, read_number, IpAddress, Network};

fn chars(s: &str) -> Vec<char> {
    s.chars().collect()
}

#[test]
fn dotted_quad_is_read() {
    assert_eq!(read_ipv4(&chars("1.2.3.4")), Some(0x0102_0304));
    assert_eq!(read_ipv4(&chars("0.0.0.0")), Some(0));
    assert_eq!(read_ipv4(&chars("255.255.255.255")), Some(u32::MAX));
    assert_eq!(read_ipv4(&chars("192.168.1.10")), Some(0xc0a8_010a));
}

#[test]
fn malformed_dotted_quad_is_refused() {
    for bad in [
        "", "1.2.3", "1.2.3.4.5", "256.1.1.1", "1.2.3.", ".1.2.3", "1..2.3", "01.2.3.4",
        "1.2.3.4 ", "a.b.c.d", "1.2.3.-4", "1.2.3.0004", "1,2,3,4",
    ] {
        assert_eq!(read_ipv4(&chars(bad)), None, "{bad:?}");
    }
}

#[test]
fn numeral_is_read_within_its_bounds() {
    assert_eq!(read_number(&chars("0"), 3, 255), Some(0));
    assert_eq!(read_number(&chars("255"), 3, 255), Some(255));
    assert_eq!(read_number(&chars("256"), 3, 255), None);
    assert_eq!(read_number(&chars("00"), 3, 255), None);
    assert_eq!(read_number(&chars("1234"), 3, 9999), None);
    assert_eq!(read_number(&chars(""), 3, 255), None);
    assert_eq!(read_number(&chars("12a"), 3, 255), None);
    assert_eq!(read_number(&chars("999999999"), 9, u32::MAX), Some(999_999_999));
}

#[test]
fn bare_address_is_a_network_of_one() {
    assert_eq!(
        read_network(&chars("1.2.3.4")),
        Some(Network { addr: IpAddress::V4(0x0102_0304), prefix: 32 })
    );
}

#[test]
fn cidr_network_is_read() {
    assert_eq!(
        read_network(&chars("10.0.0.0/8")),
        Some(Network { addr: IpAddress::V4(0x0a00_0000), prefix: 8 })
    );
    assert_eq!(
        read_network(&chars("1.2.3.4/0")),
        Some(Network { addr: IpAddress::V4(0x0102_0304), prefix: 0 })
    );
    assert_eq!(read_network(&chars("10.0.0.0/33")), None);
    assert_eq!(read_network(&chars("10.0.0.0/")), None);
    assert_eq!(read_network(&chars("10.0.0.0/8/8")), None);
    assert_eq!(read_network(&chars("/8")), None);
}

#[test]
fn network_holds_the_addresses_with_its_leading_bits() {
    let net = read_network(&chars("192.168.0.0/24")).unwrap();
    assert!(net.contains(read_ip(&chars("192.168.0.0")).unwrap()));
    assert!(net.contains(read_ip(&chars("192.168.0.255")).unwrap()));
    assert!(!net.contains(read_ip(&chars("192.168.1.0")).unwrap()));
    let one = read_network(&chars("192.168.0.7")).unwrap();
    assert!(one.contains(IpAddress::V4(0xc0a8_0007)));
    assert!(!one.contains(IpAddress::V4(0xc0a8_0006)));
    let all = read_network(&chars("0.0.0.0/0")).unwrap();
    assert!(all.contains(IpAddress::V4(u32::MAX)));
}

#[test]
fn families_do_not_mix() {
    let net = Network { addr: IpAddress::V4(0), prefix: 0 };
    assert!(!net.contains(IpAddress::V6(0)));
    let net6 = Network { addr: IpAddress::V6(0), prefix: 0 };
    assert!(net6.contains(IpAddress::V6(u128::MAX)));
    assert!(!net6.contains(IpAddress::V4(0)));
}

#[test]
fn network_with_an_impossible_prefix_holds_nothing() {
    let net = Network { addr: IpAddress::V4(0x0102_0304), prefix: 33 };
    assert!(!net.contains(IpAddress::V4(0x0102_0304)));
    let net6 = Network { addr: IpAddress::V6(1), prefix: 129 };
    assert!(!net6.contains(IpAddress::V6(1)));
    let edge = Network { addr: IpAddress::V6(1), prefix: 128 };
    assert!(edge.contains(IpAddress::V6(1)));
}

#[test]
fn full_ipv6_address_is_read() {
    assert_eq!(
        rusty_board::net::read_ipv6(&chars("2001:0db8:85a3:0000:0000:8a2e:0370:7334")),
        Some(0x2001_0db8_85a3_0000_0000_8a2e_0370_7334)
    );
    assert_eq!(
        rusty_board::net::read_ipv6(&chars("1:2:3:4:5:6:7:8")),
        Some(0x0001_0002_0003_0004_0005_0006_0007_0008)
    );
    assert_eq!(
        rusty_board::net::read_ipv6(&chars("FFFF:ffff:FfFf:ffff:ffff:ffff:ffff:ffff")),
        Some(u128::MAX)
    );
}

#[test]
fn double_colon_stands_for_groups_of_zero() {
    let read = |s: &str| rusty_board::net::read_ipv6(&chars(s));
    assert_eq!(read("::"), Some(0));
    assert_eq!(read("::1"), Some(1));
    assert_eq!(read("1::"), Some(1 << 112));
    assert_eq!(read("2001:db8::ff00:42:8329"), Some(0x2001_0db8_0000_0000_0000_ff00_0042_8329));
    assert_eq!(read("1:2:3:4:5:6:7::"), Some(0x0001_0002_0003_0004_0005_0006_0007_0000));
    assert_eq!(read("::2:3:4:5:6:7:8"), Some(0x0000_0002_0003_0004_0005_0006_0007_0008));
    assert_eq!(read("fe80::1"), Some(0xfe80_0000_0000_0000_0000_0000_0000_0001));
}

#[test]
fn last_two_groups_may_be_a_dotted_quad() {
    let read = |s: &str| rusty_board::net::read_ipv6(&chars(s));
    assert_eq!(read("::ffff:1.2.3.4"), Some(0xffff_0102_0304));
    assert_eq!(read("::1.2.3.4"), Some(0x0102_0304));
    assert_eq!(read("1:2:3:4:5:6:1.2.3.4"), Some(0x0001_0002_0003_0004_0005_0006_0102_0304));
    assert_eq!(read("64:ff9b::192.0.2.33"), Some(0x0064_ff9b_0000_0000_0000_0000_c000_0221));
}

#[test]
fn malformed_ipv6_address_is_refused() {
    for bad in [
        "", ":", ":::", "1", "1:2:3:4:5:6:7", "1:2:3:4:5:6:7:8:9", "1::2::3", ":1:2:3:4:5:6:7",
        "1:2:3:4:5:6:7:", "12345::", "g::", "1:2:3:4:5:6:7:8::", "::1:2:3:4:5:6:7:8",
        "1.2.3.4::", "1.2.3.4:1:2:3:4:5:6", "::1.2.3", "1:2:3:4:5:6:7:1.2.3.4", "fe80::1%eth0",
        " ::1", "::1 ",
    ] {
        assert_eq!(rusty_board::net::read_ipv6(&chars(bad)), None, "{bad:?}");
    }
}

#[test]
fn address_of_either_family_is_read() {
    assert_eq!(read_ip(&chars("1.2.3.4")), Some(IpAddress::V4(0x0102_0304)));
    assert_eq!(read_ip(&chars("::1")), Some(IpAddress::V6(1)));
    assert_eq!(read_ip(&chars("localhost")), None);
}

#[test]
fn ipv6_network_holds_the_addresses_with_its_leading_bits() {
    let net = read_network(&chars("2001:db8::/32")).unwrap();
    assert_eq!(net.prefix, 32);
    assert!(net.contains(read_ip(&chars("2001:db8::1")).unwrap()));
    assert!(net.contains(read_ip(&chars("2001:db8:ffff:ffff:ffff:ffff:ffff:ffff")).unwrap()));
    assert!(!net.contains(read_ip(&chars("2001:db9::1")).unwrap()));
    assert!(!net.contains(read_ip(&chars("32.1.13.184")).unwrap()));
    let one = read_network(&chars("::1")).unwrap();
    assert_eq!(one.prefix, 128);
    assert!(one.contains(IpAddress::V6(1)));
    assert!(!one.contains(IpAddress::V6(2)));
    assert_eq!(read_network(&chars("::/129")), None);
    assert_eq!(read_network(&chars("::/128")).map(|n| n.prefix), Some(128));
    assert_eq!(read_network(&chars("1.2.3.4/64")), None);
}
