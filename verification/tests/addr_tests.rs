use moonraker_scan::addr::{is_valid_ip, is_valid_ip_address, parse_ipv4};
use moonraker_scan::ip::format_ipv4;

#[test]
fn parses_canonical_quads() {
    assert_eq!(parse_ipv4("0.0.0.0"), Some(0));
    assert_eq!(parse_ipv4("192.168.1.1"), Some(0xC0A80101));
    assert_eq!(parse_ipv4("255.255.255.255"), Some(u32::MAX));
    assert_eq!(parse_ipv4("10.0.0.7"), Some(0x0A000007));
}

#[test]
fn rejects_malformed_quads() {
    for bad in [
        "", "1", "1.2.3", "1.2.3.4.5", "01.2.3.4", "1.2.3.04", "256.1.1.1", "1..2.3",
        "1.2.3.4 ", " 1.2.3.4", "a.b.c.d", "1.2.3.-4", "1.2.3.4.", ".1.2.3.4", "1.2.3.1000",
    ] {
        assert_eq!(parse_ipv4(bad), None, "accepted {:?}", bad);
    }
}

#[test]
fn format_then_parse_roundtrip() {
    for a in [0u32, 1, 0x0A000001, 0xC0A80101, 0x7F000001, 0xFFFFFFFF, 0xA9FE0001] {
        assert_eq!(parse_ipv4(&format_ipv4(a)), Some(a));
    }
}

#[test]
fn parse_then_format_roundtrip() {
    for s in ["0.0.0.0", "10.0.0.1", "192.168.1.254", "255.255.255.255"] {
        assert_eq!(format_ipv4(parse_ipv4(s).unwrap()), s);
    }
}

#[test]
fn bare_addresses_are_valid_ips() {
    assert!(is_valid_ip("10.0.0.1"));
    assert!(is_valid_ip("127.0.0.1"));
    assert!(is_valid_ip("::1"));
    assert!(is_valid_ip("fe80::1"));
    assert!(is_valid_ip("2001:db8::1"));
}

#[test]
fn non_addresses_are_invalid_ips() {
    assert!(!is_valid_ip("10.0.0.0/24"));
    assert!(!is_valid_ip("fe80::/64"));
    assert!(!is_valid_ip("junk"));
    assert!(!is_valid_ip("10.0.0.256"));
    assert!(!is_valid_ip(""));
}

#[test]
fn local_addresses_pass_the_fetch_guard() {
    for ok in [
        "127.0.0.1", "10.1.2.3", "172.16.0.1", "172.31.255.255", "192.168.50.7",
        "169.254.1.1", "::1", "fe80::1", "fd12::1",
    ] {
        assert!(is_valid_ip_address(ok), "denied {:?}", ok);
    }
}

#[test]
fn public_addresses_fail_the_fetch_guard() {
    for bad in [
        "8.8.8.8", "1.1.1.1", "172.32.0.1", "172.15.0.1", "192.169.0.1", "2001:db8::1",
        "printer.local", "192.168.1.0/24", "",
    ] {
        assert!(!is_valid_ip_address(bad), "allowed {:?}", bad);
    }
}
