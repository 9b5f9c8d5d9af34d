use moonraker_scan::error::MoonrakerError;
use moonraker_scan::ip::{
    format_ipv4, generate_ip_range, get_network_address, get_subnet_host_count, is_valid_subnet,
};

#[test]
fn format_ipv4_dotted_quad() {
    assert_eq!(format_ipv4(0), "0.0.0.0");
    assert_eq!(format_ipv4(0xC0A80101), "192.168.1.1");
    assert_eq!(format_ipv4(0xFFFFFFFF), "255.255.255.255");
    assert_eq!(format_ipv4(0x0A000001), "10.0.0.1");
}

#[test]
fn expand_slash_30_excludes_network_and_broadcast() {
    let ips = generate_ip_range("192.168.1.0/30").unwrap();
    assert_eq!(ips, vec!["192.168.1.1".to_string(), "192.168.1.2".to_string()]);
}

#[test]
fn expand_slash_29_has_size_minus_two() {
    let ips = generate_ip_range("10.0.0.0/29").unwrap();
    assert_eq!(ips.len(), 6);
    assert!(!ips.contains(&"10.0.0.0".to_string()));
    assert!(!ips.contains(&"10.0.0.7".to_string()));
    assert_eq!(ips[0], "10.0.0.1");
    assert_eq!(ips[5], "10.0.0.6");
}

#[test]
fn expand_slash_24_has_254_hosts() {
    let ips = generate_ip_range("192.168.1.0/24").unwrap();
    assert_eq!(ips.len(), 254);
    assert_eq!(ips[0], "192.168.1.1");
    assert_eq!(ips[253], "192.168.1.254");
    assert!(!ips.contains(&"192.168.1.0".to_string()));
    assert!(!ips.contains(&"192.168.1.255".to_string()));
}

#[test]
fn expand_masks_host_bits() {
    let a = generate_ip_range("192.168.1.77/24").unwrap();
    let b = generate_ip_range("192.168.1.0/24").unwrap();
    assert_eq!(a, b);
}

#[test]
fn expand_tiny_blocks_are_empty() {
    assert_eq!(generate_ip_range("192.168.1.0/31").unwrap().len(), 0);
    assert_eq!(generate_ip_range("192.168.1.4/32").unwrap().len(), 0);
}

#[test]
fn malformed_cidr_is_invalid_subnet() {
    for bad in ["nonsense", "300.1.2.3/24", "10.0.0.0/33", "10.0.0.0/24/8", ""] {
        match generate_ip_range(bad) {
            Err(MoonrakerError::InvalidSubnet(s)) => assert_eq!(s, bad),
            _ => panic!("expected InvalidSubnet for {:?}", bad),
        }
    }
}

#[test]
fn ipv6_is_above_the_enumeration_ceiling() {
    match generate_ip_range("fd00::/64") {
        Err(MoonrakerError::InvalidSubnet(s)) => assert_eq!(s, "fd00::/64"),
        _ => panic!("expected InvalidSubnet for an IPv6 block"),
    }
}

#[test]
fn subnet_validity() {
    assert!(is_valid_subnet("192.168.1.0/24"));
    assert!(is_valid_subnet("fd00::/64"));
    assert!(!is_valid_subnet("not-a-subnet"));
    assert!(!is_valid_subnet("10.0.0.0/33"));
}

#[test]
fn network_address_of_subnet() {
    assert_eq!(get_network_address("192.168.1.77/24").unwrap(), "192.168.1.0");
    assert_eq!(get_network_address("10.1.2.3/8").unwrap(), "10.0.0.0");
    assert!(get_network_address("junk").is_err());
}

#[test]
fn subnet_host_counts() {
    assert_eq!(get_subnet_host_count("192.168.1.0/24").unwrap(), 254);
    assert_eq!(get_subnet_host_count("192.168.1.0/30").unwrap(), 2);
    assert_eq!(get_subnet_host_count("192.168.1.0/31").unwrap(), 0);
    assert_eq!(get_subnet_host_count("192.168.1.0/32").unwrap(), 0);
    assert_eq!(get_subnet_host_count("fd00::/64").unwrap(), 65536);
    assert!(get_subnet_host_count("junk").is_err());
}

#[test]
fn invalid_subnet_message_names_the_string() {
    let e = generate_ip_range("junk").unwrap_err();
    assert_eq!(e.message(), "Invalid subnet: junk");
}
