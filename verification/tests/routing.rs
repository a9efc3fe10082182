use bgp_core::error::ConfigParseError;
use bgp_core::routing::{select_routes, Ipv4Network};

#[test]
fn network_is_read_from_cidr_text() {
    let network = Ipv4Network::from_str("10.200.100.0/24").unwrap();
    assert_eq!(network.ip(), 0x0ac8_6400);
    assert_eq!(network.prefix(), 24);
    assert_eq!(Ok(network), Ipv4Network::new(0x0ac8_6400, 24));
}

#[test]
fn network_text_keeps_host_bits_and_defaults_to_32() {
    let network = Ipv4Network::from_str("10.1.9.32/16").unwrap();
    assert_eq!(network.ip(), 0x0a01_0920);
    assert_eq!(network.prefix(), 16);
    let host = Ipv4Network::from_str("192.168.1.7").unwrap();
    assert_eq!(host.ip(), 0xc0a8_0107);
    assert_eq!(host.prefix(), 32);
}

#[test]
fn bad_network_text_is_rejected() {
    for text in ["", "not a network", "10.0.0.0/33", "10.0.0/8", "10.0.0.0/8/8", "300.0.0.0/8"] {
        assert_eq!(Ipv4Network::from_str(text), Err(ConfigParseError::InvalidNetwork));
    }
}

#[test]
fn network_prefix_is_at_most_32() {
    assert!(Ipv4Network::new(0, 0).is_ok());
    assert!(Ipv4Network::new(u32::MAX, 32).is_ok());
    assert_eq!(Ipv4Network::new(0, 33), Err(ConfigParseError::InvalidPrefix));
    assert_eq!(Ipv4Network::new(1, 255), Err(ConfigParseError::InvalidPrefix));
}

#[test]
fn parsed_parts_become_a_network() {
    assert_eq!(Ipv4Network::from_parsed(Some((7, 8))), Ipv4Network::new(7, 8));
    assert_eq!(Ipv4Network::from_parsed(Some((7, 40))), Err(ConfigParseError::InvalidPrefix));
    assert_eq!(Ipv4Network::from_parsed(None), Err(ConfigParseError::InvalidNetwork));
}

#[test]
fn networks_compare_by_address_and_prefix() {
    let a = Ipv4Network::new(0x0a00_0000, 8).unwrap();
    let b = Ipv4Network::new(0x0a00_0000, 16).unwrap();
    let c = Ipv4Network::new(0x0b00_0000, 8).unwrap();
    assert!(a.same_as(&a));
    assert!(!a.same_as(&b));
    assert!(!a.same_as(&c));
    assert!(a < b && b < c);
    assert_ne!(a, b);
}

#[test]
fn lookup_selects_the_matching_routes() {
    let network = Ipv4Network::new(0x0ac8_6400, 24).unwrap();
    let table = [
        Some((0, 0)),
        Some((0x0ac8_6400, 24)),
        None,
        Some((0x0ac8_6400, 25)),
        Some((0x0ac8_6500, 24)),
        Some((0x0ac8_6400, 24)),
    ];
    assert_eq!(select_routes(&table, network), Ok(vec![network, network]));
    assert_eq!(select_routes(&[], network), Ok(vec![]));
    assert_eq!(select_routes(&[None, Some((1, 1))], network), Ok(vec![]));
}

#[test]
fn lookup_fails_on_a_prefix_over_32() {
    let network = Ipv4Network::new(0x0ac8_6400, 24).unwrap();
    let table = [Some((0x0ac8_6400, 24)), Some((0x0ac8_6400, 33)), None];
    assert_eq!(select_routes(&table, network), Err(ConfigParseError::InvalidPrefix));
}

#[test]
fn locklib_can_lookup_routing_table() {
    let network = Ipv4Network::new(0x0ac8_6400, 24).unwrap();
    assert_eq!(Ok(network), Ipv4Network::from_str("10.200.100.0/24"));
    let table = [
        Some((0, 0)),
        Some((0x0ac8_6400, 24)),
        Some((0x7f00_0000, 8)),
        None,
    ];
    let routes = select_routes(&table, network).unwrap();
    let expected = vec![network];
    assert_eq!(routes, expected);
}
