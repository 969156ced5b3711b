//! Address, network and mask handling.

use pfctl::AddrFamily;
use pfctl::Endpoint;
use pfctl::Port;
use pfctl::PortUnaryModifier;
use pfctl::SocketAddress;
use pfctl::Ip;
use pfctl::IpAddress;
use pfctl::IpNetwork;
use pfctl::Ipv4Address;
use pfctl::Ipv6Address;

#[test]
fn network_constructors_check_the_prefix() {
    assert!(IpNetwork::v4(Ipv4Address::new(10, 0, 0, 0), 24).is_some());
    assert!(IpNetwork::v4(Ipv4Address::new(10, 0, 0, 0), 33).is_none());
    assert!(IpNetwork::v6(Ipv6Address::new(0, 0, 0, 0, 0, 0, 0, 1), 128).is_some());
    assert!(IpNetwork::v6(Ipv6Address::new(0, 0, 0, 0, 0, 0, 0, 1), 129).is_none());
}

#[test]
fn network_mask_follows_the_prefix() {
    let net = IpNetwork::v4(Ipv4Address::new(192, 168, 99, 11), 24).unwrap();
    assert_eq!(
        net.mask(),
        IpAddress::V4(Ipv4Address::new(255, 255, 255, 0))
    );
    let net = IpNetwork::v4(Ipv4Address::new(10, 0, 0, 0), 12).unwrap();
    assert_eq!(net.mask(), IpAddress::V4(Ipv4Address::new(255, 240, 0, 0)));
    let net = IpNetwork::v6(Ipv6Address::new(0, 0, 0, 0, 0, 0, 0, 0), 33).unwrap();
    assert_eq!(
        net.mask(),
        IpAddress::V6(Ipv6Address::new(0xffff, 0xffff, 0x8000, 0, 0, 0, 0, 0))
    );
}

#[test]
fn address_families_follow_the_variant() {
    assert_eq!(Ip::Any.get_af(), AddrFamily::Any);
    assert_eq!(
        Ip::from_ipv4(Ipv4Address::new(1, 2, 3, 4)).get_af(),
        AddrFamily::Ipv4
    );
    assert_eq!(
        Ip::from_ipv6(Ipv6Address::new(1, 2, 3, 4, 5, 6, 7, 8)).get_af(),
        AddrFamily::Ipv6
    );
}

#[test]
fn raw_family_bytes_round_trip() {
    for family in [AddrFamily::Any, AddrFamily::Ipv4, AddrFamily::Ipv6] {
        assert_eq!(AddrFamily::try_from_raw(family.to_raw()), Ok(family));
    }
    assert!(AddrFamily::try_from_raw(77).is_err());
}

#[test]
fn family_names_match_diagnostics() {
    assert_eq!(AddrFamily::Any.name(), "any");
    assert_eq!(AddrFamily::Ipv4.name(), "IPv4");
    assert_eq!(AddrFamily::Ipv6.name(), "IPv6");
}

#[test]
fn endpoint_from_socket_address_keeps_host_and_port() {
    let sock = SocketAddress {
        ip: IpAddress::V4(Ipv4Address::new(127, 0, 0, 1)),
        port: 8080,
    };
    let endpoint = Endpoint::from_socket_address(sock);
    assert_eq!(endpoint.get_af(), AddrFamily::Ipv4);
    assert_eq!(endpoint.port(), Port::One(8080, PortUnaryModifier::Equal));
}
