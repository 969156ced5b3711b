//! Decoding kernel state records.

use pfctl::setup_pfioc_state_kill;
use pfctl::state::parse_address;
use pfctl::wire::StateHost;
use pfctl::wire::StateKillRequest;
use pfctl::AddrFamily;
use pfctl::Direction;
use pfctl::IpAddress;
use pfctl::Ipv4Address;
use pfctl::Ipv6Address;
use pfctl::PfError;
use pfctl::Proto;
use pfctl::SocketAddress;
use pfctl::State;

fn host_v4(octets: [u8; 4], port: u16) -> StateHost {
    let mut addr = octets.to_vec();
    addr.extend_from_slice(&[0u8; 12]);
    StateHost {
        addr,
        port: vec![(port / 256) as u8, (port % 256) as u8],
    }
}

fn zero_state() -> pfctl::wire::RawState {
    pfctl::wire::RawState {
        ifname: vec![0u8; 16],
        lan: host_v4([0, 0, 0, 0], 0),
        ext_lan: host_v4([0, 0, 0, 0], 0),
        anchor: 0,
        af_lan: 0,
        proto: 0,
        direction: 0,
        proto_variant: 0,
    }
}

#[test]
fn test_parse_ipv4_address() {
    let expected_ip = Ipv4Address::new(1, 2, 3, 4);
    let expected_port: u16 = 12345;

    let host = host_v4([1, 2, 3, 4], expected_port);
    let family = AddrFamily::Ipv4.to_raw();

    assert_eq!(
        parse_address(family, &host),
        Ok(SocketAddress {
            ip: IpAddress::V4(expected_ip),
            port: expected_port,
        })
    );
}

#[test]
fn test_parse_ipv6_address() {
    let expected_ip = Ipv6Address::new(1, 2, 3, 4, 5, 6, 7, 0x7f);
    let expected_port: u16 = 12345;

    let host = StateHost {
        addr: vec![0, 1, 0, 2, 0, 3, 0, 4, 0, 5, 0, 6, 0, 7, 0, 0x7f],
        port: vec![(expected_port / 256) as u8, (expected_port % 256) as u8],
    };
    let family = AddrFamily::Ipv6.to_raw();

    assert_eq!(
        parse_address(family, &host),
        Ok(SocketAddress {
            ip: IpAddress::V6(expected_ip),
            port: expected_port,
        })
    );
}

#[test]
fn parse_unknown_family_is_rejected() {
    let host = host_v4([1, 2, 3, 4], 1);
    assert_eq!(
        parse_address(99, &host),
        Err(PfError::InvalidAddressFamily(99))
    );
}

#[test]
fn state_decodes_direction_and_proto() {
    let mut raw = zero_state();
    raw.direction = 1;
    raw.proto = 6;
    let state = State::new(raw);
    assert_eq!(state.direction(), Ok(Direction::In));
    assert_eq!(state.proto(), Ok(Proto::Tcp));

    let mut raw = zero_state();
    raw.direction = 9;
    raw.proto = 200;
    let state = State::new(raw);
    assert_eq!(state.direction(), Err(PfError::InvalidDirection(9)));
    assert_eq!(state.proto(), Err(PfError::InvalidTransportProtocol(200)));
}

#[test]
fn state_kill_request_copies_the_record() {
    let mut raw = zero_state();
    raw.af_lan = AddrFamily::Ipv4.to_raw();
    raw.proto = 17;
    raw.proto_variant = 1;
    raw.ifname = b"en0\0\0\0\0\0\0\0\0\0\0\0\0\0".to_vec();
    raw.lan = host_v4([10, 0, 0, 1], 53);
    raw.ext_lan = host_v4([8, 8, 8, 8], 53);
    let state = State::new(raw.clone());

    let mut kill = StateKillRequest::zeroed();
    setup_pfioc_state_kill(&state, &mut kill);
    assert_eq!(kill.af, raw.af_lan);
    assert_eq!(kill.proto, 17);
    assert_eq!(kill.proto_variant, 1);
    assert_eq!(kill.ifname, raw.ifname);
    assert_eq!(kill.src_addr, raw.lan.addr);
    assert_eq!(kill.dst_addr, raw.ext_lan.addr);
}

#[test]
fn state_anchor_matching() {
    let mut raw = zero_state();
    raw.anchor = 7;
    let state = State::new(raw);
    assert!(state.belongs_to_anchor(7));
    assert!(!state.belongs_to_anchor(8));
}

#[test]
fn as_raw_exposes_the_wrapped_record() {
    let mut raw = zero_state();
    raw.anchor = 3;
    let state = State::new(raw.clone());
    assert_eq!(state.as_raw(), &raw);
}
