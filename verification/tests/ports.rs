//! Port and port-range encoding.

use pfctl::wire::Pool;
use pfctl::wire::PortRange;
use pfctl::PfError;
use pfctl::Port;
use pfctl::PortRangeModifier;
use pfctl::PortUnaryModifier;
use pfctl::TryCopyTo;

#[test]
fn invalid_port_range_is_rejected() {
    let mut dst = PortRange::zeroed();
    assert_eq!(
        Port::Range(2000, 1000, PortRangeModifier::Inclusive).try_copy_to(&mut dst),
        Err(PfError::InvalidPortRange)
    );
    let mut pool = Pool::zeroed();
    assert_eq!(
        Port::Range(2000, 1000, PortRangeModifier::Inclusive).try_copy_to(&mut pool),
        Err(PfError::InvalidPortRange)
    );
}

#[test]
fn port_range_encodes_network_order_and_modifier() {
    let mut dst = PortRange::zeroed();
    Port::Range(1000, 2000, PortRangeModifier::Inclusive)
        .try_copy_to(&mut dst)
        .unwrap();
    // 1000 = 0x03e8, 2000 = 0x07d0, both in network byte order
    assert_eq!(dst.ports, vec![0x03, 0xe8, 0x07, 0xd0]);
    assert_eq!(dst.op, 9);

    let mut dst = PortRange::zeroed();
    Port::Range(1000, 2000, PortRangeModifier::Exclusive)
        .try_copy_to(&mut dst)
        .unwrap();
    assert_eq!(dst.op, 1);

    let mut dst = PortRange::zeroed();
    Port::Range(1000, 2000, PortRangeModifier::Except)
        .try_copy_to(&mut dst)
        .unwrap();
    assert_eq!(dst.op, 8);
}

#[test]
fn empty_port_range_is_allowed_when_ends_are_equal() {
    let mut dst = PortRange::zeroed();
    Port::Range(80, 80, PortRangeModifier::Inclusive)
        .try_copy_to(&mut dst)
        .unwrap();
    assert_eq!(dst.ports, vec![0x00, 0x50, 0x00, 0x50]);
}

#[test]
fn single_port_encodes_network_order() {
    let mut dst = PortRange::zeroed();
    Port::One(3000, PortUnaryModifier::Equal)
        .try_copy_to(&mut dst)
        .unwrap();
    assert_eq!(dst.ports, vec![0x0b, 0xb8, 0x00, 0x00]);
    assert_eq!(dst.op, 2);

    let mut dst = PortRange::zeroed();
    Port::Any.try_copy_to(&mut dst).unwrap();
    assert_eq!(dst.ports, vec![0, 0, 0, 0]);
    assert_eq!(dst.op, 0);
}

#[test]
fn pool_ports_stay_in_host_order() {
    let mut pool = Pool::zeroed();
    Port::Range(1000, 2000, PortRangeModifier::Inclusive)
        .try_copy_to(&mut pool)
        .unwrap();
    assert_eq!(pool.proxy_port_first, 1000);
    assert_eq!(pool.proxy_port_second, 2000);
    assert_eq!(pool.port_op, 9);
}

#[test]
fn port_from_value_matches_equal() {
    assert_eq!(
        Port::from_port(22),
        Port::One(22, PortUnaryModifier::Equal)
    );
}
