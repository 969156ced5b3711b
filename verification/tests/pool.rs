//! Pool-address list construction and traversal order.

use pfctl::Interface;
use pfctl::Ip;
use pfctl::Ipv4Address;
use pfctl::PoolAddr;
use pfctl::PoolAddrList;

fn addr(last_octet: u8) -> PoolAddr {
    PoolAddr::from_ip(Ip::from_ipv4(Ipv4Address::new(10, 0, 0, last_octet)))
}

#[test]
fn list_over_n_addresses_links_them_in_input_order() {
    let addrs = vec![addr(1), addr(2), addr(3), addr(4)];
    let list = PoolAddrList::new(addrs.as_slice()).unwrap();
    assert_eq!(list.entries.len(), 4);

    // walk the chain from the head, following the next links
    let mut order = Vec::new();
    let mut at = list.head();
    while let Some(i) = at {
        order.push(i);
        at = list.entries[i].next;
    }
    assert_eq!(order, vec![0, 1, 2, 3]);

    // each entry holds its input's address bytes: 10.0.0.k then zeros
    for (k, entry) in list.entries.iter().enumerate() {
        let mut expected = vec![10, 0, 0, (k + 1) as u8];
        expected.extend_from_slice(&[0u8; 12]);
        assert_eq!(entry.addr.addr.addr, expected);
    }

    // the previous links mirror the next links
    assert_eq!(list.entries[0].prev, None);
    assert_eq!(list.entries[3].next, None);
    assert_eq!(list.entries[2].prev, Some(1));
}

#[test]
fn empty_list_is_well_formed() {
    let list = PoolAddrList::new(&[]).unwrap();
    assert_eq!(list.entries.len(), 0);
    assert_eq!(list.head(), None);

    // a consumer walking the empty list visits nothing and does not fault
    let mut visited = 0;
    let mut at = list.head();
    while let Some(i) = at {
        visited += 1;
        at = list.entries[i].next;
    }
    assert_eq!(visited, 0);
}

#[test]
fn pool_addr_carries_interface_name() {
    let pa = PoolAddr::new(
        Interface::from_name("en0"),
        Ip::from_ipv4(Ipv4Address::new(192, 168, 1, 1)),
    );
    let list = PoolAddrList::new(&[pa]).unwrap();
    assert_eq!(&list.entries[0].addr.ifname[..4], b"en0\0");
}

#[test]
fn oversized_interface_name_fails_construction() {
    let pa = PoolAddr::new(
        Interface::from_name("far-too-long-interface-name"),
        Ip::Any,
    );
    assert!(PoolAddrList::new(&[pa]).is_err());
}

#[test]
fn ip_to_pool_addr_list_holds_one_entry() {
    let list = Ip::from_ipv4(Ipv4Address::new(127, 0, 0, 1))
        .to_pool_addr_list()
        .unwrap();
    assert_eq!(list.entries.len(), 1);
    let mut expected = vec![127, 0, 0, 1];
    expected.extend_from_slice(&[0u8; 12]);
    assert_eq!(list.entries[0].addr.addr.addr, expected);
    assert_eq!(list.entries[0].next, None);
}
