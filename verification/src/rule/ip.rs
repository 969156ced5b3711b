use vstd::prelude::*;

use crate::conversion::CopyTo;
use crate::cstr::zeros;
use crate::net::ip_addr_bytes;
use crate::net::mask_bytes;
use crate::net::mask_byte_at;
use crate::net::mask_bytes_vec;
use crate::net::IpAddress;
use crate::net::Ipv4Address;
use crate::net::Ipv6Address;
use crate::rule::addr_family::AddrFamily;
use crate::wire;
use crate::wire::be16;
use crate::wire::ADDR_BYTES;

verus! {


/// One 16-bit segment of a network mask: the byte pair at positions
/// `2 * segment` and `2 * segment + 1`.
fn mask_segment(prefix: u8, segment: usize) -> (r: u16)
    requires
        segment < 8,
    ensures
        be16(r) == seq![
            crate::net::mask_byte(prefix as int, 2 * segment as int),
            crate::net::mask_byte(prefix as int, 2 * segment as int + 1),
        ],
{
    let hi = mask_byte_at(prefix, 2 * segment);
    let lo = mask_byte_at(prefix, 2 * segment + 1);
    let r = (hi as u16) * 256 + (lo as u16);
    assert(be16(r) =~= seq![
        crate::net::mask_byte(prefix as int, 2 * segment as int),
        crate::net::mask_byte(prefix as int, 2 * segment as int + 1),
    ]);
    r
}

/// An IPv4 network: an address and a prefix length of at most 32 bits.
#[derive(Clone, Copy, Debug, PartialEq, Eq, Hash, Structural)]
pub struct Ipv4Network {
    pub addr: Ipv4Address,
    pub prefix: u8,
}

/// An IPv6 network: an address and a prefix length of at most 128 bits.
#[derive(Clone, Copy, Debug, PartialEq, Eq, Hash, Structural)]
pub struct Ipv6Network {
    pub addr: Ipv6Address,
    pub prefix: u8,
}

/// An IPv4 or IPv6 network, the concrete form of an address-bearing rule
/// field.
#[derive(Clone, Copy, Debug, PartialEq, Eq, Hash, Structural)]
pub enum IpNetwork {
    V4(Ipv4Network),
    V6(Ipv6Network),
}

impl IpNetwork {
    /// Whether the prefix length is within its family's address width.
    pub open spec fn wf(self) -> bool {
        match self {
            IpNetwork::V4(net) => net.prefix <= 32,
            IpNetwork::V6(net) => net.prefix <= 128,
        }
    }

    /// An IPv4 network, or `None` when the prefix exceeds 32 bits.
    pub fn v4(addr: Ipv4Address, prefix: u8) -> (r: Option<IpNetwork>)
        ensures
            r is Some <==> prefix <= 32,
            r is Some ==> r == Some(IpNetwork::V4(Ipv4Network { addr, prefix })),
    {
        if prefix <= 32 {
            Some(IpNetwork::V4(Ipv4Network { addr, prefix }))
        } else {
            None
        }
    }

    /// An IPv6 network, or `None` when the prefix exceeds 128 bits.
    pub fn v6(addr: Ipv6Address, prefix: u8) -> (r: Option<IpNetwork>)
        ensures
            r is Some <==> prefix <= 128,
            r is Some ==> r == Some(IpNetwork::V6(Ipv6Network { addr, prefix })),
    {
        if prefix <= 128 {
            Some(IpNetwork::V6(Ipv6Network { addr, prefix }))
        } else {
            None
        }
    }

    /// A network of either family, or `None` when the prefix exceeds the
    /// family's address width.
    pub fn new_checked(ip: IpAddress, prefix: u8) -> (r: Option<IpNetwork>)
        ensures
            match ip {
                IpAddress::V4(addr) => {
                    &&& r is Some <==> prefix <= 32
                    &&& r is Some ==> r == Some(IpNetwork::V4(Ipv4Network { addr, prefix }))
                },
                IpAddress::V6(addr) => {
                    &&& r is Some <==> prefix <= 128
                    &&& r is Some ==> r == Some(IpNetwork::V6(Ipv6Network { addr, prefix }))
                },
            },
    {
        match ip {
            IpAddress::V4(addr) => IpNetwork::v4(addr, prefix),
            IpAddress::V6(addr) => IpNetwork::v6(addr, prefix),
        }
    }

    /// A network of either family whose prefix is known to be valid.
    pub fn new(ip: IpAddress, prefix: u8) -> (r: IpNetwork)
        requires
            ip is V4 ==> prefix <= 32,
            ip is V6 ==> prefix <= 128,
        ensures
            match ip {
                IpAddress::V4(addr) => r == IpNetwork::V4(Ipv4Network { addr, prefix }),
                IpAddress::V6(addr) => r == IpNetwork::V6(Ipv6Network { addr, prefix }),
            },
    {
        match ip {
            IpAddress::V4(addr) => IpNetwork::V4(Ipv4Network { addr, prefix }),
            IpAddress::V6(addr) => IpNetwork::V6(Ipv6Network { addr, prefix }),
        }
    }

    /// The address family the network belongs to.
    pub open spec fn af(self) -> AddrFamily {
        match self {
            IpNetwork::V4(_) => AddrFamily::Ipv4,
            IpNetwork::V6(_) => AddrFamily::Ipv6,
        }
    }

    /// Report the address family the network belongs to.
    pub fn get_af(&self) -> (r: AddrFamily)
        ensures
            r == self.af(),
    {
        match self {
            IpNetwork::V4(_) => AddrFamily::Ipv4,
            IpNetwork::V6(_) => AddrFamily::Ipv6,
        }
    }

    /// The network's address.
    pub fn ip(&self) -> (r: IpAddress)
        ensures
            r == self.spec_ip(),
    {
        match self {
            IpNetwork::V4(net) => IpAddress::V4(net.addr),
            IpNetwork::V6(net) => IpAddress::V6(net.addr),
        }
    }

    /// The network's address.
    pub open spec fn spec_ip(self) -> IpAddress {
        match self {
            IpNetwork::V4(net) => IpAddress::V4(net.addr),
            IpNetwork::V6(net) => IpAddress::V6(net.addr),
        }
    }

    /// The network's prefix length in bits.
    pub fn prefix_len(&self) -> (r: u8)
        ensures
            r == self.spec_prefix_len(),
    {
        match self {
            IpNetwork::V4(net) => net.prefix,
            IpNetwork::V6(net) => net.prefix,
        }
    }

    /// The network's prefix length in bits.
    pub open spec fn spec_prefix_len(self) -> u8 {
        match self {
            IpNetwork::V4(net) => net.prefix,
            IpNetwork::V6(net) => net.prefix,
        }
    }

    /// The network's mask, as an address of its own family.
    pub fn mask(&self) -> (r: IpAddress)
        ensures
            r.addr_bytes() == self.spec_mask_bytes(),
    {
        match self {
            IpNetwork::V4(net) => {
                let r = IpAddress::V4(
                    Ipv4Address::new(
                        mask_byte_at(net.prefix, 0),
                        mask_byte_at(net.prefix, 1),
                        mask_byte_at(net.prefix, 2),
                        mask_byte_at(net.prefix, 3),
                    ),
                );
                assert(r.addr_bytes() =~= self.spec_mask_bytes());
                r
            },
            IpNetwork::V6(net) => {
                let r = IpAddress::V6(
                    Ipv6Address::new(
                        mask_segment(net.prefix, 0),
                        mask_segment(net.prefix, 1),
                        mask_segment(net.prefix, 2),
                        mask_segment(net.prefix, 3),
                        mask_segment(net.prefix, 4),
                        mask_segment(net.prefix, 5),
                        mask_segment(net.prefix, 6),
                        mask_segment(net.prefix, 7),
                    ),
                );
                assert(r.addr_bytes() =~= self.spec_mask_bytes());
                r
            },
        }
    }

    /// The 16 raw mask bytes the network encodes to: an IPv4 mask occupies
    /// the first four bytes, the rest staying zero.
    pub open spec fn spec_mask_bytes(self) -> Seq<u8> {
        match self {
            IpNetwork::V4(net) => mask_bytes(net.prefix as int, 4) + zeros((ADDR_BYTES - 4) as nat),
            IpNetwork::V6(net) => mask_bytes(net.prefix as int, ADDR_BYTES as int),
        }
    }

    /// The encoded address wrap: type tag, address bytes, mask bytes.
    pub open spec fn encoded(self) -> wire::AddrWrapV {
        wire::AddrWrapV {
            addr_type: wire::PF_ADDR_ADDRMASK,
            addr: self.spec_ip().addr_bytes(),
            mask: self.spec_mask_bytes(),
        }
    }
}

impl CopyTo<wire::AddrWrap> for IpNetwork {
    /// The whole destination is overwritten with the encoded network.
    open spec fn copied(&self, old_dst: wire::AddrWrapV) -> wire::AddrWrapV {
        self.encoded()
    }

    fn copy_to(&self, dst: &mut wire::AddrWrap) {
        dst.addr_type = wire::PF_ADDR_ADDRMASK;
        let ip = self.ip();
        dst.addr = ip_addr_bytes(&ip);
        match self {
            IpNetwork::V4(net) => {
                let mut mask = mask_bytes_vec(net.prefix, 4);
                let mut pad = crate::cstr::zero_bytes(ADDR_BYTES - 4);
                mask.append(&mut pad);
                dst.mask = mask;
            },
            IpNetwork::V6(net) => {
                dst.mask = mask_bytes_vec(net.prefix, ADDR_BYTES);
            },
        }
        assert(dst@ =~= self.encoded());
    }
}

/// An address-bearing rule field: unconstrained, or a concrete network.
#[derive(Clone, Copy, Debug, PartialEq, Eq, Hash, Structural)]
pub enum Ip {
    Any,
    Net(IpNetwork),
}

impl Default for Ip {
    /// By default an address field is unconstrained.
    fn default() -> (r: Self)
        ensures
            r == Ip::Any,
    {
        Ip::Any
    }
}

impl Ip {
    /// The address family the field constrains a packet to; `Any` leaves it
    /// unconstrained.
    pub open spec fn af(self) -> AddrFamily {
        match self {
            Ip::Any => AddrFamily::Any,
            Ip::Net(network) => network.af(),
        }
    }

    /// Report the address family the field constrains a packet to.
    pub fn get_af(&self) -> (r: AddrFamily)
        ensures
            r == self.af(),
    {
        match self {
            Ip::Any => AddrFamily::Any,
            Ip::Net(network) => network.get_af(),
        }
    }

    /// The single IPv4 host `addr`, as the network `addr/32`.
    pub open spec fn from_single_v4(addr: Ipv4Address) -> Ip {
        Ip::Net(IpNetwork::V4(Ipv4Network { addr, prefix: 32u8 }))
    }

    /// The single IPv6 host `addr`, as the network `addr/128`.
    pub open spec fn from_single_v6(addr: Ipv6Address) -> Ip {
        Ip::Net(IpNetwork::V6(Ipv6Network { addr, prefix: 128u8 }))
    }

    /// The single IPv4 host `addr`.
    pub fn from_ipv4(addr: Ipv4Address) -> (r: Ip)
        ensures
            r == Ip::from_single_v4(addr),
    {
        Ip::Net(IpNetwork::V4(Ipv4Network { addr, prefix: 32 }))
    }

    /// The single IPv6 host `addr`.
    pub fn from_ipv6(addr: Ipv6Address) -> (r: Ip)
        ensures
            r == Ip::from_single_v6(addr),
    {
        Ip::Net(IpNetwork::V6(Ipv6Network { addr, prefix: 128 }))
    }

    /// The single host `addr` of either family.
    pub fn from_ip_addr(addr: IpAddress) -> (r: Ip)
        ensures
            match addr {
                IpAddress::V4(a) => r == Ip::from_single_v4(a),
                IpAddress::V6(a) => r == Ip::from_single_v6(a),
            },
    {
        match addr {
            IpAddress::V4(a) => Ip::from_ipv4(a),
            IpAddress::V6(a) => Ip::from_ipv6(a),
        }
    }

    /// The encoded address wrap. An unconstrained field encodes as the
    /// all-zero IPv6 network `::/0`, whose address and mask bytes are all
    /// zero.
    pub open spec fn encoded(self) -> wire::AddrWrapV {
        match self {
            Ip::Any => wire::AddrWrapV {
                addr_type: wire::PF_ADDR_ADDRMASK,
                addr: zeros(ADDR_BYTES as nat),
                mask: zeros(ADDR_BYTES as nat),
            },
            Ip::Net(network) => network.encoded(),
        }
    }
}

impl CopyTo<wire::AddrWrap> for Ip {
    /// The whole destination is overwritten with the encoded field.
    open spec fn copied(&self, old_dst: wire::AddrWrapV) -> wire::AddrWrapV {
        self.encoded()
    }

    fn copy_to(&self, dst: &mut wire::AddrWrap) {
        match self {
            Ip::Any => {
                let any_net = IpNetwork::V6(
                    Ipv6Network { addr: Ipv6Address::new(0, 0, 0, 0, 0, 0, 0, 0), prefix: 0 },
                );
                any_net.copy_to(dst);
                assert(dst@ =~= self.encoded());
            },
            Ip::Net(network) => {
                let net = *network;
                net.copy_to(dst);
            },
        }
    }
}

} // verus!
