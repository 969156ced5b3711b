use vstd::prelude::*;

use crate::conversion::CopyTo;
use crate::conversion::TryCopyTo;
use crate::errors::PfError;
use crate::net::IpAddress;
use crate::net::Ipv4Address;
use crate::net::Ipv6Address;
use crate::net::SocketAddress;
use crate::rule::addr_family::AddrFamily;
use crate::rule::ip::Ip;
use crate::rule::port::Port;
use crate::wire;

verus! {

/// One end of a connection a rule matches: an address field and a port
/// field.
#[derive(Clone, Copy, Debug, PartialEq, Eq, Hash, Structural)]
pub struct Endpoint {
    pub ip: Ip,
    pub port: Port,
}

impl Default for Endpoint {
    /// By default an endpoint matches any address and any port.
    fn default() -> (r: Self)
        ensures
            r == (Endpoint { ip: Ip::Any, port: Port::Any }),
    {
        Endpoint { ip: Ip::Any, port: Port::Any }
    }
}

impl Endpoint {
    /// The endpoint matching `ip` on `port`.
    pub fn new(ip: Ip, port: Port) -> (r: Self)
        ensures
            r == (Endpoint { ip, port }),
    {
        Endpoint { ip, port }
    }

    /// The endpoint matching `ip` on any port.
    pub fn from_ip(ip: Ip) -> (r: Self)
        ensures
            r == (Endpoint { ip, port: Port::Any }),
    {
        Endpoint { ip, port: Port::Any }
    }

    /// The endpoint matching any address on `port`.
    pub fn from_port(port: Port) -> (r: Self)
        ensures
            r == (Endpoint { ip: Ip::Any, port }),
    {
        Endpoint { ip: Ip::Any, port }
    }

    /// The endpoint matching the single IPv4 host `addr` on any port.
    pub fn from_ipv4(addr: Ipv4Address) -> (r: Self)
        ensures
            r.spec_ip() == Ip::from_single_v4(addr),
            r.spec_port() == Port::Any,
    {
        Endpoint { ip: Ip::from_ipv4(addr), port: Port::Any }
    }

    /// The endpoint matching the single IPv6 host `addr` on any port.
    pub fn from_ipv6(addr: Ipv6Address) -> (r: Self)
        ensures
            r.spec_ip() == Ip::from_single_v6(addr),
            r.spec_port() == Port::Any,
    {
        Endpoint { ip: Ip::from_ipv6(addr), port: Port::Any }
    }

    /// The endpoint of a socket address: its single host and exactly its
    /// port.
    pub fn from_socket_address(socket_addr: SocketAddress) -> (r: Self)
        ensures
            r.spec_ip() == (match socket_addr.ip {
                IpAddress::V4(a) => Ip::from_single_v4(a),
                IpAddress::V6(a) => Ip::from_single_v6(a),
            }),
            r.spec_port() == Port::One(socket_addr.port, crate::rule::port::PortUnaryModifier::Equal),
    {
        Endpoint { ip: Ip::from_ip_addr(socket_addr.ip), port: Port::from_port(socket_addr.port) }
    }

    /// The endpoint's address field.
    pub fn ip(&self) -> (r: Ip)
        ensures
            r == self.spec_ip(),
    {
        self.ip
    }

    /// The endpoint's address field.
    pub open spec fn spec_ip(self) -> Ip {
        self.ip
    }

    /// The endpoint's port field.
    pub fn port(&self) -> (r: Port)
        ensures
            r == self.spec_port(),
    {
        self.port
    }

    /// The endpoint's port field.
    pub open spec fn spec_port(self) -> Port {
        self.port
    }

    /// The address family the endpoint constrains a packet to.
    pub open spec fn af(self) -> AddrFamily {
        self.ip.af()
    }

    /// Report the address family the endpoint constrains a packet to.
    pub fn get_af(&self) -> (r: AddrFamily)
        ensures
            r == self.af(),
    {
        self.ip.get_af()
    }

    /// The encoded rule address: the wrapped address and the encoded port
    /// range — or the port range's error.
    pub open spec fn encoded(self) -> Result<wire::RuleAddrV, PfError> {
        match self.port.range_encoding() {
            Ok(ports) => Ok(wire::RuleAddrV { addr: self.ip.encoded(), ports }),
            Err(e) => Err(e),
        }
    }
}

impl TryCopyTo<wire::RuleAddr> for Endpoint {
    /// The whole destination is overwritten with the encoded endpoint.
    open spec fn try_copied(&self, old_dst: wire::RuleAddrV) -> Result<wire::RuleAddrV, PfError> {
        self.encoded()
    }

    fn try_copy_to(&self, dst: &mut wire::RuleAddr) -> (r: Result<(), PfError>) {
        self.ip.copy_to(&mut dst.addr);
        self.port.try_copy_to(&mut dst.ports)?;
        Ok(())
    }
}

} // verus!
