use vstd::prelude::*;

use crate::errors::PfError;

verus! {

/// Raw protocol number matching any transport protocol (`IPPROTO_IP`).
pub const IPPROTO_IP: u8 = 0;

/// Raw protocol number of ICMP (`IPPROTO_ICMP`).
pub const IPPROTO_ICMP: u8 = 1;

/// Raw protocol number of TCP (`IPPROTO_TCP`).
pub const IPPROTO_TCP: u8 = 6;

/// Raw protocol number of UDP (`IPPROTO_UDP`).
pub const IPPROTO_UDP: u8 = 17;

/// Raw protocol number of ICMPv6 (`IPPROTO_ICMPV6`).
pub const IPPROTO_ICMPV6: u8 = 58;

/// The transport protocol a rule matches against.
#[derive(Clone, Copy, Debug, PartialEq, Eq, Hash, Structural)]
pub enum Proto {
    Any,
    Tcp,
    Udp,
    Icmp,
    IcmpV6,
}

impl Proto {
    /// The raw protocol byte this value encodes to.
    pub open spec fn raw(self) -> u8 {
        match self {
            Proto::Any => IPPROTO_IP,
            Proto::Tcp => IPPROTO_TCP,
            Proto::Udp => IPPROTO_UDP,
            Proto::Icmp => IPPROTO_ICMP,
            Proto::IcmpV6 => IPPROTO_ICMPV6,
        }
    }

    /// Encode into the raw protocol byte.
    pub fn to_raw(self) -> (r: u8)
        ensures
            r == self.raw(),
    {
        match self {
            Proto::Any => IPPROTO_IP,
            Proto::Tcp => IPPROTO_TCP,
            Proto::Udp => IPPROTO_UDP,
            Proto::Icmp => IPPROTO_ICMP,
            Proto::IcmpV6 => IPPROTO_ICMPV6,
        }
    }

    /// What decoding a raw protocol byte yields.
    pub open spec fn spec_from_raw(proto: u8) -> Result<Proto, PfError> {
        if proto == IPPROTO_IP {
            Ok(Proto::Any)
        } else if proto == IPPROTO_TCP {
            Ok(Proto::Tcp)
        } else if proto == IPPROTO_UDP {
            Ok(Proto::Udp)
        } else if proto == IPPROTO_ICMP {
            Ok(Proto::Icmp)
        } else if proto == IPPROTO_ICMPV6 {
            Ok(Proto::IcmpV6)
        } else {
            Err(PfError::InvalidTransportProtocol(proto))
        }
    }

    /// Decode a raw protocol byte; a byte outside the known set is rejected
    /// as `InvalidTransportProtocol`.
    pub fn try_from_raw(proto: u8) -> (r: Result<Proto, PfError>)
        ensures
            r == Proto::spec_from_raw(proto),
    {
        if proto == IPPROTO_IP {
            Ok(Proto::Any)
        } else if proto == IPPROTO_TCP {
            Ok(Proto::Tcp)
        } else if proto == IPPROTO_UDP {
            Ok(Proto::Udp)
        } else if proto == IPPROTO_ICMP {
            Ok(Proto::Icmp)
        } else if proto == IPPROTO_ICMPV6 {
            Ok(Proto::IcmpV6)
        } else {
            Err(PfError::InvalidTransportProtocol(proto))
        }
    }
}

impl Default for Proto {
    /// The default protocol matches any transport protocol.
    fn default() -> (r: Self)
        ensures
            r == Proto::Any,
    {
        Proto::Any
    }
}

} // verus!
