use vstd::prelude::*;

use crate::errors::PfError;

verus! {

/// Raw value of the unconstrained address family (`AF_UNSPEC`).
pub const AF_UNSPEC: u8 = 0;

/// Raw value of the IPv4 address family (`AF_INET`).
pub const AF_INET: u8 = 2;

/// Raw value of the IPv6 address family on this kernel (`AF_INET6`).
pub const AF_INET6: u8 = 30;

/// The address family an address-bearing rule field constrains a packet to:
/// IPv4, IPv6, or unconstrained.
#[derive(Clone, Copy, Debug, PartialEq, Eq, Hash, Structural)]
pub enum AddrFamily {
    Any,
    Ipv4,
    Ipv6,
}

impl AddrFamily {
    /// The raw address-family byte this value encodes to.
    pub open spec fn raw(self) -> u8 {
        match self {
            AddrFamily::Any => AF_UNSPEC,
            AddrFamily::Ipv4 => AF_INET,
            AddrFamily::Ipv6 => AF_INET6,
        }
    }

    /// Encode into the raw address-family byte.
    pub fn to_raw(self) -> (r: u8)
        ensures
            r == self.raw(),
    {
        match self {
            AddrFamily::Any => AF_UNSPEC,
            AddrFamily::Ipv4 => AF_INET,
            AddrFamily::Ipv6 => AF_INET6,
        }
    }

    /// What decoding a raw address-family byte yields.
    pub open spec fn spec_from_raw(family: u8) -> Result<AddrFamily, PfError> {
        if family == AF_UNSPEC {
            Ok(AddrFamily::Any)
        } else if family == AF_INET {
            Ok(AddrFamily::Ipv4)
        } else if family == AF_INET6 {
            Ok(AddrFamily::Ipv6)
        } else {
            Err(PfError::InvalidAddressFamily(family))
        }
    }

    /// Decode a raw address-family byte; a byte outside the known set is
    /// rejected as `InvalidAddressFamily`.
    pub fn try_from_raw(family: u8) -> (r: Result<AddrFamily, PfError>)
        ensures
            r == AddrFamily::spec_from_raw(family),
    {
        if family == AF_UNSPEC {
            Ok(AddrFamily::Any)
        } else if family == AF_INET {
            Ok(AddrFamily::Ipv4)
        } else if family == AF_INET6 {
            Ok(AddrFamily::Ipv6)
        } else {
            Err(PfError::InvalidAddressFamily(family))
        }
    }
}

impl AddrFamily {
    /// The family's display name, as conflict diagnostics print it.
    pub fn name(&self) -> (r: String)
        ensures
            *self == AddrFamily::Any ==> r@ == "any"@,
            *self == AddrFamily::Ipv4 ==> r@ == "IPv4"@,
            *self == AddrFamily::Ipv6 ==> r@ == "IPv6"@,
    {
        match self {
            AddrFamily::Any => "any".to_owned(),
            AddrFamily::Ipv4 => "IPv4".to_owned(),
            AddrFamily::Ipv6 => "IPv6".to_owned(),
        }
    }
}

impl Default for AddrFamily {
    /// The default address family leaves the rule unconstrained.
    fn default() -> (r: Self)
        ensures
            r == AddrFamily::Any,
    {
        AddrFamily::Any
    }
}

} // verus!
