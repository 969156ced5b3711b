//! The library's own plain-value address types.
//!
//! The kernel stores an address as 16 raw bytes in network byte order, an
//! IPv4 address occupying the first four. These types carry exactly what
//! the encoding and decoding logic reads: octets, segments, a port.

use vstd::prelude::*;

use crate::cstr::zeros;
use crate::wire::be16;
use crate::wire::ADDR_BYTES;

verus! {

/// An IPv4 address, as its four octets.
#[derive(Clone, Copy, Debug, PartialEq, Eq, Hash, Structural)]
pub struct Ipv4Address {
    pub octet0: u8,
    pub octet1: u8,
    pub octet2: u8,
    pub octet3: u8,
}

impl Ipv4Address {
    /// The address `octet0.octet1.octet2.octet3`.
    pub fn new(octet0: u8, octet1: u8, octet2: u8, octet3: u8) -> (r: Self)
        ensures
            r == (Ipv4Address { octet0, octet1, octet2, octet3 }),
    {
        Ipv4Address { octet0, octet1, octet2, octet3 }
    }

    /// The four octets in network order.
    pub open spec fn octets(self) -> Seq<u8> {
        seq![self.octet0, self.octet1, self.octet2, self.octet3]
    }

    /// The 16 raw address bytes: the four octets, then zero padding.
    pub open spec fn addr_bytes(self) -> Seq<u8> {
        self.octets() + zeros((ADDR_BYTES - 4) as nat)
    }
}

/// An IPv6 address, as its eight 16-bit segments.
#[derive(Clone, Copy, Debug, PartialEq, Eq, Hash, Structural)]
pub struct Ipv6Address {
    pub seg0: u16,
    pub seg1: u16,
    pub seg2: u16,
    pub seg3: u16,
    pub seg4: u16,
    pub seg5: u16,
    pub seg6: u16,
    pub seg7: u16,
}

impl Ipv6Address {
    /// The address `seg0:seg1:...:seg7`.
    pub fn new(seg0: u16, seg1: u16, seg2: u16, seg3: u16, seg4: u16, seg5: u16, seg6: u16, seg7: u16) -> (r: Self)
        ensures
            r == (Ipv6Address { seg0, seg1, seg2, seg3, seg4, seg5, seg6, seg7 }),
    {
        Ipv6Address { seg0, seg1, seg2, seg3, seg4, seg5, seg6, seg7 }
    }

    /// The 16 raw address bytes: each segment as a network-order byte pair.
    pub open spec fn addr_bytes(self) -> Seq<u8> {
        be16(self.seg0) + be16(self.seg1) + be16(self.seg2) + be16(self.seg3) + be16(self.seg4)
            + be16(self.seg5) + be16(self.seg6) + be16(self.seg7)
    }
}

/// An IPv4 or IPv6 address.
#[derive(Clone, Copy, Debug, PartialEq, Eq, Hash, Structural)]
pub enum IpAddress {
    V4(Ipv4Address),
    V6(Ipv6Address),
}

impl IpAddress {
    /// The 16 raw address bytes of either family.
    pub open spec fn addr_bytes(self) -> Seq<u8> {
        match self {
            IpAddress::V4(addr) => addr.addr_bytes(),
            IpAddress::V6(addr) => addr.addr_bytes(),
        }
    }
}

/// Write an address as its 16 raw bytes.
pub fn ip_addr_bytes(addr: &IpAddress) -> (r: Vec<u8>)
    ensures
        r@ == addr.addr_bytes(),
        r@.len() == ADDR_BYTES,
{
    match addr {
        IpAddress::V4(a) => {
            let mut out: Vec<u8> = Vec::new();
            out.push(a.octet0);
            out.push(a.octet1);
            out.push(a.octet2);
            out.push(a.octet3);
            let mut pad = crate::cstr::zero_bytes(ADDR_BYTES - 4);
            out.append(&mut pad);
            assert(out@ =~= a.addr_bytes());
            out
        },
        IpAddress::V6(a) => {
            let mut out = crate::wire::be16_bytes(a.seg0);
            let mut part = crate::wire::be16_bytes(a.seg1);
            out.append(&mut part);
            let mut part = crate::wire::be16_bytes(a.seg2);
            out.append(&mut part);
            let mut part = crate::wire::be16_bytes(a.seg3);
            out.append(&mut part);
            let mut part = crate::wire::be16_bytes(a.seg4);
            out.append(&mut part);
            let mut part = crate::wire::be16_bytes(a.seg5);
            out.append(&mut part);
            let mut part = crate::wire::be16_bytes(a.seg6);
            out.append(&mut part);
            let mut part = crate::wire::be16_bytes(a.seg7);
            out.append(&mut part);
            assert(out@ =~= a.addr_bytes());
            out
        },
    }
}

/// One side of a tracked connection: an address and a port.
#[derive(Clone, Copy, Debug, PartialEq, Eq, Hash, Structural)]
pub struct SocketAddress {
    pub ip: IpAddress,
    pub port: u16,
}

/// The network-mask byte at position `i` for a prefix of `prefix` bits:
/// all-ones bytes while the prefix covers them, then one partial byte, then
/// zeros.
pub open spec fn mask_byte(prefix: int, i: int) -> u8 {
    if prefix >= 8 * (i + 1) {
        255
    } else if prefix <= 8 * i {
        0
    } else {
        partial_mask_byte(prefix - 8 * i)
    }
}

/// The byte whose top `r` bits are set, for `r` between 1 and 7.
pub open spec fn partial_mask_byte(r: int) -> u8 {
    if r == 1 {
        128
    } else if r == 2 {
        192
    } else if r == 3 {
        224
    } else if r == 4 {
        240
    } else if r == 5 {
        248
    } else if r == 6 {
        252
    } else if r == 7 {
        254
    } else {
        0
    }
}

/// The first `len` bytes of the network mask for a prefix of `prefix` bits.
pub open spec fn mask_bytes(prefix: int, len: int) -> Seq<u8> {
    Seq::new(len as nat, |i: int| mask_byte(prefix, i))
}

/// Compute the network-mask byte at position `i` of a prefix.
pub fn mask_byte_at(prefix: u8, i: usize) -> (r: u8)
    requires
        i < 16,
    ensures
        r == mask_byte(prefix as int, i as int),
{
    let bits: usize = 8 * (i + 1);
    if prefix as usize >= bits {
        255
    } else if prefix as usize <= 8 * i {
        0
    } else {
        let rem: u8 = prefix - (8 * i) as u8;
        if rem == 1 {
            128
        } else if rem == 2 {
            192
        } else if rem == 3 {
            224
        } else if rem == 4 {
            240
        } else if rem == 5 {
            248
        } else if rem == 6 {
            252
        } else {
            254
        }
    }
}

/// Write the first `len` mask bytes of a prefix.
pub fn mask_bytes_vec(prefix: u8, len: usize) -> (r: Vec<u8>)
    requires
        len <= 16,
    ensures
        r@ == mask_bytes(prefix as int, len as int),
{
    let mut out: Vec<u8> = Vec::new();
    let mut i: usize = 0;
    while i < len
        invariant
            i <= len,
            len <= 16,
            out@ == mask_bytes(prefix as int, i as int),
        decreases len - i,
    {
        out.push(mask_byte_at(prefix, i));
        i += 1;
        assert(out@ =~= mask_bytes(prefix as int, i as int));
    }
    out
}

} // verus!
