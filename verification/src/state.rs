//! Decoding the kernel's per-connection state records.

use vstd::prelude::*;
use vstd::slice::slice_to_vec;

use crate::errors::PfError;
use crate::net::IpAddress;
use crate::net::Ipv4Address;
use crate::net::Ipv6Address;
use crate::net::SocketAddress;
use crate::rule::addr_family::AF_INET;
use crate::rule::addr_family::AF_INET6;
use crate::rule::direction::Direction;
use crate::rule::proto::Proto;
use crate::wire;

verus! {

/// The 16-bit value stored in a network-order byte pair.
pub open spec fn u16_of_be(hi: u8, lo: u8) -> u16 {
    (hi * 256 + lo) as u16
}

/// What decoding an address and port out of one side of a raw state record
/// yields: the stored address family byte selects the interpretation of the
/// address bytes, and a family outside the known set is rejected.
pub open spec fn spec_parse_address(family: u8, host: wire::StateHostV) -> Result<
    SocketAddress,
    PfError,
> {
    if family == AF_INET {
        Ok(
            SocketAddress {
                ip: IpAddress::V4(
                    Ipv4Address {
                        octet0: host.addr[0],
                        octet1: host.addr[1],
                        octet2: host.addr[2],
                        octet3: host.addr[3],
                    },
                ),
                port: u16_of_be(host.port[0], host.port[1]),
            },
        )
    } else if family == AF_INET6 {
        Ok(
            SocketAddress {
                ip: IpAddress::V6(
                    Ipv6Address {
                        seg0: u16_of_be(host.addr[0], host.addr[1]),
                        seg1: u16_of_be(host.addr[2], host.addr[3]),
                        seg2: u16_of_be(host.addr[4], host.addr[5]),
                        seg3: u16_of_be(host.addr[6], host.addr[7]),
                        seg4: u16_of_be(host.addr[8], host.addr[9]),
                        seg5: u16_of_be(host.addr[10], host.addr[11]),
                        seg6: u16_of_be(host.addr[12], host.addr[13]),
                        seg7: u16_of_be(host.addr[14], host.addr[15]),
                    },
                ),
                port: u16_of_be(host.port[0], host.port[1]),
            },
        )
    } else {
        Err(PfError::InvalidAddressFamily(family))
    }
}

/// Read the 16-bit value of a network-order byte pair.
pub fn read_u16_be(hi: u8, lo: u8) -> (r: u16)
    ensures
        r == u16_of_be(hi, lo),
{
    (hi as u16) * 256 + (lo as u16)
}

/// Decode an address and port out of one side of a raw state record,
/// converting the embedded multi-byte fields from network byte order.
pub fn parse_address(family: u8, host: &wire::StateHost) -> (r: Result<SocketAddress, PfError>)
    requires
        host@.wf(),
    ensures
        r == spec_parse_address(family, host@),
{
    if family == AF_INET {
        Ok(
            SocketAddress {
                ip: IpAddress::V4(
                    Ipv4Address {
                        octet0: host.addr[0],
                        octet1: host.addr[1],
                        octet2: host.addr[2],
                        octet3: host.addr[3],
                    },
                ),
                port: read_u16_be(host.port[0], host.port[1]),
            },
        )
    } else if family == AF_INET6 {
        Ok(
            SocketAddress {
                ip: IpAddress::V6(
                    Ipv6Address {
                        seg0: read_u16_be(host.addr[0], host.addr[1]),
                        seg1: read_u16_be(host.addr[2], host.addr[3]),
                        seg2: read_u16_be(host.addr[4], host.addr[5]),
                        seg3: read_u16_be(host.addr[6], host.addr[7]),
                        seg4: read_u16_be(host.addr[8], host.addr[9]),
                        seg5: read_u16_be(host.addr[10], host.addr[11]),
                        seg6: read_u16_be(host.addr[12], host.addr[13]),
                        seg7: read_u16_be(host.addr[14], host.addr[15]),
                    },
                ),
                port: read_u16_be(host.port[0], host.port[1]),
            },
        )
    } else {
        Err(PfError::InvalidAddressFamily(family))
    }
}

/// One tracked connection, wrapping the raw record the kernel reported and
/// decoding its fields on demand.
#[derive(Clone, Debug, PartialEq, Eq)]
pub struct State {
    pub sync_state: wire::RawState,
}

impl State {
    /// The record's buffers have their fixed sizes.
    pub open spec fn wf(self) -> bool {
        self.sync_state@.wf()
    }

    /// Wrap a raw state record.
    pub fn new(sync_state: wire::RawState) -> (r: State)
        ensures
            r == (State { sync_state }),
    {
        State { sync_state }
    }

    /// Decode the direction of this state; a direction byte outside the
    /// known set is rejected.
    pub fn direction(&self) -> (r: Result<Direction, PfError>)
        ensures
            r == Direction::spec_from_raw(self.sync_state.direction),
    {
        Direction::try_from_raw(self.sync_state.direction)
    }

    /// Decode the transport protocol of this state; a protocol byte outside
    /// the known set is rejected.
    pub fn proto(&self) -> (r: Result<Proto, PfError>)
        ensures
            r == Proto::spec_from_raw(self.sync_state.proto),
    {
        Proto::try_from_raw(self.sync_state.proto)
    }

    /// Decode the local socket address of this state.
    pub fn local_address(&self) -> (r: Result<SocketAddress, PfError>)
        requires
            self.wf(),
        ensures
            r == spec_parse_address(self.sync_state.af_lan, self.sync_state.lan@),
    {
        parse_address(self.sync_state.af_lan, &self.sync_state.lan)
    }

    /// Decode the remote socket address of this state.
    pub fn remote_address(&self) -> (r: Result<SocketAddress, PfError>)
        requires
            self.wf(),
        ensures
            r == spec_parse_address(self.sync_state.af_lan, self.sync_state.ext_lan@),
    {
        parse_address(self.sync_state.af_lan, &self.sync_state.ext_lan)
    }

    /// The raw record this state wraps.
    pub fn as_raw(&self) -> (r: &wire::RawState)
        ensures
            *r == self.sync_state,
    {
        &self.sync_state
    }

    /// Whether this state was created under the anchor rule with the given
    /// rule number, as the state-clearing scan tests it.
    pub fn belongs_to_anchor(&self, anchor_rule_number: u32) -> (r: bool)
        ensures
            r == (self.sync_state.anchor == anchor_rule_number),
    {
        self.sync_state.anchor == anchor_rule_number
    }
}

/// Fill a state-kill request from one state record: the kill call addresses
/// exactly the record's family, protocol, interface and address pair.
pub fn setup_pfioc_state_kill(
    pfsync_state: &State,
    pfioc_state_kill: &mut wire::StateKillRequest,
)
    ensures
        final(pfioc_state_kill)@ == (wire::StateKillRequestV {
            af: pfsync_state.sync_state.af_lan,
            proto: pfsync_state.sync_state.proto,
            proto_variant: pfsync_state.sync_state.proto_variant,
            ifname: pfsync_state.sync_state.ifname@,
            src_addr: pfsync_state.sync_state.lan@.addr,
            dst_addr: pfsync_state.sync_state.ext_lan@.addr,
        }),
{
    pfioc_state_kill.af = pfsync_state.sync_state.af_lan;
    pfioc_state_kill.proto = pfsync_state.sync_state.proto;
    pfioc_state_kill.proto_variant = pfsync_state.sync_state.proto_variant;
    pfioc_state_kill.ifname = slice_to_vec(pfsync_state.sync_state.ifname.as_slice());
    pfioc_state_kill.src_addr = slice_to_vec(pfsync_state.sync_state.lan.addr.as_slice());
    pfioc_state_kill.dst_addr = slice_to_vec(pfsync_state.sync_state.ext_lan.addr.as_slice());
    assert(pfioc_state_kill@ =~= (wire::StateKillRequestV {
        af: pfsync_state.sync_state.af_lan,
        proto: pfsync_state.sync_state.proto,
        proto_variant: pfsync_state.sync_state.proto_variant,
        ifname: pfsync_state.sync_state.ifname@,
        src_addr: pfsync_state.sync_state.lan@.addr,
        dst_addr: pfsync_state.sync_state.ext_lan@.addr,
    }));
}

} // verus!
