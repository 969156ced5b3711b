use vstd::prelude::*;

use crate::conversion::CopyTo;
use crate::wire;

verus! {

/// ICMP type (and code). Used to match a rule against an ICMP packet's
/// `type` and `code` fields.
#[derive(Clone, Copy, Debug, PartialEq, Eq, Hash, Structural)]
#[non_exhaustive]
pub enum IcmpType {
    /// Echo reply.
    EchoRep,
    /// Destination unreachable.
    Unreach(IcmpUnreachCode),
    /// Echo request.
    EchoReq,
    /// Time exceeded.
    Timex(IcmpTimexCode),
    /// Traceroute.
    Trace,
    /// ICMPv6.
    Icmp6(Icmp6Type),
}

/// ICMP code fields for destination-unreachable packets
/// ([`IcmpType::Unreach`]).
#[derive(Clone, Copy, Debug, PartialEq, Eq, Hash, Structural)]
#[non_exhaustive]
pub enum IcmpUnreachCode {
    /// Network unreachable.
    NetUnreach,
    /// Host unreachable.
    HostUnreach,
    /// Protocol unreachable.
    ProtoUnreach,
    /// Port unreachable.
    PortUnreach,
    /// Fragmentation needed but DF bit set.
    NeedFrag,
}

impl IcmpUnreachCode {
    /// The raw code value.
    pub open spec fn raw(self) -> u8 {
        match self {
            IcmpUnreachCode::NetUnreach => 0,
            IcmpUnreachCode::HostUnreach => 1,
            IcmpUnreachCode::ProtoUnreach => 2,
            IcmpUnreachCode::PortUnreach => 3,
            IcmpUnreachCode::NeedFrag => 4,
        }
    }

    /// Encode into the raw code value.
    pub fn to_raw(self) -> (r: u8)
        ensures
            r == self.raw(),
    {
        match self {
            IcmpUnreachCode::NetUnreach => 0,
            IcmpUnreachCode::HostUnreach => 1,
            IcmpUnreachCode::ProtoUnreach => 2,
            IcmpUnreachCode::PortUnreach => 3,
            IcmpUnreachCode::NeedFrag => 4,
        }
    }
}

/// ICMP code fields for time-exceeded packets ([`IcmpType::Timex`]).
#[derive(Clone, Copy, Debug, PartialEq, Eq, Hash, Structural)]
#[non_exhaustive]
pub enum IcmpTimexCode {
    /// Time exceeded in transit.
    Transit,
    /// Time exceeded in reassembly.
    Reassembly,
}

impl IcmpTimexCode {
    /// The raw code value.
    pub open spec fn raw(self) -> u8 {
        match self {
            IcmpTimexCode::Transit => 0,
            IcmpTimexCode::Reassembly => 1,
        }
    }

    /// Encode into the raw code value.
    pub fn to_raw(self) -> (r: u8)
        ensures
            r == self.raw(),
    {
        match self {
            IcmpTimexCode::Transit => 0,
            IcmpTimexCode::Reassembly => 1,
        }
    }
}

/// Values for the `type` field in ICMPv6 packets.
#[derive(Clone, Copy, Debug, PartialEq, Eq, Hash, Structural)]
#[non_exhaustive]
pub enum Icmp6Type {
    /// Router solicitation.
    RouterSol,
    /// Router advertisement.
    RouterAdv,
    /// Neighbor solicitation.
    NeighbrSol,
    /// Neighbor advertisement.
    NeighbrAdv,
    /// Shorter route exists.
    Redir,
}

impl Icmp6Type {
    /// The raw type value.
    pub open spec fn raw(self) -> u8 {
        match self {
            Icmp6Type::RouterSol => 133,
            Icmp6Type::RouterAdv => 134,
            Icmp6Type::NeighbrSol => 135,
            Icmp6Type::NeighbrAdv => 136,
            Icmp6Type::Redir => 137,
        }
    }

    /// Encode into the raw type value.
    pub fn to_raw(self) -> (r: u8)
        ensures
            r == self.raw(),
    {
        match self {
            Icmp6Type::RouterSol => 133,
            Icmp6Type::RouterAdv => 134,
            Icmp6Type::NeighbrSol => 135,
            Icmp6Type::NeighbrAdv => 136,
            Icmp6Type::Redir => 137,
        }
    }
}

impl IcmpType {
    /// The raw representation of this ICMP type.
    pub open spec fn spec_raw_type(self) -> u8 {
        match self {
            IcmpType::EchoRep => 0,
            IcmpType::Unreach(_) => 3,
            IcmpType::EchoReq => 8,
            IcmpType::Timex(_) => 11,
            IcmpType::Trace => 30,
            IcmpType::Icmp6(icmp6_type) => icmp6_type.raw(),
        }
    }

    /// Return the raw representation of this ICMP type.
    pub fn raw_type(&self) -> (r: u8)
        ensures
            r == self.spec_raw_type(),
    {
        match self {
            IcmpType::EchoRep => 0,
            IcmpType::Unreach(_) => 3,
            IcmpType::EchoReq => 8,
            IcmpType::Timex(_) => 11,
            IcmpType::Trace => 30,
            IcmpType::Icmp6(icmp6_type) => icmp6_type.to_raw(),
        }
    }

    /// The raw representation of the code for this ICMP type; `None` when
    /// the type does not use the code field.
    pub open spec fn spec_raw_code(self) -> Option<u8> {
        match self {
            IcmpType::Unreach(unreach_code) => Some(unreach_code.raw()),
            IcmpType::Timex(timex_code) => Some(timex_code.raw()),
            _ => None,
        }
    }

    /// Return the raw representation of the code for this ICMP type, or
    /// `None` when the type does not use the code field.
    pub fn raw_code(&self) -> (r: Option<u8>)
        ensures
            r == self.spec_raw_code(),
    {
        match self {
            IcmpType::Unreach(unreach_code) => Some(unreach_code.to_raw()),
            IcmpType::Timex(timex_code) => Some(timex_code.to_raw()),
            _ => None,
        }
    }

    /// The `type` byte stored in the rule: one above the raw type, by the
    /// kernel's convention.
    pub open spec fn encoded_type(self) -> u8 {
        (self.spec_raw_type() + 1) as u8
    }

    /// The `code` byte stored in the rule: one above the raw code, or zero
    /// when the type carries no code.
    pub open spec fn encoded_code(self) -> u8 {
        match self.spec_raw_code() {
            Some(code) => (code + 1) as u8,
            None => 0,
        }
    }
}

impl CopyTo<wire::RawRule> for IcmpType {
    /// Only the rule's ICMP `type` and `code` bytes change.
    open spec fn copied(&self, old_dst: wire::RawRuleV) -> wire::RawRuleV {
        wire::RawRuleV {
            icmp_type: self.encoded_type(),
            icmp_code: self.encoded_code(),
            ..old_dst
        }
    }

    fn copy_to(&self, dst: &mut wire::RawRule) {
        let raw_type = self.raw_type();
        assert(raw_type <= 137);
        dst.icmp_type = raw_type + 1;
        dst.icmp_code = match self.raw_code() {
            Some(raw_code) => {
                assert(raw_code <= 4);
                raw_code + 1
            },
            None => 0,
        };
        assert(dst@ =~= self.copied(old(dst)@));
    }
}

} // verus!
