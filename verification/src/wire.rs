//! Plain-value models of the kernel's fixed-layout request structures.
//!
//! Every multi-byte field the kernel reads in network byte order is modeled
//! as its byte sequence, so the contracts below are byte-exact and
//! independent of the host's byte order. A caller that issues the control
//! calls transcribes these values field by field into the platform's raw
//! structures.

use vstd::prelude::*;

use crate::cstr::zero_bytes;
use crate::cstr::zeros;

verus! {

/// Capacity of an interface-name buffer (`IFNAMSIZ`).
pub const IFNAMSIZ: usize = 16;

/// Capacity of an anchor-name or anchor-call buffer (`MAXPATHLEN`).
pub const ANCHOR_NAME_SIZE: usize = 1024;

/// Capacity of a rule-label buffer (`PF_RULE_LABEL_SIZE`).
pub const RULE_LABEL_SIZE: usize = 64;

/// Size of a raw address: 16 bytes, IPv4 occupying the first four.
pub const ADDR_BYTES: usize = 16;

/// Address-wrap type tag for an address-and-mask pair (`PF_ADDR_ADDRMASK`).
pub const PF_ADDR_ADDRMASK: u8 = 0;

/// Rule-change action: no change (`PF_CHANGE_NONE`).
pub const PF_CHANGE_NONE: u32 = 0;

/// Rule-change action: append the rule (`PF_CHANGE_ADD_TAIL`).
pub const PF_CHANGE_ADD_TAIL: u32 = 2;

/// Rule-change action: only fetch a ticket (`PF_CHANGE_GET_TICKET`).
pub const PF_CHANGE_GET_TICKET: u32 = 6;

/// Rule-get action: plain read (`PF_GET_NONE`).
pub const PF_GET_NONE: u32 = 0;

/// Comparison operator: none (`PF_OP_NONE`).
pub const PF_OP_NONE: u8 = 0;

/// Comparison operator: inside an exclusive range (`PF_OP_IRG`).
pub const PF_OP_IRG: u8 = 1;

/// Comparison operator: equal (`PF_OP_EQ`).
pub const PF_OP_EQ: u8 = 2;

/// Comparison operator: not equal (`PF_OP_NE`).
pub const PF_OP_NE: u8 = 3;

/// Comparison operator: less than (`PF_OP_LT`).
pub const PF_OP_LT: u8 = 4;

/// Comparison operator: less than or equal (`PF_OP_LE`).
pub const PF_OP_LE: u8 = 5;

/// Comparison operator: greater than (`PF_OP_GT`).
pub const PF_OP_GT: u8 = 6;

/// Comparison operator: greater than or equal (`PF_OP_GE`).
pub const PF_OP_GE: u8 = 7;

/// Comparison operator: outside a range (`PF_OP_XRG`).
pub const PF_OP_XRG: u8 = 8;

/// Comparison operator: inside an inclusive range (`PF_OP_RRG`).
pub const PF_OP_RRG: u8 = 9;

/// The big-endian (network-order) byte pair of a 16-bit value.
pub open spec fn be16(x: u16) -> Seq<u8> {
    seq![(x / 256) as u8, (x % 256) as u8]
}

/// Write a 16-bit value as its network-order byte pair.
pub fn be16_bytes(x: u16) -> (r: Vec<u8>)
    ensures
        r@ == be16(x),
{
    let mut out: Vec<u8> = Vec::new();
    out.push((x / 256) as u8);
    out.push((x % 256) as u8);
    assert(out@ =~= be16(x));
    out
}

/// Model of `pf_addr_wrap`: a type tag selecting the interpretation, plus
/// address and mask bytes.
#[derive(Debug, Clone, PartialEq, Eq)]
pub struct AddrWrap {
    pub addr_type: u8,
    pub addr: Vec<u8>,
    pub mask: Vec<u8>,
}

/// Mathematical view of [`AddrWrap`].
#[verifier::ext_equal]
pub ghost struct AddrWrapV {
    pub addr_type: u8,
    pub addr: Seq<u8>,
    pub mask: Seq<u8>,
}

impl View for AddrWrap {
    type V = AddrWrapV;

    open spec fn view(&self) -> AddrWrapV {
        AddrWrapV { addr_type: self.addr_type, addr: self.addr@, mask: self.mask@ }
    }
}

impl AddrWrapV {
    /// The buffers have their fixed sizes.
    pub open spec fn wf(self) -> bool {
        self.addr.len() == ADDR_BYTES && self.mask.len() == ADDR_BYTES
    }

    /// The all-zero value.
    pub open spec fn zeroed() -> AddrWrapV {
        AddrWrapV { addr_type: 0, addr: zeros(ADDR_BYTES as nat), mask: zeros(ADDR_BYTES as nat) }
    }
}

impl AddrWrap {
    /// A fresh all-zero address wrap.
    pub fn zeroed() -> (r: Self)
        ensures
            r@ == AddrWrapV::zeroed(),
            r@.wf(),
    {
        let r = AddrWrap {
            addr_type: 0,
            addr: zero_bytes(ADDR_BYTES),
            mask: zero_bytes(ADDR_BYTES),
        };
        assert(r@ =~= AddrWrapV::zeroed());
        r
    }
}

/// Model of `pf_port_range`: a comparison operator and two ports stored as
/// network-order byte pairs.
#[derive(Debug, Clone, PartialEq, Eq)]
pub struct PortRange {
    pub op: u8,
    pub ports: Vec<u8>,
}

/// Mathematical view of [`PortRange`].
#[verifier::ext_equal]
pub ghost struct PortRangeV {
    pub op: u8,
    pub ports: Seq<u8>,
}

impl View for PortRange {
    type V = PortRangeV;

    open spec fn view(&self) -> PortRangeV {
        PortRangeV { op: self.op, ports: self.ports@ }
    }
}

impl PortRangeV {
    /// The port buffer holds two network-order byte pairs.
    pub open spec fn wf(self) -> bool {
        self.ports.len() == 4
    }

    /// The all-zero value.
    pub open spec fn zeroed() -> PortRangeV {
        PortRangeV { op: 0, ports: zeros(4) }
    }
}

impl PortRange {
    /// A fresh all-zero port range.
    pub fn zeroed() -> (r: Self)
        ensures
            r@ == PortRangeV::zeroed(),
            r@.wf(),
    {
        let r = PortRange { op: 0, ports: zero_bytes(4) };
        assert(r@ =~= PortRangeV::zeroed());
        r
    }
}

/// Model of `pf_rule_addr`: an address wrap plus a port range.
#[derive(Debug, Clone, PartialEq, Eq)]
pub struct RuleAddr {
    pub addr: AddrWrap,
    pub ports: PortRange,
}

/// Mathematical view of [`RuleAddr`].
#[verifier::ext_equal]
pub ghost struct RuleAddrV {
    pub addr: AddrWrapV,
    pub ports: PortRangeV,
}

impl View for RuleAddr {
    type V = RuleAddrV;

    open spec fn view(&self) -> RuleAddrV {
        RuleAddrV { addr: self.addr@, ports: self.ports@ }
    }
}

impl RuleAddrV {
    /// Both parts have their fixed sizes.
    pub open spec fn wf(self) -> bool {
        self.addr.wf() && self.ports.wf()
    }

    /// The all-zero value.
    pub open spec fn zeroed() -> RuleAddrV {
        RuleAddrV { addr: AddrWrapV::zeroed(), ports: PortRangeV::zeroed() }
    }
}

impl RuleAddr {
    /// A fresh all-zero rule address.
    pub fn zeroed() -> (r: Self)
        ensures
            r@ == RuleAddrV::zeroed(),
            r@.wf(),
    {
        let r = RuleAddr { addr: AddrWrap::zeroed(), ports: PortRange::zeroed() };
        assert(r@ =~= RuleAddrV::zeroed());
        r
    }
}

/// Model of `pf_rule_uid` / `pf_rule_gid`: two numeric ids and a comparison
/// operator, stored in host order.
#[derive(Debug, Clone, Copy, PartialEq, Eq, Structural)]
pub struct IdMatch {
    pub id_first: u32,
    pub id_second: u32,
    pub op: u8,
}

impl View for IdMatch {
    type V = IdMatch;

    open spec fn view(&self) -> IdMatch {
        *self
    }
}

impl IdMatch {
    /// The all-zero value.
    pub open spec fn spec_zeroed() -> IdMatch {
        IdMatch { id_first: 0, id_second: 0, op: 0 }
    }

    /// A fresh all-zero id match.
    pub fn zeroed() -> (r: Self)
        ensures
            r == IdMatch::spec_zeroed(),
    {
        IdMatch { id_first: 0, id_second: 0, op: 0 }
    }
}

/// Model of the fields of `pf_pool` this client writes: the translation port
/// operator and its two proxy ports, stored in host order.
#[derive(Debug, Clone, Copy, PartialEq, Eq, Structural)]
pub struct Pool {
    pub port_op: u8,
    pub proxy_port_first: u16,
    pub proxy_port_second: u16,
}

impl View for Pool {
    type V = Pool;

    open spec fn view(&self) -> Pool {
        *self
    }
}

impl Pool {
    /// The all-zero value.
    pub open spec fn spec_zeroed() -> Pool {
        Pool { port_op: 0, proxy_port_first: 0, proxy_port_second: 0 }
    }

    /// A fresh all-zero pool.
    pub fn zeroed() -> (r: Self)
        ensures
            r == Pool::spec_zeroed(),
    {
        Pool { port_op: 0, proxy_port_first: 0, proxy_port_second: 0 }
    }
}

/// Model of the fields of `pf_rule` this client writes.
#[derive(Debug, Clone, PartialEq, Eq)]
pub struct RawRule {
    pub action: u8,
    pub direction: u8,
    pub quick: u8,
    pub log: u8,
    pub rt: u8,
    pub keep_state: u8,
    pub flags: u8,
    pub flagset: u8,
    pub rule_flag: u32,
    pub ifname: Vec<u8>,
    pub proto: u8,
    pub af: u8,
    pub src: RuleAddr,
    pub dst: RuleAddr,
    pub label: Vec<u8>,
    pub uid: IdMatch,
    pub gid: IdMatch,
    pub icmp_type: u8,
    pub icmp_code: u8,
    pub rpool: Pool,
}

/// Mathematical view of [`RawRule`].
#[verifier::ext_equal]
pub ghost struct RawRuleV {
    pub action: u8,
    pub direction: u8,
    pub quick: u8,
    pub log: u8,
    pub rt: u8,
    pub keep_state: u8,
    pub flags: u8,
    pub flagset: u8,
    pub rule_flag: u32,
    pub ifname: Seq<u8>,
    pub proto: u8,
    pub af: u8,
    pub src: RuleAddrV,
    pub dst: RuleAddrV,
    pub label: Seq<u8>,
    pub uid: IdMatch,
    pub gid: IdMatch,
    pub icmp_type: u8,
    pub icmp_code: u8,
    pub rpool: Pool,
}

impl View for RawRule {
    type V = RawRuleV;

    open spec fn view(&self) -> RawRuleV {
        RawRuleV {
            action: self.action,
            direction: self.direction,
            quick: self.quick,
            log: self.log,
            rt: self.rt,
            keep_state: self.keep_state,
            flags: self.flags,
            flagset: self.flagset,
            rule_flag: self.rule_flag,
            ifname: self.ifname@,
            proto: self.proto,
            af: self.af,
            src: self.src@,
            dst: self.dst@,
            label: self.label@,
            uid: self.uid,
            gid: self.gid,
            icmp_type: self.icmp_type,
            icmp_code: self.icmp_code,
            rpool: self.rpool,
        }
    }
}

impl RawRuleV {
    /// All buffers have their fixed sizes.
    pub open spec fn wf(self) -> bool {
        &&& self.ifname.len() == IFNAMSIZ
        &&& self.label.len() == RULE_LABEL_SIZE
        &&& self.src.wf()
        &&& self.dst.wf()
    }

    /// The all-zero value.
    pub open spec fn zeroed() -> RawRuleV {
        RawRuleV {
            action: 0,
            direction: 0,
            quick: 0,
            log: 0,
            rt: 0,
            keep_state: 0,
            flags: 0,
            flagset: 0,
            rule_flag: 0,
            ifname: zeros(IFNAMSIZ as nat),
            proto: 0,
            af: 0,
            src: RuleAddrV::zeroed(),
            dst: RuleAddrV::zeroed(),
            label: zeros(RULE_LABEL_SIZE as nat),
            uid: IdMatch::spec_zeroed(),
            gid: IdMatch::spec_zeroed(),
            icmp_type: 0,
            icmp_code: 0,
            rpool: Pool::spec_zeroed(),
        }
    }
}

impl RawRule {
    /// A fresh all-zero rule structure, as each call site starts from.
    pub fn zeroed() -> (r: Self)
        ensures
            r@ == RawRuleV::zeroed(),
            r@.wf(),
    {
        let r = RawRule {
            action: 0,
            direction: 0,
            quick: 0,
            log: 0,
            rt: 0,
            keep_state: 0,
            flags: 0,
            flagset: 0,
            rule_flag: 0,
            ifname: zero_bytes(IFNAMSIZ),
            proto: 0,
            af: 0,
            src: RuleAddr::zeroed(),
            dst: RuleAddr::zeroed(),
            label: zero_bytes(RULE_LABEL_SIZE),
            uid: IdMatch::zeroed(),
            gid: IdMatch::zeroed(),
            icmp_type: 0,
            icmp_code: 0,
            rpool: Pool::zeroed(),
        };
        assert(r@ =~= RawRuleV::zeroed());
        r
    }
}

/// Model of `pfioc_rule`: one rule-change or rule-get request.
#[derive(Debug, Clone, PartialEq, Eq)]
pub struct RuleRequest {
    pub action: u32,
    pub ticket: u32,
    pub pool_ticket: u32,
    pub nr: u32,
    pub anchor: Vec<u8>,
    pub anchor_call: Vec<u8>,
    pub rule: RawRule,
}

/// Mathematical view of [`RuleRequest`].
#[verifier::ext_equal]
pub ghost struct RuleRequestV {
    pub action: u32,
    pub ticket: u32,
    pub pool_ticket: u32,
    pub nr: u32,
    pub anchor: Seq<u8>,
    pub anchor_call: Seq<u8>,
    pub rule: RawRuleV,
}

impl View for RuleRequest {
    type V = RuleRequestV;

    open spec fn view(&self) -> RuleRequestV {
        RuleRequestV {
            action: self.action,
            ticket: self.ticket,
            pool_ticket: self.pool_ticket,
            nr: self.nr,
            anchor: self.anchor@,
            anchor_call: self.anchor_call@,
            rule: self.rule@,
        }
    }
}

impl RuleRequestV {
    /// All buffers have their fixed sizes.
    pub open spec fn wf(self) -> bool {
        &&& self.anchor.len() == ANCHOR_NAME_SIZE
        &&& self.anchor_call.len() == ANCHOR_NAME_SIZE
        &&& self.rule.wf()
    }

    /// The all-zero value.
    pub open spec fn zeroed() -> RuleRequestV {
        RuleRequestV {
            action: 0,
            ticket: 0,
            pool_ticket: 0,
            nr: 0,
            anchor: zeros(ANCHOR_NAME_SIZE as nat),
            anchor_call: zeros(ANCHOR_NAME_SIZE as nat),
            rule: RawRuleV::zeroed(),
        }
    }
}

impl RuleRequest {
    /// A fresh all-zero rule request, as each call site starts from.
    pub fn zeroed() -> (r: Self)
        ensures
            r@ == RuleRequestV::zeroed(),
            r@.wf(),
    {
        let r = RuleRequest {
            action: 0,
            ticket: 0,
            pool_ticket: 0,
            nr: 0,
            anchor: zero_bytes(ANCHOR_NAME_SIZE),
            anchor_call: zero_bytes(ANCHOR_NAME_SIZE),
            rule: RawRule::zeroed(),
        };
        assert(r@ =~= RuleRequestV::zeroed());
        r
    }
}

/// Model of one `pfioc_trans` element: the rule-set kind, the ticket the
/// kernel fills in, and the anchor the element addresses.
#[derive(Debug, Clone, PartialEq, Eq)]
pub struct TransElement {
    pub rs_num: i32,
    pub ticket: u32,
    pub anchor: Vec<u8>,
}

/// Mathematical view of [`TransElement`].
#[verifier::ext_equal]
pub ghost struct TransElementV {
    pub rs_num: i32,
    pub ticket: u32,
    pub anchor: Seq<u8>,
}

impl View for TransElement {
    type V = TransElementV;

    open spec fn view(&self) -> TransElementV {
        TransElementV { rs_num: self.rs_num, ticket: self.ticket, anchor: self.anchor@ }
    }
}

impl TransElementV {
    /// The anchor buffer has its fixed size.
    pub open spec fn wf(self) -> bool {
        self.anchor.len() == ANCHOR_NAME_SIZE
    }
}

/// Model of `pf_pooladdr`: one pool-address entry, an interface name plus
/// the wrapped address.
#[derive(Debug, Clone, PartialEq, Eq)]
pub struct RawPoolAddr {
    pub ifname: Vec<u8>,
    pub addr: AddrWrap,
}

/// Mathematical view of [`RawPoolAddr`].
#[verifier::ext_equal]
pub ghost struct RawPoolAddrV {
    pub ifname: Seq<u8>,
    pub addr: AddrWrapV,
}

impl View for RawPoolAddr {
    type V = RawPoolAddrV;

    open spec fn view(&self) -> RawPoolAddrV {
        RawPoolAddrV { ifname: self.ifname@, addr: self.addr@ }
    }
}

impl RawPoolAddrV {
    /// All buffers have their fixed sizes.
    pub open spec fn wf(self) -> bool {
        self.ifname.len() == IFNAMSIZ && self.addr.wf()
    }

    /// The all-zero value.
    pub open spec fn zeroed() -> RawPoolAddrV {
        RawPoolAddrV { ifname: zeros(IFNAMSIZ as nat), addr: AddrWrapV::zeroed() }
    }
}

impl RawPoolAddr {
    /// A fresh all-zero pool-address entry.
    pub fn zeroed() -> (r: Self)
        ensures
            r@ == RawPoolAddrV::zeroed(),
            r@.wf(),
    {
        let r = RawPoolAddr { ifname: zero_bytes(IFNAMSIZ), addr: AddrWrap::zeroed() };
        assert(r@ =~= RawPoolAddrV::zeroed());
        r
    }
}

/// Model of `pfsync_state_host`: the address bytes and the network-order
/// port byte pair of one side of a tracked connection.
#[derive(Debug, Clone, PartialEq, Eq)]
pub struct StateHost {
    pub addr: Vec<u8>,
    pub port: Vec<u8>,
}

/// Mathematical view of [`StateHost`].
#[verifier::ext_equal]
pub ghost struct StateHostV {
    pub addr: Seq<u8>,
    pub port: Seq<u8>,
}

impl View for StateHost {
    type V = StateHostV;

    open spec fn view(&self) -> StateHostV {
        StateHostV { addr: self.addr@, port: self.port@ }
    }
}

impl StateHostV {
    /// The buffers have their fixed sizes.
    pub open spec fn wf(self) -> bool {
        self.addr.len() == ADDR_BYTES && self.port.len() == 2
    }
}

/// Model of the fields of `pfsync_state` this client reads: one tracked
/// connection as the kernel reports it.
#[derive(Debug, Clone, PartialEq, Eq)]
pub struct RawState {
    pub ifname: Vec<u8>,
    pub lan: StateHost,
    pub ext_lan: StateHost,
    pub anchor: u32,
    pub af_lan: u8,
    pub proto: u8,
    pub direction: u8,
    pub proto_variant: u8,
}

/// Mathematical view of [`RawState`].
#[verifier::ext_equal]
pub ghost struct RawStateV {
    pub ifname: Seq<u8>,
    pub lan: StateHostV,
    pub ext_lan: StateHostV,
    pub anchor: u32,
    pub af_lan: u8,
    pub proto: u8,
    pub direction: u8,
    pub proto_variant: u8,
}

impl View for RawState {
    type V = RawStateV;

    open spec fn view(&self) -> RawStateV {
        RawStateV {
            ifname: self.ifname@,
            lan: self.lan@,
            ext_lan: self.ext_lan@,
            anchor: self.anchor,
            af_lan: self.af_lan,
            proto: self.proto,
            direction: self.direction,
            proto_variant: self.proto_variant,
        }
    }
}

impl RawStateV {
    /// All buffers have their fixed sizes.
    pub open spec fn wf(self) -> bool {
        self.ifname.len() == IFNAMSIZ && self.lan.wf() && self.ext_lan.wf()
    }
}

/// Model of the fields of `pfioc_state_kill` this client writes: which
/// states a kill call addresses.
#[derive(Debug, Clone, PartialEq, Eq)]
pub struct StateKillRequest {
    pub af: u8,
    pub proto: u8,
    pub proto_variant: u8,
    pub ifname: Vec<u8>,
    pub src_addr: Vec<u8>,
    pub dst_addr: Vec<u8>,
}

/// Mathematical view of [`StateKillRequest`].
#[verifier::ext_equal]
pub ghost struct StateKillRequestV {
    pub af: u8,
    pub proto: u8,
    pub proto_variant: u8,
    pub ifname: Seq<u8>,
    pub src_addr: Seq<u8>,
    pub dst_addr: Seq<u8>,
}

impl View for StateKillRequest {
    type V = StateKillRequestV;

    open spec fn view(&self) -> StateKillRequestV {
        StateKillRequestV {
            af: self.af,
            proto: self.proto,
            proto_variant: self.proto_variant,
            ifname: self.ifname@,
            src_addr: self.src_addr@,
            dst_addr: self.dst_addr@,
        }
    }
}

impl StateKillRequestV {
    /// All buffers have their fixed sizes.
    pub open spec fn wf(self) -> bool {
        &&& self.ifname.len() == IFNAMSIZ
        &&& self.src_addr.len() == ADDR_BYTES
        &&& self.dst_addr.len() == ADDR_BYTES
    }

    /// The all-zero value.
    pub open spec fn zeroed() -> StateKillRequestV {
        StateKillRequestV {
            af: 0,
            proto: 0,
            proto_variant: 0,
            ifname: zeros(IFNAMSIZ as nat),
            src_addr: zeros(ADDR_BYTES as nat),
            dst_addr: zeros(ADDR_BYTES as nat),
        }
    }
}

impl StateKillRequest {
    /// A fresh all-zero state-kill request.
    pub fn zeroed() -> (r: Self)
        ensures
            r@ == StateKillRequestV::zeroed(),
            r@.wf(),
    {
        let r = StateKillRequest {
            af: 0,
            proto: 0,
            proto_variant: 0,
            ifname: zero_bytes(IFNAMSIZ),
            src_addr: zero_bytes(ADDR_BYTES),
            dst_addr: zero_bytes(ADDR_BYTES),
        };
        assert(r@ =~= StateKillRequestV::zeroed());
        r
    }
}

} // verus!
