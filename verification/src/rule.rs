pub mod addr_family;
pub mod direction;
pub mod endpoint;
pub mod gid;
pub mod icmp;
pub mod interface;
pub mod ip;
pub mod port;
pub mod proto;
pub mod route;
pub mod rule_action;
pub mod rule_log;
pub mod state_policy;
pub mod tcp_flags;
pub mod uid;

use vstd::prelude::*;
use vstd::string::StrSliceExecFns;

use crate::conversion::CopyTo;
use crate::conversion::TryCopyTo;
use crate::cstr::cstr_fits;
use crate::cstr::cstr_written;
use crate::cstr::write_cstr;
use crate::errors::BufferError;
use crate::errors::PfError;
use crate::errors::RuleConflict;
use crate::rule::addr_family::AddrFamily;
use crate::rule::direction::Direction;
use crate::rule::endpoint::Endpoint;
use crate::rule::icmp::IcmpType;
use crate::rule::interface::Interface;
use crate::rule::ip::Ip;
use crate::rule::port::Port;
use crate::rule::port::PortRangeModifier;
use crate::rule::proto::Proto;
use crate::rule::route::Route;
use crate::rule::rule_action::FilterRuleAction;
use crate::rule::rule_action::NatRuleAction;
use crate::rule::rule_action::RedirectRuleAction;
use crate::rule::rule_action::ScrubRuleAction;
use crate::rule::rule_log::RuleLogSet;
use crate::rule::state_policy::StatePolicy;
use crate::rule::tcp_flags::TcpFlagSet;
use crate::rule::tcp_flags::TcpFlags;
use crate::rule::gid::Gid;
use crate::rule::uid::Uid;
use crate::wire;

verus! {

/// What unifying two address families yields: they must be equal, or one of
/// them unconstrained; two distinct concrete families conflict, and the
/// error names them both.
pub open spec fn spec_compatible_af(af1: AddrFamily, af2: AddrFamily) -> Result<
    AddrFamily,
    PfError,
> {
    if af1 == af2 {
        Ok(af1)
    } else if af2 == AddrFamily::Any {
        Ok(af1)
    } else if af1 == AddrFamily::Any {
        Ok(af2)
    } else {
        Err(PfError::InvalidRuleCombination(RuleConflict::AddrFamilyMismatch(af1, af2)))
    }
}

/// Unify two address families.
pub fn compatible_af(af1: AddrFamily, af2: AddrFamily) -> (r: Result<AddrFamily, PfError>)
    ensures
        r == spec_compatible_af(af1, af2),
{
    if af1 == af2 {
        Ok(af1)
    } else if af2 == AddrFamily::Any {
        Ok(af1)
    } else if af1 == AddrFamily::Any {
        Ok(af2)
    } else {
        Err(PfError::InvalidRuleCombination(RuleConflict::AddrFamilyMismatch(af1, af2)))
    }
}

/// What writing a rule label into its fixed buffer yields, or
/// `InvalidLabel` when it cannot be stored.
pub open spec fn label_encoding(label: Seq<u8>, old_buf: Seq<u8>) -> Result<Seq<u8>, PfError> {
    if cstr_fits(label, old_buf.len()) {
        Ok(cstr_written(old_buf, label))
    } else {
        Err(
            PfError::InvalidLabel(
                if label.len() >= old_buf.len() {
                    BufferError::DoesNotFit
                } else {
                    BufferError::EmbeddedNul
                },
            ),
        )
    }
}

/// The UTF-8 bytes of a string value.
pub open spec fn string_bytes(s: String) -> Seq<u8> {
    vstd::utf8::encode_utf8(s@)
}

/// Lower end of the default NAT translation port range.
pub const NAT_LOWER_DEFAULT: u16 = 32768;

/// Upper end of the default NAT translation port range.
pub const NAT_UPPER_DEFAULT: u16 = 49151;

/// The translation target of a NAT rule: an endpoint whose default port
/// range is the kernel's customary ephemeral range.
#[derive(Clone, Copy, Debug, PartialEq, Eq, Hash, Structural)]
pub struct NatEndpoint(pub Endpoint);

impl NatEndpoint {
    /// The wrapped endpoint.
    pub fn endpoint(&self) -> (r: Endpoint)
        ensures
            r == self.0,
    {
        self.0
    }

    /// Translate to `ip` on the default NAT port range.
    pub fn from_ip(ip: Ip) -> (r: Self)
        ensures
            r == NatEndpoint(
                Endpoint {
                    ip,
                    port: Port::Range(
                        NAT_LOWER_DEFAULT,
                        NAT_UPPER_DEFAULT,
                        PortRangeModifier::Inclusive,
                    ),
                },
            ),
    {
        NatEndpoint(
            Endpoint {
                ip,
                port: Port::Range(
                    NAT_LOWER_DEFAULT,
                    NAT_UPPER_DEFAULT,
                    PortRangeModifier::Inclusive,
                ),
            },
        )
    }

    /// Translate to exactly the given endpoint.
    pub fn from_endpoint(endpoint: Endpoint) -> (r: Self)
        ensures
            r == NatEndpoint(endpoint),
    {
        NatEndpoint(endpoint)
    }
}

impl Default for NatEndpoint {
    /// By default translation goes to any address on the default NAT port
    /// range.
    fn default() -> (r: Self)
        ensures
            r == NatEndpoint(
                Endpoint {
                    ip: Ip::Any,
                    port: Port::Range(
                        NAT_LOWER_DEFAULT,
                        NAT_UPPER_DEFAULT,
                        PortRangeModifier::Inclusive,
                    ),
                },
            ),
    {
        NatEndpoint::from_ip(Ip::Any)
    }
}

/// A validated packet-filtering rule.
#[derive(Clone, Debug, PartialEq, Eq, Hash)]
pub struct FilterRule {
    pub action: FilterRuleAction,
    pub direction: Direction,
    pub quick: bool,
    pub log: RuleLogSet,
    pub route: Route,
    pub keep_state: StatePolicy,
    pub interface: Interface,
    pub proto: Proto,
    pub af: AddrFamily,
    pub from: Endpoint,
    pub to: Endpoint,
    pub tcp_flags: TcpFlags,
    pub label: String,
    pub user: Uid,
    pub group: Gid,
    pub icmp_type: Option<IcmpType>,
}

impl FilterRule {
    /// The address family the rule matches against: the unification of the
    /// explicit family with both endpoints' families — or the conflict,
    /// naming the two families that disagree.
    pub open spec fn spec_get_af(self) -> Result<AddrFamily, PfError> {
        match spec_compatible_af(self.from.af(), self.to.af()) {
            Ok(endpoint_af) => spec_compatible_af(self.af, endpoint_af),
            Err(e) => Err(e),
        }
    }

    /// Resolve the address family the rule matches against, rejecting an
    /// invalid combination of families.
    pub fn get_af(&self) -> (r: Result<AddrFamily, PfError>)
        ensures
            r == self.spec_get_af(),
    {
        let endpoint_af = compatible_af(self.from.get_af(), self.to.get_af())?;
        compatible_af(self.af, endpoint_af)
    }

    /// The rule's routing target.
    pub fn get_route(&self) -> (r: &Route)
        ensures
            *r == self.route,
    {
        &self.route
    }

    /// The state policy, provided it is legal with the rule's protocol:
    /// `Modulate` and `SynProxy` require TCP, the rest allow any protocol.
    pub open spec fn spec_validate_state_policy(self) -> Result<StatePolicy, PfError> {
        if self.keep_state == StatePolicy::NoState || self.keep_state == StatePolicy::Keep
            || self.proto == Proto::Tcp {
            Ok(self.keep_state)
        } else {
            Err(
                PfError::InvalidRuleCombination(
                    RuleConflict::StatePolicyProto(self.keep_state, self.proto),
                ),
            )
        }
    }

    /// Validate the combination of state policy and protocol.
    pub fn validate_state_policy(&self) -> (r: Result<StatePolicy, PfError>)
        ensures
            r == self.spec_validate_state_policy(),
    {
        match (self.keep_state, self.proto) {
            (StatePolicy::NoState, _) => Ok(self.keep_state),
            (StatePolicy::Keep, _) => Ok(self.keep_state),
            (StatePolicy::Modulate, Proto::Tcp) => Ok(self.keep_state),
            (StatePolicy::SynProxy, Proto::Tcp) => Ok(self.keep_state),
            (state_policy, proto) => Err(
                PfError::InvalidRuleCombination(
                    RuleConflict::StatePolicyProto(state_policy, proto),
                ),
            ),
        }
    }

    /// What encoding the rule over a raw rule structure yields: every field
    /// the rule determines, with validation failing in the order the fields
    /// are written.
    pub open spec fn encoded(self, old_rule: wire::RawRuleV) -> Result<wire::RawRuleV, PfError> {
        match self.spec_validate_state_policy() {
            Err(e) => Err(e),
            Ok(policy) => match self.interface.ifname_encoding(old_rule.ifname) {
                Err(e) => Err(e),
                Ok(ifname) => match self.spec_get_af() {
                    Err(e) => Err(e),
                    Ok(af) => match self.from.encoded() {
                        Err(e) => Err(e),
                        Ok(src) => match self.to.encoded() {
                            Err(e) => Err(e),
                            Ok(dst) => match label_encoding(
                                string_bytes(self.label),
                                old_rule.label,
                            ) {
                                Err(e) => Err(e),
                                Ok(label) => Ok(
                                    wire::RawRuleV {
                                        action: self.action.raw(),
                                        direction: self.direction.raw(),
                                        quick: if self.quick {
                                            1
                                        } else {
                                            0
                                        },
                                        log: RuleLogSet::bits(self.log.0@),
                                        rt: self.route.raw(),
                                        keep_state: policy.raw(),
                                        flags: TcpFlagSet::bits(self.tcp_flags.check.0@),
                                        flagset: TcpFlagSet::bits(self.tcp_flags.mask.0@),
                                        rule_flag: self.action.spec_rule_flags(),
                                        ifname,
                                        proto: self.proto.raw(),
                                        af: af.raw(),
                                        src,
                                        dst,
                                        label,
                                        uid: self.user.0.id_encoding(old_rule.uid),
                                        gid: self.group.0.id_encoding(old_rule.gid),
                                        icmp_type: match self.icmp_type {
                                            Some(icmp) => icmp.encoded_type(),
                                            None => old_rule.icmp_type,
                                        },
                                        icmp_code: match self.icmp_type {
                                            Some(icmp) => icmp.encoded_code(),
                                            None => old_rule.icmp_code,
                                        },
                                        rpool: old_rule.rpool,
                                    },
                                ),
                            },
                        },
                    },
                },
            },
        }
    }
}

impl TryCopyTo<wire::RawRule> for FilterRule {
    /// Every field the rule determines is written; the translation pool is
    /// left as it was.
    open spec fn try_copied(&self, old_dst: wire::RawRuleV) -> Result<wire::RawRuleV, PfError> {
        self.encoded(old_dst)
    }

    fn try_copy_to(&self, dst: &mut wire::RawRule) -> (r: Result<(), PfError>) {
        dst.action = self.action.to_raw();
        dst.direction = self.direction.to_raw();
        dst.quick = if self.quick {
            1
        } else {
            0
        };
        dst.log = self.log.to_raw();
        dst.rt = self.route.to_raw();
        let policy = self.validate_state_policy()?;
        dst.keep_state = policy.to_raw();
        dst.flags = self.tcp_flags.check.to_raw();
        dst.flagset = self.tcp_flags.mask.to_raw();
        dst.rule_flag = self.action.rule_flags();
        self.interface.try_copy_to(&mut dst.ifname)?;
        dst.proto = self.proto.to_raw();
        let af = self.get_af()?;
        dst.af = af.to_raw();
        self.from.try_copy_to(&mut dst.src)?;
        self.to.try_copy_to(&mut dst.dst)?;
        let label_bytes = self.label.as_str().as_bytes_vec();
        match write_cstr(label_bytes.as_slice(), &mut dst.label) {
            Ok(()) => {},
            Err(e) => {
                return Err(PfError::InvalidLabel(e));
            },
        }
        self.user.copy_to(&mut dst.uid);
        self.group.copy_to(&mut dst.gid);
        match self.icmp_type {
            Some(icmp) => {
                icmp.copy_to(dst);
            },
            None => {},
        }
        assert(self.encoded(old(dst)@) matches Ok(v) && dst@ =~= v);
        Ok(())
    }
}

/// A validated source-translation (NAT) rule.
#[derive(Clone, Debug, PartialEq, Eq, Hash)]
pub struct NatRule {
    pub action: NatRuleAction,
    pub interface: Interface,
    pub af: AddrFamily,
    pub from: Endpoint,
    pub to: Endpoint,
}

impl NatRule {
    /// The translation target, when the action translates at all.
    pub open spec fn spec_get_nat_to(self) -> Option<NatEndpoint> {
        match self.action {
            NatRuleAction::Nat { nat_to } => Some(nat_to),
            NatRuleAction::NoNat => None,
        }
    }

    /// Return the translation target, when the action translates at all.
    pub fn get_nat_to(&self) -> (r: Option<NatEndpoint>)
        ensures
            r == self.spec_get_nat_to(),
    {
        match self.action {
            NatRuleAction::Nat { nat_to } => Some(nat_to),
            NatRuleAction::NoNat => None,
        }
    }

    /// The address family the rule matches against: the unification of the
    /// explicit family with both endpoints' and, when translating, the
    /// translation target's — or the conflict, naming the two families that
    /// disagree.
    pub open spec fn spec_get_af(self) -> Result<AddrFamily, PfError> {
        match spec_compatible_af(self.from.af(), self.to.af()) {
            Err(e) => Err(e),
            Ok(endpoint_af) => match self.spec_get_nat_to() {
                Some(nat_to) => match spec_compatible_af(endpoint_af, nat_to.0.af()) {
                    Err(e) => Err(e),
                    Ok(nat_af) => spec_compatible_af(self.af, nat_af),
                },
                None => spec_compatible_af(self.af, endpoint_af),
            },
        }
    }

    /// Resolve the address family the rule matches against, rejecting an
    /// invalid combination of families.
    pub fn get_af(&self) -> (r: Result<AddrFamily, PfError>)
        ensures
            r == self.spec_get_af(),
    {
        let endpoint_af = compatible_af(self.from.get_af(), self.to.get_af())?;
        match self.get_nat_to() {
            Some(nat_to) => {
                let nat_af = compatible_af(endpoint_af, nat_to.endpoint().get_af())?;
                compatible_af(self.af, nat_af)
            },
            None => compatible_af(self.af, endpoint_af),
        }
    }

    /// What encoding the rule over a raw rule structure yields.
    pub open spec fn encoded(self, old_rule: wire::RawRuleV) -> Result<wire::RawRuleV, PfError> {
        match self.interface.ifname_encoding(old_rule.ifname) {
            Err(e) => Err(e),
            Ok(ifname) => match self.spec_get_af() {
                Err(e) => Err(e),
                Ok(af) => match self.from.encoded() {
                    Err(e) => Err(e),
                    Ok(src) => match self.to.encoded() {
                        Err(e) => Err(e),
                        Ok(dst) => Ok(
                            wire::RawRuleV {
                                action: self.action.raw(),
                                ifname,
                                af: af.raw(),
                                src,
                                dst,
                                ..old_rule
                            },
                        ),
                    },
                },
            },
        }
    }
}

impl TryCopyTo<wire::RawRule> for NatRule {
    /// The action, interface, family and endpoints are written; the rest is
    /// left as it was.
    open spec fn try_copied(&self, old_dst: wire::RawRuleV) -> Result<wire::RawRuleV, PfError> {
        self.encoded(old_dst)
    }

    fn try_copy_to(&self, dst: &mut wire::RawRule) -> (r: Result<(), PfError>) {
        dst.action = self.action.to_raw();
        self.interface.try_copy_to(&mut dst.ifname)?;
        let af = self.get_af()?;
        dst.af = af.to_raw();
        self.from.try_copy_to(&mut dst.src)?;
        self.to.try_copy_to(&mut dst.dst)?;
        assert(self.encoded(old(dst)@) matches Ok(v) && dst@ =~= v);
        Ok(())
    }
}

/// A validated destination-redirection rule.
#[derive(Clone, Debug, PartialEq, Eq, Hash)]
pub struct RedirectRule {
    pub action: RedirectRuleAction,
    pub direction: Direction,
    pub quick: bool,
    pub log: RuleLogSet,
    pub interface: Interface,
    pub proto: Proto,
    pub af: AddrFamily,
    pub from: Endpoint,
    pub to: Endpoint,
    pub label: String,
    pub user: Uid,
    pub group: Gid,
    pub redirect_to: Endpoint,
}

impl RedirectRule {
    /// The redirection target.
    pub fn get_redirect_to(&self) -> (r: Endpoint)
        ensures
            r == self.redirect_to,
    {
        self.redirect_to
    }

    /// The address family the rule matches against: the unification of the
    /// explicit family with both endpoints' and the redirection target's —
    /// or the conflict, naming the two families that disagree.
    pub open spec fn spec_get_af(self) -> Result<AddrFamily, PfError> {
        match spec_compatible_af(self.from.af(), self.to.af()) {
            Err(e) => Err(e),
            Ok(endpoint_af) => match spec_compatible_af(endpoint_af, self.redirect_to.af()) {
                Err(e) => Err(e),
                Ok(rdr_af) => spec_compatible_af(self.af, rdr_af),
            },
        }
    }

    /// Resolve the address family the rule matches against, rejecting an
    /// invalid combination of families.
    pub fn get_af(&self) -> (r: Result<AddrFamily, PfError>)
        ensures
            r == self.spec_get_af(),
    {
        let endpoint_af = compatible_af(self.from.get_af(), self.to.get_af())?;
        let rdr_af = compatible_af(endpoint_af, self.redirect_to.get_af())?;
        compatible_af(self.af, rdr_af)
    }

    /// What encoding the rule over a raw rule structure yields.
    pub open spec fn encoded(self, old_rule: wire::RawRuleV) -> Result<wire::RawRuleV, PfError> {
        match self.interface.ifname_encoding(old_rule.ifname) {
            Err(e) => Err(e),
            Ok(ifname) => match self.spec_get_af() {
                Err(e) => Err(e),
                Ok(af) => match self.from.encoded() {
                    Err(e) => Err(e),
                    Ok(src) => match self.to.encoded() {
                        Err(e) => Err(e),
                        Ok(dst) => match label_encoding(
                            string_bytes(self.label),
                            old_rule.label,
                        ) {
                            Err(e) => Err(e),
                            Ok(label) => Ok(
                                wire::RawRuleV {
                                    action: self.action.raw(),
                                    direction: self.direction.raw(),
                                    quick: if self.quick {
                                        1
                                    } else {
                                        0
                                    },
                                    log: RuleLogSet::bits(self.log.0@),
                                    ifname,
                                    proto: self.proto.raw(),
                                    af: af.raw(),
                                    src,
                                    dst,
                                    label,
                                    uid: self.user.0.id_encoding(old_rule.uid),
                                    gid: self.group.0.id_encoding(old_rule.gid),
                                    ..old_rule
                                },
                            ),
                        },
                    },
                },
            },
        }
    }
}

impl TryCopyTo<wire::RawRule> for RedirectRule {
    /// Every field the rule determines is written; the rest, the
    /// redirection pool among it, is left as it was.
    open spec fn try_copied(&self, old_dst: wire::RawRuleV) -> Result<wire::RawRuleV, PfError> {
        self.encoded(old_dst)
    }

    fn try_copy_to(&self, dst: &mut wire::RawRule) -> (r: Result<(), PfError>) {
        dst.action = self.action.to_raw();
        dst.direction = self.direction.to_raw();
        dst.quick = if self.quick {
            1
        } else {
            0
        };
        dst.log = self.log.to_raw();
        self.interface.try_copy_to(&mut dst.ifname)?;
        dst.proto = self.proto.to_raw();
        let af = self.get_af()?;
        dst.af = af.to_raw();
        self.from.try_copy_to(&mut dst.src)?;
        self.to.try_copy_to(&mut dst.dst)?;
        let label_bytes = self.label.as_str().as_bytes_vec();
        match write_cstr(label_bytes.as_slice(), &mut dst.label) {
            Ok(()) => {},
            Err(e) => {
                return Err(PfError::InvalidLabel(e));
            },
        }
        self.user.copy_to(&mut dst.uid);
        self.group.copy_to(&mut dst.gid);
        assert(self.encoded(old(dst)@) matches Ok(v) && dst@ =~= v);
        Ok(())
    }
}

/// A validated normalization (scrub) rule.
#[derive(Clone, Debug, PartialEq, Eq, Hash)]
pub struct ScrubRule {
    pub action: ScrubRuleAction,
    pub direction: Direction,
}

impl ScrubRule {
    /// What encoding the rule over a raw rule structure yields: only the
    /// action and direction bytes change.
    pub open spec fn encoded(self, old_rule: wire::RawRuleV) -> Result<wire::RawRuleV, PfError> {
        Ok(
            wire::RawRuleV {
                action: self.action.raw(),
                direction: self.direction.raw(),
                ..old_rule
            },
        )
    }
}

impl TryCopyTo<wire::RawRule> for ScrubRule {
    /// Only the action and direction bytes change.
    open spec fn try_copied(&self, old_dst: wire::RawRuleV) -> Result<wire::RawRuleV, PfError> {
        self.encoded(old_dst)
    }

    fn try_copy_to(&self, dst: &mut wire::RawRule) -> (r: Result<(), PfError>) {
        dst.action = self.action.to_raw();
        dst.direction = self.direction.to_raw();
        assert(self.encoded(old(dst)@) matches Ok(v) && dst@ =~= v);
        Ok(())
    }
}

/// Accumulates the fields of a [`FilterRule`]; every field but the action
/// has a default.
#[derive(Clone, Debug)]
pub struct FilterRuleBuilder {
    pub action: Option<FilterRuleAction>,
    pub direction: Direction,
    pub quick: bool,
    pub log: RuleLogSet,
    pub route: Route,
    pub keep_state: StatePolicy,
    pub interface: Interface,
    pub proto: Proto,
    pub af: AddrFamily,
    pub from: Endpoint,
    pub to: Endpoint,
    pub tcp_flags: TcpFlags,
    pub label: String,
    pub user: Uid,
    pub group: Gid,
    pub icmp_type: Option<IcmpType>,
}

impl Default for FilterRuleBuilder {
    /// The builder with no action and every other field at its default.
    fn default() -> (r: Self)
        ensures
            r.action is None,
            r.direction == Direction::Any,
            r.quick == false,
            r.log.0@ == Seq::<crate::rule::rule_log::RuleLog>::empty(),
            r.route == Route::NoRoute,
            r.keep_state == StatePolicy::NoState,
            r.interface == Interface::Any,
            r.proto == Proto::Any,
            r.af == AddrFamily::Any,
            r.from == (Endpoint { ip: Ip::Any, port: Port::Any }),
            r.to == (Endpoint { ip: Ip::Any, port: Port::Any }),
            r.tcp_flags.check.0@ == Seq::<crate::rule::tcp_flags::TcpFlag>::empty(),
            r.tcp_flags.mask.0@ == Seq::<crate::rule::tcp_flags::TcpFlag>::empty(),
            r.label@ == Seq::<char>::empty(),
            r.user == Uid(crate::rule::uid::Id::Any),
            r.group == Gid(crate::rule::uid::Id::Any),
            r.icmp_type is None,
    {
        FilterRuleBuilder {
            action: None,
            direction: Direction::Any,
            quick: false,
            log: RuleLogSet(Vec::new()),
            route: Route::NoRoute,
            keep_state: StatePolicy::NoState,
            interface: Interface::Any,
            proto: Proto::Any,
            af: AddrFamily::Any,
            from: Endpoint { ip: Ip::Any, port: Port::Any },
            to: Endpoint { ip: Ip::Any, port: Port::Any },
            tcp_flags: TcpFlags { check: TcpFlagSet(Vec::new()), mask: TcpFlagSet(Vec::new()) },
            label: String::new(),
            user: Uid(crate::rule::uid::Id::Any),
            group: Gid(crate::rule::uid::Id::Any),
            icmp_type: None,
        }
    }
}

impl FilterRuleBuilder {
    /// Set the action.
    pub fn action(self, action: FilterRuleAction) -> (r: Self)
        ensures
            r == (FilterRuleBuilder { action: Some(action), ..self }),
    {
        FilterRuleBuilder { action: Some(action), ..self }
    }

    /// Set the direction.
    pub fn direction(self, direction: Direction) -> (r: Self)
        ensures
            r == (FilterRuleBuilder { direction, ..self }),
    {
        FilterRuleBuilder { direction, ..self }
    }

    /// Set the quick-match flag.
    pub fn quick(self, quick: bool) -> (r: Self)
        ensures
            r == (FilterRuleBuilder { quick, ..self }),
    {
        FilterRuleBuilder { quick, ..self }
    }

    /// Set the logging options.
    pub fn log(self, log: RuleLogSet) -> (r: Self)
        ensures
            r == (FilterRuleBuilder { log, ..self }),
    {
        FilterRuleBuilder { log, ..self }
    }

    /// Set the routing target.
    pub fn route(self, route: Route) -> (r: Self)
        ensures
            r == (FilterRuleBuilder { route, ..self }),
    {
        FilterRuleBuilder { route, ..self }
    }

    /// Set the connection-state policy.
    pub fn keep_state(self, keep_state: StatePolicy) -> (r: Self)
        ensures
            r == (FilterRuleBuilder { keep_state, ..self }),
    {
        FilterRuleBuilder { keep_state, ..self }
    }

    /// Match the interface with the given name.
    pub fn interface(self, name: &str) -> (r: Self)
        ensures
            r.interface matches Interface::Name(n) && n.name@ == name@,
            r == (FilterRuleBuilder { interface: r.interface, ..self }),
    {
        FilterRuleBuilder { interface: Interface::from_name(name), ..self }
    }

    /// Set the transport protocol.
    pub fn proto(self, proto: Proto) -> (r: Self)
        ensures
            r == (FilterRuleBuilder { proto, ..self }),
    {
        FilterRuleBuilder { proto, ..self }
    }

    /// Set the explicit address family.
    pub fn af(self, af: AddrFamily) -> (r: Self)
        ensures
            r == (FilterRuleBuilder { af, ..self }),
    {
        FilterRuleBuilder { af, ..self }
    }

    /// Set the source endpoint.
    pub fn from(self, from: Endpoint) -> (r: Self)
        ensures
            r == (FilterRuleBuilder { from, ..self }),
    {
        FilterRuleBuilder { from, ..self }
    }

    /// Set the destination endpoint.
    pub fn to(self, to: Endpoint) -> (r: Self)
        ensures
            r == (FilterRuleBuilder { to, ..self }),
    {
        FilterRuleBuilder { to, ..self }
    }

    /// Set the TCP flags to check.
    pub fn tcp_flags(self, tcp_flags: TcpFlags) -> (r: Self)
        ensures
            r == (FilterRuleBuilder { tcp_flags, ..self }),
    {
        FilterRuleBuilder { tcp_flags, ..self }
    }

    /// Set the label.
    pub fn label(self, label: &str) -> (r: Self)
        ensures
            r.label@ == label@,
            r == (FilterRuleBuilder { label: r.label, ..self }),
    {
        FilterRuleBuilder { label: label.to_owned(), ..self }
    }

    /// Set the user-id matcher.
    pub fn user(self, user: Uid) -> (r: Self)
        ensures
            r == (FilterRuleBuilder { user, ..self }),
    {
        FilterRuleBuilder { user, ..self }
    }

    /// Set the group-id matcher.
    pub fn group(self, group: Gid) -> (r: Self)
        ensures
            r == (FilterRuleBuilder { group, ..self }),
    {
        FilterRuleBuilder { group, ..self }
    }

    /// Match the given ICMP type.
    pub fn icmp_type(self, icmp_type: IcmpType) -> (r: Self)
        ensures
            r == (FilterRuleBuilder { icmp_type: Some(icmp_type), ..self }),
    {
        FilterRuleBuilder { icmp_type: Some(icmp_type), ..self }
    }

    /// The rule the builder's fields describe, provided an action was set.
    pub open spec fn spec_build(self) -> Result<FilterRule, PfError> {
        match self.action {
            None => Err(PfError::InvalidRuleCombination(RuleConflict::MissingAction)),
            Some(action) => Ok(
                FilterRule {
                    action,
                    direction: self.direction,
                    quick: self.quick,
                    log: self.log,
                    route: self.route,
                    keep_state: self.keep_state,
                    interface: self.interface,
                    proto: self.proto,
                    af: self.af,
                    from: self.from,
                    to: self.to,
                    tcp_flags: self.tcp_flags,
                    label: self.label,
                    user: self.user,
                    group: self.group,
                    icmp_type: self.icmp_type,
                },
            ),
        }
    }

    /// Produce the rule; fails only when no action was ever set.
    pub fn build(self) -> (r: Result<FilterRule, PfError>)
        ensures
            r == self.spec_build(),
    {
        match self.action {
            None => Err(PfError::InvalidRuleCombination(RuleConflict::MissingAction)),
            Some(action) => Ok(
                FilterRule {
                    action,
                    direction: self.direction,
                    quick: self.quick,
                    log: self.log,
                    route: self.route,
                    keep_state: self.keep_state,
                    interface: self.interface,
                    proto: self.proto,
                    af: self.af,
                    from: self.from,
                    to: self.to,
                    tcp_flags: self.tcp_flags,
                    label: self.label,
                    user: self.user,
                    group: self.group,
                    icmp_type: self.icmp_type,
                },
            ),
        }
    }
}

/// Accumulates the fields of a [`NatRule`]; every field but the action has
/// a default.
#[derive(Clone, Debug)]
pub struct NatRuleBuilder {
    pub action: Option<NatRuleAction>,
    pub interface: Interface,
    pub af: AddrFamily,
    pub from: Endpoint,
    pub to: Endpoint,
}

impl Default for NatRuleBuilder {
    /// The builder with no action and every other field at its default.
    fn default() -> (r: Self)
        ensures
            r.action is None,
            r.interface == Interface::Any,
            r.af == AddrFamily::Any,
            r.from == (Endpoint { ip: Ip::Any, port: Port::Any }),
            r.to == (Endpoint { ip: Ip::Any, port: Port::Any }),
    {
        NatRuleBuilder {
            action: None,
            interface: Interface::Any,
            af: AddrFamily::Any,
            from: Endpoint { ip: Ip::Any, port: Port::Any },
            to: Endpoint { ip: Ip::Any, port: Port::Any },
        }
    }
}

impl NatRuleBuilder {
    /// Set the action.
    pub fn action(self, action: NatRuleAction) -> (r: Self)
        ensures
            r == (NatRuleBuilder { action: Some(action), ..self }),
    {
        NatRuleBuilder { action: Some(action), ..self }
    }

    /// Match the interface with the given name.
    pub fn interface(self, name: &str) -> (r: Self)
        ensures
            r.interface matches Interface::Name(n) && n.name@ == name@,
            r == (NatRuleBuilder { interface: r.interface, ..self }),
    {
        NatRuleBuilder { interface: Interface::from_name(name), ..self }
    }

    /// Set the explicit address family.
    pub fn af(self, af: AddrFamily) -> (r: Self)
        ensures
            r == (NatRuleBuilder { af, ..self }),
    {
        NatRuleBuilder { af, ..self }
    }

    /// Set the source endpoint.
    pub fn from(self, from: Endpoint) -> (r: Self)
        ensures
            r == (NatRuleBuilder { from, ..self }),
    {
        NatRuleBuilder { from, ..self }
    }

    /// Set the destination endpoint.
    pub fn to(self, to: Endpoint) -> (r: Self)
        ensures
            r == (NatRuleBuilder { to, ..self }),
    {
        NatRuleBuilder { to, ..self }
    }

    /// The rule the builder's fields describe, provided an action was set.
    pub open spec fn spec_build(self) -> Result<NatRule, PfError> {
        match self.action {
            None => Err(PfError::InvalidRuleCombination(RuleConflict::MissingAction)),
            Some(action) => Ok(
                NatRule {
                    action,
                    interface: self.interface,
                    af: self.af,
                    from: self.from,
                    to: self.to,
                },
            ),
        }
    }

    /// Produce the rule; fails only when no action was ever set.
    pub fn build(self) -> (r: Result<NatRule, PfError>)
        ensures
            r == self.spec_build(),
    {
        match self.action {
            None => Err(PfError::InvalidRuleCombination(RuleConflict::MissingAction)),
            Some(action) => Ok(
                NatRule {
                    action,
                    interface: self.interface,
                    af: self.af,
                    from: self.from,
                    to: self.to,
                },
            ),
        }
    }
}

/// Accumulates the fields of a [`RedirectRule`]; the action and the
/// redirection target are required, everything else has a default.
#[derive(Clone, Debug)]
pub struct RedirectRuleBuilder {
    pub action: Option<RedirectRuleAction>,
    pub direction: Direction,
    pub quick: bool,
    pub log: RuleLogSet,
    pub interface: Interface,
    pub proto: Proto,
    pub af: AddrFamily,
    pub from: Endpoint,
    pub to: Endpoint,
    pub label: String,
    pub user: Uid,
    pub group: Gid,
    pub redirect_to: Option<Endpoint>,
}

impl Default for RedirectRuleBuilder {
    /// The builder with no action, no redirection target, and every other
    /// field at its default.
    fn default() -> (r: Self)
        ensures
            r.action is None,
            r.direction == Direction::Any,
            r.quick == false,
            r.log.0@ == Seq::<crate::rule::rule_log::RuleLog>::empty(),
            r.interface == Interface::Any,
            r.proto == Proto::Any,
            r.af == AddrFamily::Any,
            r.from == (Endpoint { ip: Ip::Any, port: Port::Any }),
            r.to == (Endpoint { ip: Ip::Any, port: Port::Any }),
            r.label@ == Seq::<char>::empty(),
            r.user == Uid(crate::rule::uid::Id::Any),
            r.group == Gid(crate::rule::uid::Id::Any),
            r.redirect_to is None,
    {
        RedirectRuleBuilder {
            action: None,
            direction: Direction::Any,
            quick: false,
            log: RuleLogSet(Vec::new()),
            interface: Interface::Any,
            proto: Proto::Any,
            af: AddrFamily::Any,
            from: Endpoint { ip: Ip::Any, port: Port::Any },
            to: Endpoint { ip: Ip::Any, port: Port::Any },
            label: String::new(),
            user: Uid(crate::rule::uid::Id::Any),
            group: Gid(crate::rule::uid::Id::Any),
            redirect_to: None,
        }
    }
}

impl RedirectRuleBuilder {
    /// Set the action.
    pub fn action(self, action: RedirectRuleAction) -> (r: Self)
        ensures
            r == (RedirectRuleBuilder { action: Some(action), ..self }),
    {
        RedirectRuleBuilder { action: Some(action), ..self }
    }

    /// Set the direction.
    pub fn direction(self, direction: Direction) -> (r: Self)
        ensures
            r == (RedirectRuleBuilder { direction, ..self }),
    {
        RedirectRuleBuilder { direction, ..self }
    }

    /// Set the quick-match flag.
    pub fn quick(self, quick: bool) -> (r: Self)
        ensures
            r == (RedirectRuleBuilder { quick, ..self }),
    {
        RedirectRuleBuilder { quick, ..self }
    }

    /// Set the logging options.
    pub fn log(self, log: RuleLogSet) -> (r: Self)
        ensures
            r == (RedirectRuleBuilder { log, ..self }),
    {
        RedirectRuleBuilder { log, ..self }
    }

    /// Match the interface with the given name.
    pub fn interface(self, name: &str) -> (r: Self)
        ensures
            r.interface matches Interface::Name(n) && n.name@ == name@,
            r == (RedirectRuleBuilder { interface: r.interface, ..self }),
    {
        RedirectRuleBuilder { interface: Interface::from_name(name), ..self }
    }

    /// Set the transport protocol.
    pub fn proto(self, proto: Proto) -> (r: Self)
        ensures
            r == (RedirectRuleBuilder { proto, ..self }),
    {
        RedirectRuleBuilder { proto, ..self }
    }

    /// Set the explicit address family.
    pub fn af(self, af: AddrFamily) -> (r: Self)
        ensures
            r == (RedirectRuleBuilder { af, ..self }),
    {
        RedirectRuleBuilder { af, ..self }
    }

    /// Set the source endpoint.
    pub fn from(self, from: Endpoint) -> (r: Self)
        ensures
            r == (RedirectRuleBuilder { from, ..self }),
    {
        RedirectRuleBuilder { from, ..self }
    }

    /// Set the destination endpoint.
    pub fn to(self, to: Endpoint) -> (r: Self)
        ensures
            r == (RedirectRuleBuilder { to, ..self }),
    {
        RedirectRuleBuilder { to, ..self }
    }

    /// Set the label.
    pub fn label(self, label: &str) -> (r: Self)
        ensures
            r.label@ == label@,
            r == (RedirectRuleBuilder { label: r.label, ..self }),
    {
        RedirectRuleBuilder { label: label.to_owned(), ..self }
    }

    /// Set the user-id matcher.
    pub fn user(self, user: Uid) -> (r: Self)
        ensures
            r == (RedirectRuleBuilder { user, ..self }),
    {
        RedirectRuleBuilder { user, ..self }
    }

    /// Set the group-id matcher.
    pub fn group(self, group: Gid) -> (r: Self)
        ensures
            r == (RedirectRuleBuilder { group, ..self }),
    {
        RedirectRuleBuilder { group, ..self }
    }

    /// Set the redirection target.
    pub fn redirect_to(self, redirect_to: Endpoint) -> (r: Self)
        ensures
            r == (RedirectRuleBuilder { redirect_to: Some(redirect_to), ..self }),
    {
        RedirectRuleBuilder { redirect_to: Some(redirect_to), ..self }
    }

    /// The rule the builder's fields describe, provided the action and the
    /// redirection target were both set.
    pub open spec fn spec_build(self) -> Result<RedirectRule, PfError> {
        match self.action {
            None => Err(PfError::InvalidRuleCombination(RuleConflict::MissingAction)),
            Some(action) => match self.redirect_to {
                None => Err(
                    PfError::InvalidRuleCombination(RuleConflict::MissingRedirectTarget),
                ),
                Some(redirect_to) => Ok(
                    RedirectRule {
                        action,
                        direction: self.direction,
                        quick: self.quick,
                        log: self.log,
                        interface: self.interface,
                        proto: self.proto,
                        af: self.af,
                        from: self.from,
                        to: self.to,
                        label: self.label,
                        user: self.user,
                        group: self.group,
                        redirect_to,
                    },
                ),
            },
        }
    }

    /// Produce the rule; fails exactly when the action or the redirection
    /// target was never set.
    pub fn build(self) -> (r: Result<RedirectRule, PfError>)
        ensures
            r == self.spec_build(),
    {
        match self.action {
            None => Err(PfError::InvalidRuleCombination(RuleConflict::MissingAction)),
            Some(action) => match self.redirect_to {
                None => Err(
                    PfError::InvalidRuleCombination(RuleConflict::MissingRedirectTarget),
                ),
                Some(redirect_to) => Ok(
                    RedirectRule {
                        action,
                        direction: self.direction,
                        quick: self.quick,
                        log: self.log,
                        interface: self.interface,
                        proto: self.proto,
                        af: self.af,
                        from: self.from,
                        to: self.to,
                        label: self.label,
                        user: self.user,
                        group: self.group,
                        redirect_to,
                    },
                ),
            },
        }
    }
}

/// Accumulates the fields of a [`ScrubRule`]; the action is required.
#[derive(Clone, Debug)]
pub struct ScrubRuleBuilder {
    pub action: Option<ScrubRuleAction>,
    pub direction: Direction,
}

impl Default for ScrubRuleBuilder {
    /// The builder with no action and the default direction.
    fn default() -> (r: Self)
        ensures
            r.action is None,
            r.direction == Direction::Any,
    {
        ScrubRuleBuilder { action: None, direction: Direction::Any }
    }
}

impl ScrubRuleBuilder {
    /// Set the action.
    pub fn action(self, action: ScrubRuleAction) -> (r: Self)
        ensures
            r == (ScrubRuleBuilder { action: Some(action), ..self }),
    {
        ScrubRuleBuilder { action: Some(action), ..self }
    }

    /// Set the direction.
    pub fn direction(self, direction: Direction) -> (r: Self)
        ensures
            r == (ScrubRuleBuilder { direction, ..self }),
    {
        ScrubRuleBuilder { direction, ..self }
    }

    /// The rule the builder's fields describe, provided an action was set.
    pub open spec fn spec_build(self) -> Result<ScrubRule, PfError> {
        match self.action {
            None => Err(PfError::InvalidRuleCombination(RuleConflict::MissingAction)),
            Some(action) => Ok(ScrubRule { action, direction: self.direction }),
        }
    }

    /// Produce the rule; fails only when no action was ever set.
    pub fn build(self) -> (r: Result<ScrubRule, PfError>)
        ensures
            r == self.spec_build(),
    {
        match self.action {
            None => Err(PfError::InvalidRuleCombination(RuleConflict::MissingAction)),
            Some(action) => Ok(ScrubRule { action, direction: self.direction }),
        }
    }
}

/// Law: when every constrained one of a filter rule's source family,
/// destination family and explicit family agrees — however many are left
/// unconstrained — validation succeeds and resolves to the common
/// constrained family, or to `Any` when all three are unconstrained.
pub proof fn lemma_filter_rule_af_resolves(rule: FilterRule)
    requires
        rule.from.af() != AddrFamily::Any && rule.to.af() != AddrFamily::Any ==> rule.from.af()
            == rule.to.af(),
        rule.from.af() != AddrFamily::Any && rule.af != AddrFamily::Any ==> rule.from.af()
            == rule.af,
        rule.to.af() != AddrFamily::Any && rule.af != AddrFamily::Any ==> rule.to.af() == rule.af,
    ensures
        rule.spec_get_af() == Ok::<AddrFamily, PfError>(
            if rule.from.af() != AddrFamily::Any {
                rule.from.af()
            } else if rule.to.af() != AddrFamily::Any {
                rule.to.af()
            } else {
                rule.af
            },
        ),
{
}

/// Law: when two of a filter rule's source family, destination family and
/// explicit family are distinct concrete families, validation fails, and
/// the error names two distinct concrete families drawn from those fields.
pub proof fn lemma_filter_rule_af_conflict(rule: FilterRule)
    requires
        exists|a: AddrFamily, b: AddrFamily|
            {
                &&& #[trigger] family_pair_of_rule(rule, a, b)
                &&& a != b
                &&& a != AddrFamily::Any
                &&& b != AddrFamily::Any
            },
    ensures
        rule.spec_get_af() matches Err(e) && (e matches PfError::InvalidRuleCombination(
            RuleConflict::AddrFamilyMismatch(af1, af2),
        ) && af1 != af2 && af1 != AddrFamily::Any && af2 != AddrFamily::Any
            && family_of_rule(rule, af1) && family_of_rule(rule, af2)),
{
}

/// Whether `af` is one of the rule's three address-family sources.
pub open spec fn family_of_rule(rule: FilterRule, af: AddrFamily) -> bool {
    af == rule.from.af() || af == rule.to.af() || af == rule.af
}

/// Whether `a` and `b` are both among the rule's three address-family
/// sources.
pub open spec fn family_pair_of_rule(rule: FilterRule, a: AddrFamily, b: AddrFamily) -> bool {
    family_of_rule(rule, a) && family_of_rule(rule, b)
}

/// Law: `Modulate` and `SynProxy` validate exactly with TCP, each encoding
/// to its own raw policy code, while `NoState` and `Keep` validate with
/// every protocol.
pub proof fn lemma_state_policy_validation(rule: FilterRule)
    ensures
        rule.keep_state == StatePolicy::NoState || rule.keep_state == StatePolicy::Keep
            ==> rule.spec_validate_state_policy() == Ok::<StatePolicy, PfError>(rule.keep_state),
        (rule.keep_state == StatePolicy::Modulate || rule.keep_state == StatePolicy::SynProxy)
            && rule.proto == Proto::Tcp ==> rule.spec_validate_state_policy() == Ok::<
            StatePolicy,
            PfError,
        >(rule.keep_state),
        (rule.keep_state == StatePolicy::Modulate || rule.keep_state == StatePolicy::SynProxy)
            && rule.proto != Proto::Tcp ==> rule.spec_validate_state_policy() == Err::<
            StatePolicy,
            PfError,
        >(
            PfError::InvalidRuleCombination(
                RuleConflict::StatePolicyProto(rule.keep_state, rule.proto),
            ),
        ),
        StatePolicy::Modulate.raw() != StatePolicy::SynProxy.raw(),
        StatePolicy::Modulate.raw() != StatePolicy::Keep.raw(),
        StatePolicy::SynProxy.raw() != StatePolicy::Keep.raw(),
{
}

} // verus!
