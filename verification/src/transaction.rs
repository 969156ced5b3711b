//! The two-phase transaction engine: staging rule replacements per anchor
//! and rule-set kind, and planning the exact sequence of control-call
//! requests that commits them atomically.
//!
//! The caller issues the calls of a [`CommitPlan`] in order: one
//! begin-transaction call carrying every element (the kernel fills the
//! tickets in), then for each group, per rule, one pool-ticket call, the
//! optional pool-address registration, and the add-rule call with both
//! tickets set — and finally one commit call with the same elements.

use vstd::prelude::*;
use vstd::string::StrSliceExecFns;
use vstd::string::StringSliceAdditionalSpecFns;

use crate::conversion::TryCopyTo;
use crate::cstr::bytes_eq;
use crate::cstr::write_cstr;
use crate::cstr::zeros;
use crate::errors::PfError;
use crate::pooladdr::PoolAddr;
use crate::pooladdr::PoolAddrList;
use crate::pooladdr::PoolEntry;
use crate::pooladdr::PoolEntryV;
use crate::rule::FilterRule;
use crate::rule::NatRule;
use crate::rule::RedirectRule;
use crate::rule::ScrubRule;
use crate::ruleset::RulesetKind;
use crate::utils::anchor_name_encoding;
use crate::wire;

verus! {

/// A staged change for one anchor: for each rule-set kind, `None` leaves
/// the kind's rules untouched, `Some(rules)` replaces them wholesale, and
/// `Some` of an empty list removes them all.
#[derive(Clone, Debug)]
pub struct AnchorChange {
    pub filter_rules: Option<Vec<FilterRule>>,
    pub nat_rules: Option<Vec<NatRule>>,
    pub redirect_rules: Option<Vec<RedirectRule>>,
    pub scrub_rules: Option<Vec<ScrubRule>>,
}

impl Default for AnchorChange {
    /// An empty changeset leaves every kind untouched.
    fn default() -> (r: Self)
        ensures
            r.filter_rules is None,
            r.nat_rules is None,
            r.redirect_rules is None,
            r.scrub_rules is None,
    {
        AnchorChange { filter_rules: None, nat_rules: None, redirect_rules: None, scrub_rules: None }
    }
}

impl AnchorChange {
    /// An empty changeset leaving every kind untouched.
    pub fn new() -> (r: Self)
        ensures
            r.filter_rules is None,
            r.nat_rules is None,
            r.redirect_rules is None,
            r.scrub_rules is None,
    {
        AnchorChange { filter_rules: None, nat_rules: None, redirect_rules: None, scrub_rules: None }
    }

    /// Replace the anchor's filter rules with the given list.
    pub fn set_filter_rules(&mut self, rules: Vec<FilterRule>)
        ensures
            *final(self) == (AnchorChange { filter_rules: Some(rules), ..*old(self) }),
    {
        self.filter_rules = Some(rules);
    }

    /// Replace the anchor's NAT rules with the given list.
    pub fn set_nat_rules(&mut self, rules: Vec<NatRule>)
        ensures
            *final(self) == (AnchorChange { nat_rules: Some(rules), ..*old(self) }),
    {
        self.nat_rules = Some(rules);
    }

    /// Replace the anchor's redirect rules with the given list.
    pub fn set_redirect_rules(&mut self, rules: Vec<RedirectRule>)
        ensures
            *final(self) == (AnchorChange { redirect_rules: Some(rules), ..*old(self) }),
    {
        self.redirect_rules = Some(rules);
    }

    /// Replace the anchor's scrub rules with the given list.
    pub fn set_scrub_rules(&mut self, rules: Vec<ScrubRule>)
        ensures
            *final(self) == (AnchorChange { scrub_rules: Some(rules), ..*old(self) }),
    {
        self.scrub_rules = Some(rules);
    }
}

/// A staging map from anchor name to its change; consumed by one commit.
#[derive(Debug)]
pub struct Transaction {
    pub changes: Vec<(Vec<u8>, AnchorChange)>,
}

impl Default for Transaction {
    /// The empty transaction.
    fn default() -> (r: Self)
        ensures
            r.changes@ == Seq::<(Vec<u8>, AnchorChange)>::empty(),
    {
        Transaction { changes: Vec::new() }
    }
}

impl Transaction {
    /// Each anchor appears at most once.
    pub open spec fn wf(self) -> bool {
        forall|i: int, j: int|
            0 <= i < j < self.changes@.len() ==> (#[trigger] self.changes@[i]).0@ != (
            #[trigger] self.changes@[j]).0@
    }

    /// The empty transaction.
    pub fn new() -> (r: Self)
        ensures
            r.changes@ == Seq::<(Vec<u8>, AnchorChange)>::empty(),
            r.wf(),
    {
        Transaction { changes: Vec::new() }
    }

    /// Stage a change for the named anchor, replacing any change staged for
    /// it before and leaving every other anchor's staged change as it was.
    pub fn add_change(&mut self, anchor_name: &str, anchor_change: AnchorChange)
        ensures
            old(self).wf() ==> final(self).wf(),
            (forall|j: int|
                0 <= j < old(self).changes@.len() ==> (#[trigger] old(self).changes@[j]).0@
                    != anchor_name.spec_bytes()) ==> {
                &&& final(self).changes@.len() == old(self).changes@.len() + 1
                &&& final(self).changes@.drop_last() == old(self).changes@
                &&& final(self).changes@.last().0@ == anchor_name.spec_bytes()
                &&& final(self).changes@.last().1 == anchor_change
            },
            (exists|j: int|
                0 <= j < old(self).changes@.len() && (#[trigger] old(self).changes@[j]).0@
                    == anchor_name.spec_bytes()) ==> exists|j: int|
                {
                    &&& 0 <= j < old(self).changes@.len()
                    &&& (#[trigger] old(self).changes@[j]).0@ == anchor_name.spec_bytes()
                    &&& final(self).changes@.len() == old(self).changes@.len()
                    &&& final(self).changes@[j].0@ == anchor_name.spec_bytes()
                    &&& final(self).changes@[j].1 == anchor_change
                    &&& forall|k: int|
                        0 <= k < old(self).changes@.len() && k != j ==> final(self).changes@[k]
                            == (#[trigger] old(self).changes@[k])
                },
    {
        let name_bytes = anchor_name.as_bytes_vec();
        let mut i: usize = 0;
        while i < self.changes.len()
            invariant
                i <= self.changes@.len(),
                self.changes@ == old(self).changes@,
                name_bytes@ == anchor_name.spec_bytes(),
                forall|j: int|
                    0 <= j < i ==> (#[trigger] self.changes@[j]).0@ != anchor_name.spec_bytes(),
            decreases self.changes@.len() - i,
        {
            if bytes_eq(self.changes[i].0.as_slice(), name_bytes.as_slice()) {
                self.changes.set(i, (name_bytes, anchor_change));
                return ;
            }
            i += 1;
        }
        self.changes.push((name_bytes, anchor_change));
        assert(self.changes@.drop_last() =~= old(self).changes@);
    }
}

/// One planned add-rule call: the prepared request (tickets still zero),
/// the pool address to register for it first, if any, and the arena whose
/// chain the rule's pool list points at for the duration of the call.
#[derive(Debug, PartialEq, Eq)]
pub struct PlannedRuleCall {
    pub request: wire::RuleRequest,
    pub pool_addr: Option<wire::RawPoolAddr>,
    pub pool: Option<PoolAddrList>,
}

/// Mathematical view of [`PlannedRuleCall`].
#[verifier::ext_equal]
pub ghost struct PlannedRuleCallV {
    pub request: wire::RuleRequestV,
    pub pool_addr: Option<wire::RawPoolAddrV>,
    pub pool: Option<Seq<PoolEntryV>>,
}

impl View for PlannedRuleCall {
    type V = PlannedRuleCallV;

    open spec fn view(&self) -> PlannedRuleCallV {
        PlannedRuleCallV {
            request: self.request@,
            pool_addr: match self.pool_addr {
                Some(ref pa) => Some(pa@),
                None => None,
            },
            pool: match self.pool {
                Some(ref pool) => Some(pool@),
                None => None,
            },
        }
    }
}

/// The whole sequence of requests that commits a transaction: one
/// transaction element per staged (anchor, kind) pair in kind-major order
/// — filter, NAT, redirect, scrub — and, aligned with the elements, one
/// group of planned add-rule calls per pair.
#[derive(Debug, PartialEq, Eq)]
pub struct CommitPlan {
    pub elements: Vec<wire::TransElement>,
    pub groups: Vec<Vec<PlannedRuleCall>>,
}

impl CommitPlan {
    /// The views of the transaction elements.
    pub open spec fn elements_view(self) -> Seq<wire::TransElementV> {
        Seq::new(self.elements@.len(), |i: int| self.elements@[i]@)
    }

    /// The views of the calls of group `i`.
    pub open spec fn group_view(self, i: int) -> Seq<PlannedRuleCallV> {
        group_calls_view(self.groups@[i])
    }
}

/// The staged (anchor, rules) pairs holding a filter replacement, in
/// staging order.
pub open spec fn filter_staged(changes: Seq<(Vec<u8>, AnchorChange)>) -> Seq<
    (Seq<u8>, Seq<FilterRule>),
>
    decreases changes.len(),
{
    if changes.len() == 0 {
        Seq::empty()
    } else {
        let prefix = filter_staged(changes.drop_last());
        match changes.last().1.filter_rules {
            Some(rules) => prefix.push((changes.last().0@, rules@)),
            None => prefix,
        }
    }
}

/// The staged (anchor, rules) pairs holding a NAT replacement, in staging
/// order.
pub open spec fn nat_staged(changes: Seq<(Vec<u8>, AnchorChange)>) -> Seq<(Seq<u8>, Seq<NatRule>)>
    decreases changes.len(),
{
    if changes.len() == 0 {
        Seq::empty()
    } else {
        let prefix = nat_staged(changes.drop_last());
        match changes.last().1.nat_rules {
            Some(rules) => prefix.push((changes.last().0@, rules@)),
            None => prefix,
        }
    }
}

/// The staged (anchor, rules) pairs holding a redirect replacement, in
/// staging order.
pub open spec fn redirect_staged(changes: Seq<(Vec<u8>, AnchorChange)>) -> Seq<
    (Seq<u8>, Seq<RedirectRule>),
>
    decreases changes.len(),
{
    if changes.len() == 0 {
        Seq::empty()
    } else {
        let prefix = redirect_staged(changes.drop_last());
        match changes.last().1.redirect_rules {
            Some(rules) => prefix.push((changes.last().0@, rules@)),
            None => prefix,
        }
    }
}

/// The staged (anchor, rules) pairs holding a scrub replacement, in
/// staging order.
pub open spec fn scrub_staged(changes: Seq<(Vec<u8>, AnchorChange)>) -> Seq<
    (Seq<u8>, Seq<ScrubRule>),
>
    decreases changes.len(),
{
    if changes.len() == 0 {
        Seq::empty()
    } else {
        let prefix = scrub_staged(changes.drop_last());
        match changes.last().1.scrub_rules {
            Some(rules) => prefix.push((changes.last().0@, rules@)),
            None => prefix,
        }
    }
}

/// What one transaction element for an anchor and kind holds: the kind's
/// rule-set number, a zero ticket for the kernel to fill in, and the
/// anchor name — or `InvalidAnchorName` when the name cannot be stored.
pub open spec fn trans_element_encoding(name: Seq<u8>, kind: RulesetKind) -> Result<
    wire::TransElementV,
    PfError,
> {
    match anchor_name_encoding(name, zeros(wire::ANCHOR_NAME_SIZE as nat)) {
        Err(e) => Err(e),
        Ok(anchor) => Ok(wire::TransElementV { rs_num: kind.raw(), ticket: 0, anchor }),
    }
}

/// Build one transaction element for an anchor and kind.
pub fn new_trans_element(anchor: &[u8], ruleset_kind: RulesetKind) -> (r: Result<
    wire::TransElement,
    PfError,
>)
    ensures
        match r {
            Ok(element) => Ok::<_, PfError>(element@) == trans_element_encoding(
                anchor@,
                ruleset_kind,
            ) && element@.wf(),
            Err(e) => trans_element_encoding(anchor@, ruleset_kind) == Err::<
                wire::TransElementV,
                _,
            >(e),
        },
{
    let mut buf = crate::cstr::zero_bytes(wire::ANCHOR_NAME_SIZE);
    match write_cstr(anchor, &mut buf) {
        Ok(()) => {},
        Err(e) => {
            return Err(PfError::InvalidAnchorName(e));
        },
    }
    let element = wire::TransElement { rs_num: ruleset_kind.to_raw(), ticket: 0, anchor: buf };
    assert(trans_element_encoding(anchor@, ruleset_kind) matches Ok(v) && element@ =~= v);
    Ok(element)
}

/// The one-entry pool chain holding the given encoded address.
pub open spec fn single_pool_chain(addr: wire::RawPoolAddrV) -> Seq<PoolEntryV> {
    seq![PoolEntryV { addr, next: None, prev: None }]
}

/// What planning the insertion of one filter rule yields: the prepared
/// request over an all-zero one, and — when the rule routes packets — the
/// routing target to register and its one-entry pool chain.
pub open spec fn filter_call_result(name: Seq<u8>, rule: FilterRule) -> Result<
    PlannedRuleCallV,
    PfError,
> {
    match anchor_name_encoding(name, zeros(wire::ANCHOR_NAME_SIZE as nat)) {
        Err(e) => Err(e),
        Ok(anchor) => match rule.encoded(wire::RawRuleV::zeroed()) {
            Err(e) => Err(e),
            Ok(raw_rule) => match rule.route.spec_pool_addr() {
                None => Ok(
                    PlannedRuleCallV {
                        request: wire::RuleRequestV {
                            action: wire::PF_CHANGE_NONE,
                            anchor,
                            rule: raw_rule,
                            ..wire::RuleRequestV::zeroed()
                        },
                        pool_addr: None,
                        pool: None,
                    },
                ),
                Some(pool_addr) => match pool_addr.encoded() {
                    Err(e) => Err(e),
                    Ok(raw_pool_addr) => Ok(
                        PlannedRuleCallV {
                            request: wire::RuleRequestV {
                                action: wire::PF_CHANGE_NONE,
                                anchor,
                                rule: raw_rule,
                                ..wire::RuleRequestV::zeroed()
                            },
                            pool_addr: Some(raw_pool_addr),
                            pool: Some(single_pool_chain(raw_pool_addr)),
                        },
                    ),
                },
            },
        },
    }
}

/// What planning the insertion of one NAT rule yields: the prepared
/// request and — when the rule translates — the translation target to
/// register, its one-entry pool chain, and the translation ports in the
/// rule's pool.
pub open spec fn nat_call_result(name: Seq<u8>, rule: NatRule) -> Result<
    PlannedRuleCallV,
    PfError,
> {
    match anchor_name_encoding(name, zeros(wire::ANCHOR_NAME_SIZE as nat)) {
        Err(e) => Err(e),
        Ok(anchor) => match rule.encoded(wire::RawRuleV::zeroed()) {
            Err(e) => Err(e),
            Ok(raw_rule) => match rule.spec_get_nat_to() {
                None => Ok(
                    PlannedRuleCallV {
                        request: wire::RuleRequestV {
                            action: wire::PF_CHANGE_NONE,
                            anchor,
                            rule: raw_rule,
                            ..wire::RuleRequestV::zeroed()
                        },
                        pool_addr: None,
                        pool: None,
                    },
                ),
                Some(nat_to) => match (PoolAddr {
                    interface: crate::rule::interface::Interface::Any,
                    ip: nat_to.0.ip,
                }).encoded() {
                    Err(e) => Err(e),
                    Ok(raw_pool_addr) => match nat_to.0.port.pool_encoding() {
                        Err(e) => Err(e),
                        Ok(rpool) => Ok(
                            PlannedRuleCallV {
                                request: wire::RuleRequestV {
                                    action: wire::PF_CHANGE_NONE,
                                    anchor,
                                    rule: wire::RawRuleV { rpool, ..raw_rule },
                                    ..wire::RuleRequestV::zeroed()
                                },
                                pool_addr: Some(raw_pool_addr),
                                pool: Some(single_pool_chain(raw_pool_addr)),
                            },
                        ),
                    },
                },
            },
        },
    }
}

/// What planning the insertion of one redirect rule yields: the prepared
/// request, the redirection target to register, its one-entry pool chain,
/// and the redirection ports in the rule's pool.
pub open spec fn redirect_call_result(name: Seq<u8>, rule: RedirectRule) -> Result<
    PlannedRuleCallV,
    PfError,
> {
    match anchor_name_encoding(name, zeros(wire::ANCHOR_NAME_SIZE as nat)) {
        Err(e) => Err(e),
        Ok(anchor) => match rule.encoded(wire::RawRuleV::zeroed()) {
            Err(e) => Err(e),
            Ok(raw_rule) => match (PoolAddr {
                interface: crate::rule::interface::Interface::Any,
                ip: rule.redirect_to.ip,
            }).encoded() {
                Err(e) => Err(e),
                Ok(raw_pool_addr) => match rule.redirect_to.port.pool_encoding() {
                    Err(e) => Err(e),
                    Ok(rpool) => Ok(
                        PlannedRuleCallV {
                            request: wire::RuleRequestV {
                                action: wire::PF_CHANGE_NONE,
                                anchor,
                                rule: wire::RawRuleV { rpool, ..raw_rule },
                                ..wire::RuleRequestV::zeroed()
                            },
                            pool_addr: Some(raw_pool_addr),
                            pool: Some(single_pool_chain(raw_pool_addr)),
                        },
                    ),
                },
            },
        },
    }
}

/// What planning the insertion of one scrub rule yields: the prepared
/// request alone.
pub open spec fn scrub_call_result(name: Seq<u8>, rule: ScrubRule) -> Result<
    PlannedRuleCallV,
    PfError,
> {
    match anchor_name_encoding(name, zeros(wire::ANCHOR_NAME_SIZE as nat)) {
        Err(e) => Err(e),
        Ok(anchor) => match rule.encoded(wire::RawRuleV::zeroed()) {
            Err(e) => Err(e),
            Ok(raw_rule) => Ok(
                PlannedRuleCallV {
                    request: wire::RuleRequestV {
                        action: wire::PF_CHANGE_NONE,
                        anchor,
                        rule: raw_rule,
                        ..wire::RuleRequestV::zeroed()
                    },
                    pool_addr: None,
                    pool: None,
                },
            ),
        },
    }
}

/// Duplicate a pool address value.
fn duplicate_pool_addr(pool_addr: &PoolAddr) -> (r: PoolAddr)
    ensures
        r == *pool_addr,
{
    let interface = match &pool_addr.interface {
        crate::rule::interface::Interface::Any => crate::rule::interface::Interface::Any,
        crate::rule::interface::Interface::Name(n) => crate::rule::interface::Interface::Name(
            crate::rule::interface::InterfaceName { name: n.name.clone() },
        ),
    };
    PoolAddr { interface, ip: pool_addr.ip }
}

/// Encode a pool address and wrap it into its one-entry arena, together
/// with a second encoding of the same address for registration.
fn plan_pool_parts(pool_addr: &PoolAddr) -> (r: Result<
    (wire::RawPoolAddr, PoolAddrList),
    PfError,
>)
    ensures
        match r {
            Ok(parts) => {
                &&& Ok::<_, PfError>(parts.0@) == pool_addr.encoded()
                &&& parts.1@ == single_pool_chain(parts.0@)
            },
            Err(e) => pool_addr.encoded() == Err::<wire::RawPoolAddrV, _>(e),
        },
{
    let registered = PoolAddrList::encode_entry(pool_addr)?;
    let arena_entry = PoolAddrList::encode_entry(pool_addr)?;
    let mut entries: Vec<PoolEntry> = Vec::new();
    entries.push(PoolEntry { addr: arena_entry, next: None, prev: None });
    let pool = PoolAddrList { entries };
    assert(pool@ =~= single_pool_chain(registered@));
    Ok((registered, pool))
}

/// Plan the insertion of one filter rule into an anchor.
pub fn plan_filter_call(anchor: &[u8], rule: &FilterRule) -> (r: Result<PlannedRuleCall, PfError>)
    ensures
        match r {
            Ok(call) => Ok::<_, PfError>(call@) == filter_call_result(anchor@, *rule),
            Err(e) => filter_call_result(anchor@, *rule) == Err::<PlannedRuleCallV, _>(e),
        },
{
    let mut request = wire::RuleRequest::zeroed();
    request.action = wire::PF_CHANGE_NONE;
    match write_cstr(anchor, &mut request.anchor) {
        Ok(()) => {},
        Err(e) => {
            return Err(PfError::InvalidAnchorName(e));
        },
    }
    rule.try_copy_to(&mut request.rule)?;
    match rule.get_route().get_pool_addr() {
        None => {
            let call = PlannedRuleCall { request, pool_addr: None, pool: None };
            assert(filter_call_result(anchor@, *rule) matches Ok(v) && call@ =~= v);
            Ok(call)
        },
        Some(pool_addr) => {
            let owned = duplicate_pool_addr(pool_addr);
            let (registered, pool) = plan_pool_parts(&owned)?;
            let call = PlannedRuleCall { request, pool_addr: Some(registered), pool: Some(pool) };
            assert(filter_call_result(anchor@, *rule) matches Ok(v) && call@ =~= v);
            Ok(call)
        },
    }
}

/// Plan the insertion of one NAT rule into an anchor.
pub fn plan_nat_call(anchor: &[u8], rule: &NatRule) -> (r: Result<PlannedRuleCall, PfError>)
    ensures
        match r {
            Ok(call) => Ok::<_, PfError>(call@) == nat_call_result(anchor@, *rule),
            Err(e) => nat_call_result(anchor@, *rule) == Err::<PlannedRuleCallV, _>(e),
        },
{
    let mut request = wire::RuleRequest::zeroed();
    request.action = wire::PF_CHANGE_NONE;
    match write_cstr(anchor, &mut request.anchor) {
        Ok(()) => {},
        Err(e) => {
            return Err(PfError::InvalidAnchorName(e));
        },
    }
    rule.try_copy_to(&mut request.rule)?;
    match rule.get_nat_to() {
        None => {
            let call = PlannedRuleCall { request, pool_addr: None, pool: None };
            assert(nat_call_result(anchor@, *rule) matches Ok(v) && call@ =~= v);
            Ok(call)
        },
        Some(nat_to) => {
            let target = PoolAddr::from_ip(nat_to.endpoint().ip());
            let (registered, pool) = plan_pool_parts(&target)?;
            nat_to.endpoint().port().try_copy_to(&mut request.rule.rpool)?;
            let call = PlannedRuleCall { request, pool_addr: Some(registered), pool: Some(pool) };
            assert(nat_call_result(anchor@, *rule) matches Ok(v) && call@ =~= v);
            Ok(call)
        },
    }
}

/// Plan the insertion of one redirect rule into an anchor.
pub fn plan_redirect_call(anchor: &[u8], rule: &RedirectRule) -> (r: Result<
    PlannedRuleCall,
    PfError,
>)
    ensures
        match r {
            Ok(call) => Ok::<_, PfError>(call@) == redirect_call_result(anchor@, *rule),
            Err(e) => redirect_call_result(anchor@, *rule) == Err::<PlannedRuleCallV, _>(e),
        },
{
    let mut request = wire::RuleRequest::zeroed();
    request.action = wire::PF_CHANGE_NONE;
    match write_cstr(anchor, &mut request.anchor) {
        Ok(()) => {},
        Err(e) => {
            return Err(PfError::InvalidAnchorName(e));
        },
    }
    rule.try_copy_to(&mut request.rule)?;
    let redirect_to = rule.get_redirect_to();
    let target = PoolAddr::from_ip(redirect_to.ip());
    let (registered, pool) = plan_pool_parts(&target)?;
    redirect_to.port().try_copy_to(&mut request.rule.rpool)?;
    let call = PlannedRuleCall { request, pool_addr: Some(registered), pool: Some(pool) };
    assert(redirect_call_result(anchor@, *rule) matches Ok(v) && call@ =~= v);
    Ok(call)
}

/// Plan the insertion of one scrub rule into an anchor.
pub fn plan_scrub_call(anchor: &[u8], rule: &ScrubRule) -> (r: Result<PlannedRuleCall, PfError>)
    ensures
        match r {
            Ok(call) => Ok::<_, PfError>(call@) == scrub_call_result(anchor@, *rule),
            Err(e) => scrub_call_result(anchor@, *rule) == Err::<PlannedRuleCallV, _>(e),
        },
{
    let mut request = wire::RuleRequest::zeroed();
    request.action = wire::PF_CHANGE_NONE;
    match write_cstr(anchor, &mut request.anchor) {
        Ok(()) => {},
        Err(e) => {
            return Err(PfError::InvalidAnchorName(e));
        },
    }
    rule.try_copy_to(&mut request.rule)?;
    let call = PlannedRuleCall { request, pool_addr: None, pool: None };
    assert(scrub_call_result(anchor@, *rule) matches Ok(v) && call@ =~= v);
    Ok(call)
}

/// The views of the calls of one planned group.
pub open spec fn group_calls_view(group: Vec<PlannedRuleCall>) -> Seq<PlannedRuleCallV> {
    Seq::new(group@.len(), |k: int| group@[k]@)
}

/// Whether a planned group carries exactly the staged filter rules of one
/// anchor, each planned as `filter_call_result` says.
pub open spec fn filter_group_ok(staged: (Seq<u8>, Seq<FilterRule>), calls: Seq<PlannedRuleCallV>) -> bool {
    &&& calls.len() == staged.1.len()
    &&& forall|k: int|
        0 <= k < calls.len() ==> Ok::<_, PfError>(#[trigger] calls[k]) == filter_call_result(
            staged.0,
            staged.1[k],
        )
}

/// Whether a planned group carries exactly the staged NAT rules of one
/// anchor.
pub open spec fn nat_group_ok(staged: (Seq<u8>, Seq<NatRule>), calls: Seq<PlannedRuleCallV>) -> bool {
    &&& calls.len() == staged.1.len()
    &&& forall|k: int|
        0 <= k < calls.len() ==> Ok::<_, PfError>(#[trigger] calls[k]) == nat_call_result(
            staged.0,
            staged.1[k],
        )
}

/// Whether a planned group carries exactly the staged redirect rules of
/// one anchor.
pub open spec fn redirect_group_ok(
    staged: (Seq<u8>, Seq<RedirectRule>),
    calls: Seq<PlannedRuleCallV>,
) -> bool {
    &&& calls.len() == staged.1.len()
    &&& forall|k: int|
        0 <= k < calls.len() ==> Ok::<_, PfError>(#[trigger] calls[k]) == redirect_call_result(
            staged.0,
            staged.1[k],
        )
}

/// Whether a planned group carries exactly the staged scrub rules of one
/// anchor.
pub open spec fn scrub_group_ok(staged: (Seq<u8>, Seq<ScrubRule>), calls: Seq<PlannedRuleCallV>) -> bool {
    &&& calls.len() == staged.1.len()
    &&& forall|k: int|
        0 <= k < calls.len() ==> Ok::<_, PfError>(#[trigger] calls[k]) == scrub_call_result(
            staged.0,
            staged.1[k],
        )
}

/// Whether planning the given staged change can fail with the error `e`:
/// one of its anchor-name encodings or one of its rules' plans yields `e`.
pub open spec fn change_error(c: (Vec<u8>, AnchorChange), e: PfError) -> bool {
    ||| (c.1.filter_rules matches Some(rules) && (trans_element_encoding(
        c.0@,
        RulesetKind::Filter,
    ) == Err::<wire::TransElementV, _>(e) || exists|k: int|
        0 <= k < rules@.len() && filter_call_result(c.0@, #[trigger] rules@[k]) == Err::<
            PlannedRuleCallV,
            _,
        >(e)))
    ||| (c.1.nat_rules matches Some(rules) && (trans_element_encoding(c.0@, RulesetKind::Nat)
        == Err::<wire::TransElementV, _>(e) || exists|k: int|
        0 <= k < rules@.len() && nat_call_result(c.0@, #[trigger] rules@[k]) == Err::<
            PlannedRuleCallV,
            _,
        >(e)))
    ||| (c.1.redirect_rules matches Some(rules) && (trans_element_encoding(
        c.0@,
        RulesetKind::Redirect,
    ) == Err::<wire::TransElementV, _>(e) || exists|k: int|
        0 <= k < rules@.len() && redirect_call_result(c.0@, #[trigger] rules@[k]) == Err::<
            PlannedRuleCallV,
            _,
        >(e)))
    ||| (c.1.scrub_rules matches Some(rules) && (trans_element_encoding(
        c.0@,
        RulesetKind::Scrub,
    ) == Err::<wire::TransElementV, _>(e) || exists|k: int|
        0 <= k < rules@.len() && scrub_call_result(c.0@, #[trigger] rules@[k]) == Err::<
            PlannedRuleCallV,
            _,
        >(e)))
}

/// Plan one anchor's staged filter rules, in order; the first rule that
/// cannot be planned fails the group with its error.
fn plan_filter_group(name: &[u8], rules: &Vec<FilterRule>) -> (r: Result<
    Vec<PlannedRuleCall>,
    PfError,
>)
    ensures
        match r {
            Ok(group) => filter_group_ok((name@, rules@), group_calls_view(group)),
            Err(e) => exists|k: int|
                0 <= k < rules@.len() && filter_call_result(name@, #[trigger] rules@[k]) == Err::<
                    PlannedRuleCallV,
                    _,
                >(e),
        },
{
    let mut group: Vec<PlannedRuleCall> = Vec::new();
    let mut k: usize = 0;
    while k < rules.len()
        invariant
            k <= rules@.len(),
            group@.len() == k,
            forall|j: int|
                0 <= j < k ==> Ok::<_, PfError>((#[trigger] group@[j])@) == filter_call_result(
                    name@,
                    rules@[j],
                ),
        decreases rules@.len() - k,
    {
        let call = plan_filter_call(name, &rules[k])?;
        group.push(call);
        k += 1;
    }
    assert(filter_group_ok((name@, rules@), group_calls_view(group)));
    Ok(group)
}

/// Plan one anchor's staged NAT rules, in order.
fn plan_nat_group(name: &[u8], rules: &Vec<NatRule>) -> (r: Result<Vec<PlannedRuleCall>, PfError>)
    ensures
        match r {
            Ok(group) => nat_group_ok((name@, rules@), group_calls_view(group)),
            Err(e) => exists|k: int|
                0 <= k < rules@.len() && nat_call_result(name@, #[trigger] rules@[k]) == Err::<
                    PlannedRuleCallV,
                    _,
                >(e),
        },
{
    let mut group: Vec<PlannedRuleCall> = Vec::new();
    let mut k: usize = 0;
    while k < rules.len()
        invariant
            k <= rules@.len(),
            group@.len() == k,
            forall|j: int|
                0 <= j < k ==> Ok::<_, PfError>((#[trigger] group@[j])@) == nat_call_result(
                    name@,
                    rules@[j],
                ),
        decreases rules@.len() - k,
    {
        let call = plan_nat_call(name, &rules[k])?;
        group.push(call);
        k += 1;
    }
    assert(nat_group_ok((name@, rules@), group_calls_view(group)));
    Ok(group)
}

/// Plan one anchor's staged redirect rules, in order.
fn plan_redirect_group(name: &[u8], rules: &Vec<RedirectRule>) -> (r: Result<
    Vec<PlannedRuleCall>,
    PfError,
>)
    ensures
        match r {
            Ok(group) => redirect_group_ok((name@, rules@), group_calls_view(group)),
            Err(e) => exists|k: int|
                0 <= k < rules@.len() && redirect_call_result(name@, #[trigger] rules@[k])
                    == Err::<PlannedRuleCallV, _>(e),
        },
{
    let mut group: Vec<PlannedRuleCall> = Vec::new();
    let mut k: usize = 0;
    while k < rules.len()
        invariant
            k <= rules@.len(),
            group@.len() == k,
            forall|j: int|
                0 <= j < k ==> Ok::<_, PfError>((#[trigger] group@[j])@) == redirect_call_result(
                    name@,
                    rules@[j],
                ),
        decreases rules@.len() - k,
    {
        let call = plan_redirect_call(name, &rules[k])?;
        group.push(call);
        k += 1;
    }
    assert(redirect_group_ok((name@, rules@), group_calls_view(group)));
    Ok(group)
}

/// Plan one anchor's staged scrub rules, in order.
fn plan_scrub_group(name: &[u8], rules: &Vec<ScrubRule>) -> (r: Result<
    Vec<PlannedRuleCall>,
    PfError,
>)
    ensures
        match r {
            Ok(group) => scrub_group_ok((name@, rules@), group_calls_view(group)),
            Err(e) => exists|k: int|
                0 <= k < rules@.len() && scrub_call_result(name@, #[trigger] rules@[k]) == Err::<
                    PlannedRuleCallV,
                    _,
                >(e),
        },
{
    let mut group: Vec<PlannedRuleCall> = Vec::new();
    let mut k: usize = 0;
    while k < rules.len()
        invariant
            k <= rules@.len(),
            group@.len() == k,
            forall|j: int|
                0 <= j < k ==> Ok::<_, PfError>((#[trigger] group@[j])@) == scrub_call_result(
                    name@,
                    rules@[j],
                ),
        decreases rules@.len() - k,
    {
        let call = plan_scrub_call(name, &rules[k])?;
        group.push(call);
        k += 1;
    }
    assert(scrub_group_ok((name@, rules@), group_calls_view(group)));
    Ok(group)
}

/// Append one transaction element and one planned group for every anchor
/// with a staged filter replacement, in staging order.
fn plan_filter_phase(
    changes: &Vec<(Vec<u8>, AnchorChange)>,
    elements: &mut Vec<wire::TransElement>,
    groups: &mut Vec<Vec<PlannedRuleCall>>,
) -> (r: Result<(), PfError>)
    ensures
        r is Ok ==> {
            &&& final(elements)@.len() == old(elements)@.len() + filter_staged(changes@).len()
            &&& final(groups)@.len() == old(groups)@.len() + filter_staged(changes@).len()
            &&& forall|i: int|
                0 <= i < old(elements)@.len() ==> final(elements)@[i] == (#[trigger] old(
                    elements,
                )@[i])
            &&& forall|i: int|
                0 <= i < old(groups)@.len() ==> final(groups)@[i] == (#[trigger] old(groups)@[i])
            &&& forall|i: int|
                0 <= i < filter_staged(changes@).len() ==> Ok::<_, PfError>(
                    (#[trigger] final(elements)@[old(elements)@.len() + i])@,
                ) == trans_element_encoding(filter_staged(changes@)[i].0, RulesetKind::Filter)
            &&& forall|i: int|
                0 <= i < filter_staged(changes@).len() ==> filter_group_ok(
                    #[trigger] filter_staged(changes@)[i],
                    group_calls_view(final(groups)@[old(groups)@.len() + i]),
                )
        },
        r is Err ==> exists|t: int|
            0 <= t < changes@.len() && change_error(#[trigger] changes@[t], r->Err_0),
{
    let ghost elements0 = elements@;
    let ghost groups0 = groups@;
    let mut t: usize = 0;
    while t < changes.len()
        invariant
            t <= changes@.len(),
            elements@.len() == elements0.len() + filter_staged(changes@.take(t as int)).len(),
            groups@.len() == groups0.len() + filter_staged(changes@.take(t as int)).len(),
            forall|i: int| 0 <= i < elements0.len() ==> elements@[i] == (#[trigger] elements0[i]),
            forall|i: int| 0 <= i < groups0.len() ==> groups@[i] == (#[trigger] groups0[i]),
            forall|i: int|
                0 <= i < filter_staged(changes@.take(t as int)).len() ==> Ok::<_, PfError>(
                    (#[trigger] elements@[elements0.len() + i])@,
                ) == trans_element_encoding(
                    filter_staged(changes@.take(t as int))[i].0,
                    RulesetKind::Filter,
                ),
            forall|i: int|
                0 <= i < filter_staged(changes@.take(t as int)).len() ==> filter_group_ok(
                    #[trigger] filter_staged(changes@.take(t as int))[i],
                    group_calls_view(groups@[groups0.len() + i]),
                ),
        decreases changes@.len() - t,
    {
        let ghost pre = filter_staged(changes@.take(t as int));
        proof {
            assert(changes@.take(t as int + 1).drop_last() =~= changes@.take(t as int));
            assert(changes@.take(t as int + 1).last() == changes@[t as int]);
        }
        match &changes[t].1.filter_rules {
            Some(rules) => {
                let element = match new_trans_element(
                    changes[t].0.as_slice(),
                    RulesetKind::Filter,
                ) {
                    Ok(element) => element,
                    Err(e) => {
                        assert(change_error(changes@[t as int], e));
                        return Err(e);
                    },
                };
                let group = match plan_filter_group(changes[t].0.as_slice(), rules) {
                    Ok(group) => group,
                    Err(e) => {
                        assert(change_error(changes@[t as int], e));
                        return Err(e);
                    },
                };
                elements.push(element);
                groups.push(group);
                t += 1;
                proof {
                    assert(filter_staged(changes@.take(t as int)) =~= pre.push(
                        (changes@[t as int - 1].0@, changes@[t as int - 1].1.filter_rules->Some_0@),
                    ));
                }
            },
            None => {
                t += 1;
                proof {
                    assert(filter_staged(changes@.take(t as int)) =~= pre);
                }
            },
        }
    }
    proof {
        assert(changes@.take(changes@.len() as int) =~= changes@);
    }
    Ok(())
}

/// Append one transaction element and one planned group for every anchor
/// with a staged NAT replacement, in staging order.
fn plan_nat_phase(
    changes: &Vec<(Vec<u8>, AnchorChange)>,
    elements: &mut Vec<wire::TransElement>,
    groups: &mut Vec<Vec<PlannedRuleCall>>,
) -> (r: Result<(), PfError>)
    ensures
        r is Ok ==> {
            &&& final(elements)@.len() == old(elements)@.len() + nat_staged(changes@).len()
            &&& final(groups)@.len() == old(groups)@.len() + nat_staged(changes@).len()
            &&& forall|i: int|
                0 <= i < old(elements)@.len() ==> final(elements)@[i] == (#[trigger] old(
                    elements,
                )@[i])
            &&& forall|i: int|
                0 <= i < old(groups)@.len() ==> final(groups)@[i] == (#[trigger] old(groups)@[i])
            &&& forall|i: int|
                0 <= i < nat_staged(changes@).len() ==> Ok::<_, PfError>(
                    (#[trigger] final(elements)@[old(elements)@.len() + i])@,
                ) == trans_element_encoding(nat_staged(changes@)[i].0, RulesetKind::Nat)
            &&& forall|i: int|
                0 <= i < nat_staged(changes@).len() ==> nat_group_ok(
                    #[trigger] nat_staged(changes@)[i],
                    group_calls_view(final(groups)@[old(groups)@.len() + i]),
                )
        },
        r is Err ==> exists|t: int|
            0 <= t < changes@.len() && change_error(#[trigger] changes@[t], r->Err_0),
{
    let ghost elements0 = elements@;
    let ghost groups0 = groups@;
    let mut t: usize = 0;
    while t < changes.len()
        invariant
            t <= changes@.len(),
            elements@.len() == elements0.len() + nat_staged(changes@.take(t as int)).len(),
            groups@.len() == groups0.len() + nat_staged(changes@.take(t as int)).len(),
            forall|i: int| 0 <= i < elements0.len() ==> elements@[i] == (#[trigger] elements0[i]),
            forall|i: int| 0 <= i < groups0.len() ==> groups@[i] == (#[trigger] groups0[i]),
            forall|i: int|
                0 <= i < nat_staged(changes@.take(t as int)).len() ==> Ok::<_, PfError>(
                    (#[trigger] elements@[elements0.len() + i])@,
                ) == trans_element_encoding(
                    nat_staged(changes@.take(t as int))[i].0,
                    RulesetKind::Nat,
                ),
            forall|i: int|
                0 <= i < nat_staged(changes@.take(t as int)).len() ==> nat_group_ok(
                    #[trigger] nat_staged(changes@.take(t as int))[i],
                    group_calls_view(groups@[groups0.len() + i]),
                ),
        decreases changes@.len() - t,
    {
        let ghost pre = nat_staged(changes@.take(t as int));
        proof {
            assert(changes@.take(t as int + 1).drop_last() =~= changes@.take(t as int));
            assert(changes@.take(t as int + 1).last() == changes@[t as int]);
        }
        match &changes[t].1.nat_rules {
            Some(rules) => {
                let element = match new_trans_element(
                    changes[t].0.as_slice(),
                    RulesetKind::Nat,
                ) {
                    Ok(element) => element,
                    Err(e) => {
                        assert(change_error(changes@[t as int], e));
                        return Err(e);
                    },
                };
                let group = match plan_nat_group(changes[t].0.as_slice(), rules) {
                    Ok(group) => group,
                    Err(e) => {
                        assert(change_error(changes@[t as int], e));
                        return Err(e);
                    },
                };
                elements.push(element);
                groups.push(group);
                t += 1;
                proof {
                    assert(nat_staged(changes@.take(t as int)) =~= pre.push(
                        (changes@[t as int - 1].0@, changes@[t as int - 1].1.nat_rules->Some_0@),
                    ));
                }
            },
            None => {
                t += 1;
                proof {
                    assert(nat_staged(changes@.take(t as int)) =~= pre);
                }
            },
        }
    }
    proof {
        assert(changes@.take(changes@.len() as int) =~= changes@);
    }
    Ok(())
}

/// Append one transaction element and one planned group for every anchor
/// with a staged redirect replacement, in staging order.
fn plan_redirect_phase(
    changes: &Vec<(Vec<u8>, AnchorChange)>,
    elements: &mut Vec<wire::TransElement>,
    groups: &mut Vec<Vec<PlannedRuleCall>>,
) -> (r: Result<(), PfError>)
    ensures
        r is Ok ==> {
            &&& final(elements)@.len() == old(elements)@.len() + redirect_staged(changes@).len()
            &&& final(groups)@.len() == old(groups)@.len() + redirect_staged(changes@).len()
            &&& forall|i: int|
                0 <= i < old(elements)@.len() ==> final(elements)@[i] == (#[trigger] old(
                    elements,
                )@[i])
            &&& forall|i: int|
                0 <= i < old(groups)@.len() ==> final(groups)@[i] == (#[trigger] old(groups)@[i])
            &&& forall|i: int|
                0 <= i < redirect_staged(changes@).len() ==> Ok::<_, PfError>(
                    (#[trigger] final(elements)@[old(elements)@.len() + i])@,
                ) == trans_element_encoding(redirect_staged(changes@)[i].0, RulesetKind::Redirect)
            &&& forall|i: int|
                0 <= i < redirect_staged(changes@).len() ==> redirect_group_ok(
                    #[trigger] redirect_staged(changes@)[i],
                    group_calls_view(final(groups)@[old(groups)@.len() + i]),
                )
        },
        r is Err ==> exists|t: int|
            0 <= t < changes@.len() && change_error(#[trigger] changes@[t], r->Err_0),
{
    let ghost elements0 = elements@;
    let ghost groups0 = groups@;
    let mut t: usize = 0;
    while t < changes.len()
        invariant
            t <= changes@.len(),
            elements@.len() == elements0.len() + redirect_staged(changes@.take(t as int)).len(),
            groups@.len() == groups0.len() + redirect_staged(changes@.take(t as int)).len(),
            forall|i: int| 0 <= i < elements0.len() ==> elements@[i] == (#[trigger] elements0[i]),
            forall|i: int| 0 <= i < groups0.len() ==> groups@[i] == (#[trigger] groups0[i]),
            forall|i: int|
                0 <= i < redirect_staged(changes@.take(t as int)).len() ==> Ok::<_, PfError>(
                    (#[trigger] elements@[elements0.len() + i])@,
                ) == trans_element_encoding(
                    redirect_staged(changes@.take(t as int))[i].0,
                    RulesetKind::Redirect,
                ),
            forall|i: int|
                0 <= i < redirect_staged(changes@.take(t as int)).len() ==> redirect_group_ok(
                    #[trigger] redirect_staged(changes@.take(t as int))[i],
                    group_calls_view(groups@[groups0.len() + i]),
                ),
        decreases changes@.len() - t,
    {
        let ghost pre = redirect_staged(changes@.take(t as int));
        proof {
            assert(changes@.take(t as int + 1).drop_last() =~= changes@.take(t as int));
            assert(changes@.take(t as int + 1).last() == changes@[t as int]);
        }
        match &changes[t].1.redirect_rules {
            Some(rules) => {
                let element = match new_trans_element(
                    changes[t].0.as_slice(),
                    RulesetKind::Redirect,
                ) {
                    Ok(element) => element,
                    Err(e) => {
                        assert(change_error(changes@[t as int], e));
                        return Err(e);
                    },
                };
                let group = match plan_redirect_group(changes[t].0.as_slice(), rules) {
                    Ok(group) => group,
                    Err(e) => {
                        assert(change_error(changes@[t as int], e));
                        return Err(e);
                    },
                };
                elements.push(element);
                groups.push(group);
                t += 1;
                proof {
                    assert(redirect_staged(changes@.take(t as int)) =~= pre.push(
                        (changes@[t as int - 1].0@, changes@[t as int - 1].1.redirect_rules->Some_0@),
                    ));
                }
            },
            None => {
                t += 1;
                proof {
                    assert(redirect_staged(changes@.take(t as int)) =~= pre);
                }
            },
        }
    }
    proof {
        assert(changes@.take(changes@.len() as int) =~= changes@);
    }
    Ok(())
}

/// Append one transaction element and one planned group for every anchor
/// with a staged scrub replacement, in staging order.
fn plan_scrub_phase(
    changes: &Vec<(Vec<u8>, AnchorChange)>,
    elements: &mut Vec<wire::TransElement>,
    groups: &mut Vec<Vec<PlannedRuleCall>>,
) -> (r: Result<(), PfError>)
    ensures
        r is Ok ==> {
            &&& final(elements)@.len() == old(elements)@.len() + scrub_staged(changes@).len()
            &&& final(groups)@.len() == old(groups)@.len() + scrub_staged(changes@).len()
            &&& forall|i: int|
                0 <= i < old(elements)@.len() ==> final(elements)@[i] == (#[trigger] old(
                    elements,
                )@[i])
            &&& forall|i: int|
                0 <= i < old(groups)@.len() ==> final(groups)@[i] == (#[trigger] old(groups)@[i])
            &&& forall|i: int|
                0 <= i < scrub_staged(changes@).len() ==> Ok::<_, PfError>(
                    (#[trigger] final(elements)@[old(elements)@.len() + i])@,
                ) == trans_element_encoding(scrub_staged(changes@)[i].0, RulesetKind::Scrub)
            &&& forall|i: int|
                0 <= i < scrub_staged(changes@).len() ==> scrub_group_ok(
                    #[trigger] scrub_staged(changes@)[i],
                    group_calls_view(final(groups)@[old(groups)@.len() + i]),
                )
        },
        r is Err ==> exists|t: int|
            0 <= t < changes@.len() && change_error(#[trigger] changes@[t], r->Err_0),
{
    let ghost elements0 = elements@;
    let ghost groups0 = groups@;
    let mut t: usize = 0;
    while t < changes.len()
        invariant
            t <= changes@.len(),
            elements@.len() == elements0.len() + scrub_staged(changes@.take(t as int)).len(),
            groups@.len() == groups0.len() + scrub_staged(changes@.take(t as int)).len(),
            forall|i: int| 0 <= i < elements0.len() ==> elements@[i] == (#[trigger] elements0[i]),
            forall|i: int| 0 <= i < groups0.len() ==> groups@[i] == (#[trigger] groups0[i]),
            forall|i: int|
                0 <= i < scrub_staged(changes@.take(t as int)).len() ==> Ok::<_, PfError>(
                    (#[trigger] elements@[elements0.len() + i])@,
                ) == trans_element_encoding(
                    scrub_staged(changes@.take(t as int))[i].0,
                    RulesetKind::Scrub,
                ),
            forall|i: int|
                0 <= i < scrub_staged(changes@.take(t as int)).len() ==> scrub_group_ok(
                    #[trigger] scrub_staged(changes@.take(t as int))[i],
                    group_calls_view(groups@[groups0.len() + i]),
                ),
        decreases changes@.len() - t,
    {
        let ghost pre = scrub_staged(changes@.take(t as int));
        proof {
            assert(changes@.take(t as int + 1).drop_last() =~= changes@.take(t as int));
            assert(changes@.take(t as int + 1).last() == changes@[t as int]);
        }
        match &changes[t].1.scrub_rules {
            Some(rules) => {
                let element = match new_trans_element(
                    changes[t].0.as_slice(),
                    RulesetKind::Scrub,
                ) {
                    Ok(element) => element,
                    Err(e) => {
                        assert(change_error(changes@[t as int], e));
                        return Err(e);
                    },
                };
                let group = match plan_scrub_group(changes[t].0.as_slice(), rules) {
                    Ok(group) => group,
                    Err(e) => {
                        assert(change_error(changes@[t as int], e));
                        return Err(e);
                    },
                };
                elements.push(element);
                groups.push(group);
                t += 1;
                proof {
                    assert(scrub_staged(changes@.take(t as int)) =~= pre.push(
                        (changes@[t as int - 1].0@, changes@[t as int - 1].1.scrub_rules->Some_0@),
                    ));
                }
            },
            None => {
                t += 1;
                proof {
                    assert(scrub_staged(changes@.take(t as int)) =~= pre);
                }
            },
        }
    }
    proof {
        assert(changes@.take(changes@.len() as int) =~= changes@);
    }
    Ok(())
}

impl Transaction {
    /// Plan the commit of everything staged: one transaction element per
    /// staged (anchor, kind) pair — filter pairs first, then NAT, redirect
    /// and scrub — and, aligned with the elements, one group of planned
    /// add-rule calls per pair, each group carrying its anchor's
    /// replacement rules in order. Planning succeeds exactly when every
    /// staged anchor name and rule can be encoded; the first failure
    /// carries some staged item's error.
    pub fn plan_commit(&self) -> (r: Result<CommitPlan, PfError>)
        ensures
            match r {
                Ok(plan) => {
                    let f = filter_staged(self.changes@);
                    let n = nat_staged(self.changes@);
                    let rd = redirect_staged(self.changes@);
                    let sc = scrub_staged(self.changes@);
                    &&& plan.elements@.len() == f.len() + n.len() + rd.len() + sc.len()
                    &&& plan.groups@.len() == plan.elements@.len()
                    &&& forall|i: int|
                        0 <= i < f.len() ==> Ok::<_, PfError>(#[trigger] plan.elements_view()[i])
                            == trans_element_encoding(f[i].0, RulesetKind::Filter)
                    &&& forall|i: int|
                        0 <= i < n.len() ==> Ok::<_, PfError>(
                            #[trigger] plan.elements_view()[f.len() + i],
                        ) == trans_element_encoding(n[i].0, RulesetKind::Nat)
                    &&& forall|i: int|
                        0 <= i < rd.len() ==> Ok::<_, PfError>(
                            #[trigger] plan.elements_view()[f.len() + n.len() + i],
                        ) == trans_element_encoding(rd[i].0, RulesetKind::Redirect)
                    &&& forall|i: int|
                        0 <= i < sc.len() ==> Ok::<_, PfError>(
                            #[trigger] plan.elements_view()[f.len() + n.len() + rd.len() + i],
                        ) == trans_element_encoding(sc[i].0, RulesetKind::Scrub)
                    &&& forall|i: int|
                        0 <= i < f.len() ==> filter_group_ok(
                            #[trigger] f[i],
                            plan.group_view(i),
                        )
                    &&& forall|i: int|
                        0 <= i < n.len() ==> nat_group_ok(
                            #[trigger] n[i],
                            plan.group_view(f.len() + i),
                        )
                    &&& forall|i: int|
                        0 <= i < rd.len() ==> redirect_group_ok(
                            #[trigger] rd[i],
                            plan.group_view(f.len() + n.len() + i),
                        )
                    &&& forall|i: int|
                        0 <= i < sc.len() ==> scrub_group_ok(
                            #[trigger] sc[i],
                            plan.group_view(f.len() + n.len() + rd.len() + i),
                        )
                },
                Err(e) => exists|t: int|
                    0 <= t < self.changes@.len() && change_error(#[trigger] self.changes@[t], e),
            },
    {
        let ghost f = filter_staged(self.changes@);
        let ghost n = nat_staged(self.changes@);
        let ghost rd = redirect_staged(self.changes@);
        let ghost sc = scrub_staged(self.changes@);
        let mut elements: Vec<wire::TransElement> = Vec::new();
        let mut groups: Vec<Vec<PlannedRuleCall>> = Vec::new();
        plan_filter_phase(&self.changes, &mut elements, &mut groups)?;
        let ghost e1 = elements@;
        let ghost g1 = groups@;
        plan_nat_phase(&self.changes, &mut elements, &mut groups)?;
        let ghost e2 = elements@;
        let ghost g2 = groups@;
        plan_redirect_phase(&self.changes, &mut elements, &mut groups)?;
        let ghost e3 = elements@;
        let ghost g3 = groups@;
        plan_scrub_phase(&self.changes, &mut elements, &mut groups)?;
        let ghost e4 = elements@;
        let ghost g4 = groups@;
        proof {
            assert(e1.len() == f.len() && g1.len() == f.len());
            assert(e2.len() == f.len() + n.len() && g2.len() == e2.len());
            assert(e3.len() == e2.len() + rd.len() && g3.len() == e3.len());
            assert(e4.len() == e3.len() + sc.len() && g4.len() == e4.len());
            assert forall|i: int|
                0 <= i < f.len() implies Ok::<_, PfError>((#[trigger] e4[i])@)
                    == trans_element_encoding(f[i].0, RulesetKind::Filter) && filter_group_ok(
                    f[i],
                    group_calls_view(g4[i]),
                ) by {
                assert(e4[i] == e3[i] && e3[i] == e2[i] && e2[i] == e1[i]);
                assert(g4[i] == g3[i] && g3[i] == g2[i] && g2[i] == g1[i]);
                assert(Ok::<_, PfError>(e1[i]@) == trans_element_encoding(
                    f[i].0,
                    RulesetKind::Filter,
                ));
                assert(filter_group_ok(f[i], group_calls_view(g1[i])));
            }
            assert forall|i: int|
                0 <= i < n.len() implies Ok::<_, PfError>((#[trigger] e4[f.len() + i])@)
                    == trans_element_encoding(n[i].0, RulesetKind::Nat) && nat_group_ok(
                    n[i],
                    group_calls_view(g4[f.len() + i]),
                ) by {
                assert(e4[f.len() + i] == e3[f.len() + i] && e3[f.len() + i] == e2[f.len() + i]);
                assert(g4[f.len() + i] == g3[f.len() + i] && g3[f.len() + i] == g2[f.len() + i]);
                assert(Ok::<_, PfError>(e2[e1.len() + i]@) == trans_element_encoding(
                    n[i].0,
                    RulesetKind::Nat,
                ));
                assert(nat_group_ok(n[i], group_calls_view(g2[g1.len() + i])));
            }
            assert forall|i: int|
                0 <= i < rd.len() implies Ok::<_, PfError>(
                    (#[trigger] e4[f.len() + n.len() + i])@,
                ) == trans_element_encoding(rd[i].0, RulesetKind::Redirect) && redirect_group_ok(
                    rd[i],
                    group_calls_view(g4[f.len() + n.len() + i]),
                ) by {
                assert(e4[f.len() + n.len() + i] == e3[f.len() + n.len() + i]);
                assert(g4[f.len() + n.len() + i] == g3[f.len() + n.len() + i]);
                assert(Ok::<_, PfError>(e3[e2.len() + i]@) == trans_element_encoding(
                    rd[i].0,
                    RulesetKind::Redirect,
                ));
                assert(redirect_group_ok(rd[i], group_calls_view(g3[g2.len() + i])));
            }
            assert forall|i: int|
                0 <= i < sc.len() implies Ok::<_, PfError>(
                    (#[trigger] e4[f.len() + n.len() + rd.len() + i])@,
                ) == trans_element_encoding(sc[i].0, RulesetKind::Scrub) && scrub_group_ok(
                    sc[i],
                    group_calls_view(g4[f.len() + n.len() + rd.len() + i]),
                ) by {
                assert(Ok::<_, PfError>(e4[e3.len() + i]@) == trans_element_encoding(
                    sc[i].0,
                    RulesetKind::Scrub,
                ));
                assert(scrub_group_ok(sc[i], group_calls_view(g4[g3.len() + i])));
            }
        }
        Ok(CommitPlan { elements, groups })
    }
}


/// How each staged list looks for a transaction holding exactly one
/// change.
proof fn lemma_singleton_staged(changes: Seq<(Vec<u8>, AnchorChange)>)
    requires
        changes.len() == 1,
    ensures
        filter_staged(changes) == (match changes[0].1.filter_rules {
            Some(rules) => seq![(changes[0].0@, rules@)],
            None => Seq::<(Seq<u8>, Seq<FilterRule>)>::empty(),
        }),
        nat_staged(changes) == (match changes[0].1.nat_rules {
            Some(rules) => seq![(changes[0].0@, rules@)],
            None => Seq::<(Seq<u8>, Seq<NatRule>)>::empty(),
        }),
        redirect_staged(changes) == (match changes[0].1.redirect_rules {
            Some(rules) => seq![(changes[0].0@, rules@)],
            None => Seq::<(Seq<u8>, Seq<RedirectRule>)>::empty(),
        }),
        scrub_staged(changes) == (match changes[0].1.scrub_rules {
            Some(rules) => seq![(changes[0].0@, rules@)],
            None => Seq::<(Seq<u8>, Seq<ScrubRule>)>::empty(),
        }),
{
    assert(changes.drop_last() =~= Seq::<(Vec<u8>, AnchorChange)>::empty());
    assert(changes.last() == changes[0]);
    assert(filter_staged(changes.drop_last()) =~= Seq::<(Seq<u8>, Seq<FilterRule>)>::empty());
    assert(nat_staged(changes.drop_last()) =~= Seq::<(Seq<u8>, Seq<NatRule>)>::empty());
    assert(redirect_staged(changes.drop_last()) =~= Seq::<(Seq<u8>, Seq<RedirectRule>)>::empty());
    assert(scrub_staged(changes.drop_last()) =~= Seq::<(Seq<u8>, Seq<ScrubRule>)>::empty());
    match changes[0].1.filter_rules {
        Some(rules) => {
            assert(filter_staged(changes) =~= seq![(changes[0].0@, rules@)]);
        },
        None => {
            assert(filter_staged(changes) =~= Seq::<(Seq<u8>, Seq<FilterRule>)>::empty());
        },
    }
    match changes[0].1.nat_rules {
        Some(rules) => {
            assert(nat_staged(changes) =~= seq![(changes[0].0@, rules@)]);
        },
        None => {
            assert(nat_staged(changes) =~= Seq::<(Seq<u8>, Seq<NatRule>)>::empty());
        },
    }
    match changes[0].1.redirect_rules {
        Some(rules) => {
            assert(redirect_staged(changes) =~= seq![(changes[0].0@, rules@)]);
        },
        None => {
            assert(redirect_staged(changes) =~= Seq::<(Seq<u8>, Seq<RedirectRule>)>::empty());
        },
    }
    match changes[0].1.scrub_rules {
        Some(rules) => {
            assert(scrub_staged(changes) =~= seq![(changes[0].0@, rules@)]);
        },
        None => {
            assert(scrub_staged(changes) =~= Seq::<(Seq<u8>, Seq<ScrubRule>)>::empty());
        },
    }
}

/// Build the one-shot plan that replaces one anchor's rules of one kind
/// with the empty list, removing them all and staging nothing else: the
/// plan holds exactly one transaction element, for that anchor and kind,
/// and its one rule group is empty. Planning the same flush again yields
/// the same plan, so committing it twice leaves the same empty rule set.
pub fn flush_plan(anchor: &str, kind: RulesetKind) -> (r: Result<CommitPlan, PfError>)
    ensures
        match r {
            Ok(plan) => {
                &&& plan.elements@.len() == 1
                &&& plan.groups@.len() == 1
                &&& Ok::<_, PfError>(plan.elements_view()[0]) == trans_element_encoding(
                    anchor.spec_bytes(),
                    kind,
                )
                &&& plan.group_view(0).len() == 0
            },
            Err(e) => trans_element_encoding(anchor.spec_bytes(), kind) == Err::<
                wire::TransElementV,
                _,
            >(e),
        },
{
    let mut trans = Transaction::new();
    let mut change = AnchorChange::new();
    match kind {
        RulesetKind::Filter => change.set_filter_rules(Vec::new()),
        RulesetKind::Nat => change.set_nat_rules(Vec::new()),
        RulesetKind::Redirect => change.set_redirect_rules(Vec::new()),
        RulesetKind::Scrub => change.set_scrub_rules(Vec::new()),
    }
    trans.add_change(anchor, change);
    proof {
        assert(trans.changes@.len() == 1);
        assert(trans.changes@.last() == trans.changes@[0]);
        assert(trans.changes@[0].0@ == anchor.spec_bytes());
        assert(trans.changes@[0].1 == change);
        lemma_singleton_staged(trans.changes@);
    }
    match trans.plan_commit() {
        Ok(plan) => {
            proof {
                let changes = trans.changes@;
                match kind {
                    RulesetKind::Filter => {
                        assert(filter_staged(changes)[0] == (
                            anchor.spec_bytes(),
                            Seq::<FilterRule>::empty(),
                        ));
                        assert(filter_group_ok(filter_staged(changes)[0], plan.group_view(0)));
                    },
                    RulesetKind::Nat => {
                        assert(nat_staged(changes)[0] == (
                            anchor.spec_bytes(),
                            Seq::<NatRule>::empty(),
                        ));
                        assert(nat_group_ok(nat_staged(changes)[0], plan.group_view(0)));
                    },
                    RulesetKind::Redirect => {
                        assert(redirect_staged(changes)[0] == (
                            anchor.spec_bytes(),
                            Seq::<RedirectRule>::empty(),
                        ));
                        assert(redirect_group_ok(redirect_staged(changes)[0], plan.group_view(0)));
                    },
                    RulesetKind::Scrub => {
                        assert(scrub_staged(changes)[0] == (
                            anchor.spec_bytes(),
                            Seq::<ScrubRule>::empty(),
                        ));
                        assert(scrub_group_ok(scrub_staged(changes)[0], plan.group_view(0)));
                    },
                }
            }
            Ok(plan)
        },
        Err(e) => {
            proof {
                let t = choose|t: int|
                    0 <= t < trans.changes@.len() && change_error(#[trigger] trans.changes@[t], e);
                assert(t == 0);
                assert(trans_element_encoding(anchor.spec_bytes(), kind) == Err::<
                    wire::TransElementV,
                    _,
                >(e));
            }
            Err(e)
        },
    }
}

} // verus!
