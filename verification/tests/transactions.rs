//! Transaction staging, commit planning, and the one-shot paths.

use pfctl::transaction::flush_plan;
use pfctl::AnchorChange;
use pfctl::Endpoint;
use pfctl::FilterRuleAction;
use pfctl::FilterRuleBuilder;
use pfctl::Ipv4Address;
use pfctl::NatRuleAction;
use pfctl::NatRuleBuilder;
use pfctl::Port;
use pfctl::PortUnaryModifier;
use pfctl::Proto;
use pfctl::RedirectRuleAction;
use pfctl::RedirectRuleBuilder;
use pfctl::RulesetKind;
use pfctl::Transaction;

#[test]
fn flush_plan_stages_exactly_one_empty_pair() {
    let plan = flush_plan("test.anchor", RulesetKind::Filter).unwrap();
    assert_eq!(plan.elements.len(), 1);
    assert_eq!(plan.groups.len(), 1);
    assert_eq!(plan.elements[0].rs_num, 1);
    assert_eq!(plan.elements[0].ticket, 0);
    assert_eq!(&plan.elements[0].anchor[..12], b"test.anchor\0");
    assert!(plan.groups[0].is_empty());
}

#[test]
fn flush_plan_is_idempotent() {
    // planning the same flush twice yields the same requests, so the second
    // commit replaces the already-empty rule set with the empty set again
    let first = flush_plan("test.anchor", RulesetKind::Redirect).unwrap();
    let second = flush_plan("test.anchor", RulesetKind::Redirect).unwrap();
    assert_eq!(first, second);
    assert_eq!(first.elements[0].rs_num, 4);
    assert!(first.groups[0].is_empty());
}

#[test]
fn commit_plan_orders_kinds_and_groups() {
    let filter_rule = FilterRuleBuilder::default()
        .action(FilterRuleAction::Pass)
        .build()
        .unwrap();
    let drop_rule = FilterRuleBuilder::default()
        .action(FilterRuleAction::Pass)
        .quick(true)
        .build()
        .unwrap();
    let redirect_rule = RedirectRuleBuilder::default()
        .action(RedirectRuleAction::Redirect)
        .to(Endpoint::from_port(Port::from_port(1337)))
        .redirect_to(Endpoint::from_port(Port::from_port(1338)))
        .build()
        .unwrap();

    let mut change = AnchorChange::new();
    change.set_filter_rules(vec![filter_rule, drop_rule]);
    change.set_redirect_rules(vec![redirect_rule]);

    let mut trans = Transaction::new();
    trans.add_change("test.anchor", change);
    let plan = trans.plan_commit().unwrap();

    // filter element first, then redirect; one group per element
    assert_eq!(plan.elements.len(), 2);
    assert_eq!(plan.elements[0].rs_num, 1);
    assert_eq!(plan.elements[1].rs_num, 4);
    assert_eq!(plan.groups.len(), 2);
    assert_eq!(plan.groups[0].len(), 2);
    assert_eq!(plan.groups[1].len(), 1);

    // the group requests carry the anchor and the encoded rules
    let first = &plan.groups[0][0];
    assert_eq!(&first.request.anchor[..12], b"test.anchor\0");
    assert_eq!(first.request.rule.action, 0);
    assert_eq!(first.request.ticket, 0);
    assert!(first.pool_addr.is_none());
    let second = &plan.groups[0][1];
    assert_eq!(second.request.rule.quick, 1);

    // the redirect call registers its target and carries its ports
    let rdr = &plan.groups[1][0];
    assert!(rdr.pool_addr.is_some());
    let pool = rdr.pool.as_ref().unwrap();
    assert_eq!(pool.entries.len(), 1);
    assert_eq!(rdr.request.rule.rpool.proxy_port_first, 1338);
    assert_eq!(rdr.request.rule.rpool.port_op, 2);
}

#[test]
fn add_change_replaces_prior_change_for_same_anchor() {
    let mut first = AnchorChange::new();
    first.set_filter_rules(Vec::new());
    let mut second = AnchorChange::new();
    second.set_scrub_rules(Vec::new());

    let mut trans = Transaction::new();
    trans.add_change("a", first);
    trans.add_change("b", AnchorChange::new());
    trans.add_change("a", second);

    assert_eq!(trans.changes.len(), 2);
    let plan = trans.plan_commit().unwrap();
    // the replacement dropped the filter flush and staged a scrub flush
    assert_eq!(plan.elements.len(), 1);
    assert_eq!(plan.elements[0].rs_num, 0);
}

#[test]
fn nat_plan_carries_translation_target_and_default_ports() {
    let nat_rule = NatRuleBuilder::default()
        .action(NatRuleAction::Nat {
            nat_to: pfctl::NatEndpoint::from_ip(pfctl::Ip::from_ipv4(Ipv4Address::new(
                127, 0, 0, 1,
            ))),
        })
        .build()
        .unwrap();
    let mut change = AnchorChange::new();
    change.set_nat_rules(vec![nat_rule]);
    let mut trans = Transaction::new();
    trans.add_change("nat.anchor", change);
    let plan = trans.plan_commit().unwrap();

    assert_eq!(plan.elements.len(), 1);
    assert_eq!(plan.elements[0].rs_num, 2);
    let call = &plan.groups[0][0];
    assert_eq!(call.request.rule.action, 4);
    // the default NAT translation range in host order
    assert_eq!(call.request.rule.rpool.proxy_port_first, 32768);
    assert_eq!(call.request.rule.rpool.proxy_port_second, 49151);
    // the registered pool address holds 127.0.0.1
    let registered = call.pool_addr.as_ref().unwrap();
    let mut expected = vec![127, 0, 0, 1];
    expected.extend_from_slice(&[0u8; 12]);
    assert_eq!(registered.addr.addr, expected);
}

#[test]
fn invalid_rule_fails_the_whole_plan() {
    let bad_rule = FilterRuleBuilder::default()
        .action(FilterRuleAction::Pass)
        .keep_state(pfctl::StatePolicy::Modulate)
        .proto(Proto::Udp)
        .build()
        .unwrap();
    let mut change = AnchorChange::new();
    change.set_filter_rules(vec![bad_rule]);
    let mut trans = Transaction::new();
    trans.add_change("a", change);
    assert!(trans.plan_commit().is_err());
}

#[test]
fn oversized_anchor_name_fails_the_plan() {
    let long_name: String = "x".repeat(2000);
    let mut change = AnchorChange::new();
    change.set_filter_rules(Vec::new());
    let mut trans = Transaction::new();
    trans.add_change(&long_name, change);
    assert!(matches!(
        trans.plan_commit(),
        Err(pfctl::PfError::InvalidAnchorName(
            pfctl::BufferError::DoesNotFit
        ))
    ));
}

#[test]
fn redirect_missing_target_is_rejected_at_build() {
    let result = RedirectRuleBuilder::default()
        .action(RedirectRuleAction::Redirect)
        .build();
    assert_eq!(
        result.unwrap_err(),
        pfctl::PfError::InvalidRuleCombination(pfctl::RuleConflict::MissingRedirectTarget)
    );
}

#[test]
fn end_to_end_filter_rule_encoding() {
    // build a filter rule with action=Drop, protocol=TCP,
    // from=192.168.0.1, to=127.0.0.1, and check its encoded form
    let rule = FilterRuleBuilder::default()
        .action(FilterRuleAction::Drop(pfctl::DropAction::Drop))
        .proto(Proto::Tcp)
        .from(Endpoint::from_ipv4(Ipv4Address::new(192, 168, 0, 1)))
        .to(Endpoint::new(
            pfctl::Ip::from_ipv4(Ipv4Address::new(127, 0, 0, 1)),
            Port::One(22, PortUnaryModifier::Equal),
        ))
        .build()
        .unwrap();

    let request = pfctl::utils::add_rule_request("test.anchor", &rule).unwrap();
    let raw = &request.rule;

    // the Drop action code
    assert_eq!(raw.action, 1);
    // the TCP protocol byte
    assert_eq!(raw.proto, 6);
    // the resolved address family is IPv4
    assert_eq!(raw.af, 2);
    // source and destination address bytes in network byte order
    let mut from_bytes = vec![192, 168, 0, 1];
    from_bytes.extend_from_slice(&[0u8; 12]);
    assert_eq!(raw.src.addr.addr, from_bytes);
    let mut to_bytes = vec![127, 0, 0, 1];
    to_bytes.extend_from_slice(&[0u8; 12]);
    assert_eq!(raw.dst.addr.addr, to_bytes);
    // both hosts carry a full /32 mask
    let mut mask = vec![255, 255, 255, 255];
    mask.extend_from_slice(&[0u8; 12]);
    assert_eq!(raw.src.addr.mask, mask);
    // the destination port in network byte order
    assert_eq!(raw.dst.ports.ports, vec![0, 22, 0, 0]);
    // the request appends to the anchor
    assert_eq!(request.action, 2);
    assert_eq!(&request.anchor[..12], b"test.anchor\0");
}
