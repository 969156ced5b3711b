//! Address-family validation and state-policy validation of rules.

use pfctl::AddrFamily;
use pfctl::Endpoint;
use pfctl::FilterRuleAction;
use pfctl::FilterRuleBuilder;
use pfctl::Ipv4Address;
use pfctl::Ipv6Address;
use pfctl::PfError;
use pfctl::Proto;
use pfctl::RuleConflict;
use pfctl::StatePolicy;

fn v4_endpoint() -> Endpoint {
    Endpoint::from_ipv4(Ipv4Address::new(0, 0, 0, 0))
}

fn v6_endpoint() -> Endpoint {
    Endpoint::from_ipv6(Ipv6Address::new(0, 0, 0, 0, 0, 0, 0, 0))
}

#[test]
fn rule_correct_af_default() {
    let testee = FilterRuleBuilder::default()
        .action(FilterRuleAction::Pass)
        .build()
        .unwrap();
    assert_eq!(AddrFamily::Any, testee.get_af().unwrap());
}

#[test]
fn rule_af_incompatible_from_to() {
    let testee = FilterRuleBuilder::default().action(FilterRuleAction::Pass);
    let from4to6 = testee
        .clone()
        .from(v4_endpoint())
        .to(v6_endpoint())
        .build()
        .unwrap();
    let from6to4 = testee
        .clone()
        .from(v6_endpoint())
        .to(v4_endpoint())
        .build()
        .unwrap();
    assert!(from4to6.get_af().is_err());
    assert!(from6to4.get_af().is_err());
}

#[test]
fn rule_af_compatibility_ipv4() {
    let testee = FilterRuleBuilder::default()
        .action(FilterRuleAction::Pass)
        .from(v4_endpoint());
    assert_eq!(
        AddrFamily::Ipv4,
        testee
            .clone()
            .af(AddrFamily::Any)
            .build()
            .unwrap()
            .get_af()
            .unwrap()
    );
    assert_eq!(
        AddrFamily::Ipv4,
        testee
            .clone()
            .af(AddrFamily::Ipv4)
            .build()
            .unwrap()
            .get_af()
            .unwrap()
    );
    assert!(testee
        .clone()
        .af(AddrFamily::Ipv6)
        .build()
        .unwrap()
        .get_af()
        .is_err());
}

#[test]
fn rule_af_compatibility_ipv6() {
    let testee = FilterRuleBuilder::default()
        .action(FilterRuleAction::Pass)
        .to(v6_endpoint());
    assert_eq!(
        AddrFamily::Ipv6,
        testee
            .clone()
            .af(AddrFamily::Any)
            .build()
            .unwrap()
            .get_af()
            .unwrap()
    );
    assert_eq!(
        AddrFamily::Ipv6,
        testee
            .clone()
            .af(AddrFamily::Ipv6)
            .build()
            .unwrap()
            .get_af()
            .unwrap()
    );
    assert!(testee
        .clone()
        .af(AddrFamily::Ipv4)
        .build()
        .unwrap()
        .get_af()
        .is_err());
}

#[test]
fn mod_correct_af_default() {
    let testee = FilterRuleBuilder::default()
        .action(FilterRuleAction::Pass)
        .build()
        .unwrap();
    assert_eq!(AddrFamily::Any, testee.get_af().unwrap());
}

#[test]
fn mod_af_incompatible_from_to() {
    let testee = FilterRuleBuilder::default().action(FilterRuleAction::Pass);
    let from4to6 = testee
        .clone()
        .from(v4_endpoint())
        .to(v6_endpoint())
        .build()
        .unwrap();
    let from6to4 = testee
        .clone()
        .from(v6_endpoint())
        .to(v4_endpoint())
        .build()
        .unwrap();
    assert!(from4to6.get_af().is_err());
    assert!(from6to4.get_af().is_err());
}

#[test]
fn mod_af_compatibility_ipv4() {
    let testee = FilterRuleBuilder::default()
        .action(FilterRuleAction::Pass)
        .from(v4_endpoint());
    assert_eq!(
        AddrFamily::Ipv4,
        testee
            .clone()
            .af(AddrFamily::Any)
            .build()
            .unwrap()
            .get_af()
            .unwrap()
    );
    assert_eq!(
        AddrFamily::Ipv4,
        testee
            .clone()
            .af(AddrFamily::Ipv4)
            .build()
            .unwrap()
            .get_af()
            .unwrap()
    );
    assert!(testee
        .clone()
        .af(AddrFamily::Ipv6)
        .build()
        .unwrap()
        .get_af()
        .is_err());
}

#[test]
fn mod_af_compatibility_ipv6() {
    let testee = FilterRuleBuilder::default()
        .action(FilterRuleAction::Pass)
        .to(v6_endpoint());
    assert_eq!(
        AddrFamily::Ipv6,
        testee
            .clone()
            .af(AddrFamily::Any)
            .build()
            .unwrap()
            .get_af()
            .unwrap()
    );
    assert_eq!(
        AddrFamily::Ipv6,
        testee
            .clone()
            .af(AddrFamily::Ipv6)
            .build()
            .unwrap()
            .get_af()
            .unwrap()
    );
    assert!(testee
        .clone()
        .af(AddrFamily::Ipv4)
        .build()
        .unwrap()
        .get_af()
        .is_err());
}

#[test]
fn af_conflict_error_names_both_families() {
    let rule = FilterRuleBuilder::default()
        .action(FilterRuleAction::Pass)
        .from(v4_endpoint())
        .to(v6_endpoint())
        .build()
        .unwrap();
    assert_eq!(
        rule.get_af(),
        Err(PfError::InvalidRuleCombination(
            RuleConflict::AddrFamilyMismatch(AddrFamily::Ipv4, AddrFamily::Ipv6)
        ))
    );
}

#[test]
fn state_policy_correct_default() {
    assert_eq!(
        StatePolicy::NoState,
        FilterRuleBuilder::default()
            .action(FilterRuleAction::Pass)
            .build()
            .unwrap()
            .validate_state_policy()
            .unwrap()
    );
}

#[test]
fn state_policy_none() {
    assert_eq!(
        StatePolicy::NoState,
        FilterRuleBuilder::default()
            .action(FilterRuleAction::Pass)
            .keep_state(StatePolicy::NoState)
            .proto(Proto::Tcp)
            .build()
            .unwrap()
            .validate_state_policy()
            .unwrap()
    );
}

#[test]
fn state_policy_keep() {
    assert_eq!(
        StatePolicy::Keep,
        FilterRuleBuilder::default()
            .action(FilterRuleAction::Pass)
            .keep_state(StatePolicy::Keep)
            .proto(Proto::Tcp)
            .build()
            .unwrap()
            .validate_state_policy()
            .unwrap()
    );
}

#[test]
fn state_policy_modulate() {
    assert_eq!(
        StatePolicy::Modulate,
        FilterRuleBuilder::default()
            .action(FilterRuleAction::Pass)
            .keep_state(StatePolicy::Modulate)
            .proto(Proto::Tcp)
            .build()
            .unwrap()
            .validate_state_policy()
            .unwrap()
    );
}

#[test]
fn state_policy_incompatible_modulate() {
    assert!(FilterRuleBuilder::default()
        .action(FilterRuleAction::Pass)
        .keep_state(StatePolicy::Modulate)
        .proto(Proto::Udp)
        .build()
        .unwrap()
        .validate_state_policy()
        .is_err());
}

#[test]
fn state_policy_synproxy() {
    assert_eq!(
        StatePolicy::SynProxy,
        FilterRuleBuilder::default()
            .action(FilterRuleAction::Pass)
            .keep_state(StatePolicy::SynProxy)
            .proto(Proto::Tcp)
            .build()
            .unwrap()
            .validate_state_policy()
            .unwrap()
    );
}

#[test]
fn state_policy_incompatible_synproxy() {
    assert!(FilterRuleBuilder::default()
        .action(FilterRuleAction::Pass)
        .keep_state(StatePolicy::SynProxy)
        .proto(Proto::Udp)
        .build()
        .unwrap()
        .validate_state_policy()
        .is_err());
}

#[test]
fn state_policy_conflict_error_names_policy_and_proto() {
    let rule = FilterRuleBuilder::default()
        .action(FilterRuleAction::Pass)
        .keep_state(StatePolicy::SynProxy)
        .proto(Proto::Icmp)
        .build()
        .unwrap();
    assert_eq!(
        rule.validate_state_policy(),
        Err(PfError::InvalidRuleCombination(
            RuleConflict::StatePolicyProto(StatePolicy::SynProxy, Proto::Icmp)
        ))
    );
}

#[test]
fn build_without_action_is_rejected() {
    assert_eq!(
        FilterRuleBuilder::default().build().unwrap_err(),
        PfError::InvalidRuleCombination(RuleConflict::MissingAction)
    );
}
