//! Error classification, the busy-retry policy, and the single-call
//! request builders of the controller operations.

use pfctl::utils::anchor_rule_request;
use pfctl::utils::classify_errno;
use pfctl::utils::ignore_already_active;
use pfctl::utils::ignore_anchor_does_not_exist;
use pfctl::utils::is_enabled_from_status;
use pfctl::utils::set_tickets;
use pfctl::utils::should_retry;
use pfctl::utils::ticket_request;
use pfctl::utils::BUSY_RETRY_ATTEMPTS;
use pfctl::utils::EBUSY;
use pfctl::utils::EEXIST;
use pfctl::utils::ENOENT;
use pfctl::AnchorKind;
use pfctl::TryCopyTo;
use pfctl::BufferError;
use pfctl::PfError;

#[test]
fn eexist_means_already_active() {
    assert_eq!(classify_errno(EEXIST, EEXIST), PfError::StateAlreadyActive);
    assert_eq!(classify_errno(13, EEXIST), PfError::Ioctl(13));
}

#[test]
fn enoent_on_stop_means_already_inactive() {
    // stopping an already-stopped firewall reports "no such entry"
    assert_eq!(classify_errno(ENOENT, ENOENT), PfError::StateAlreadyActive);
    assert_eq!(classify_errno(EEXIST, ENOENT), PfError::Ioctl(EEXIST));
}

#[test]
fn adding_the_same_anchor_twice_conflicts() {
    // both calls issue the identical request; the kernel answers the second
    // with "exists", which classifies as StateAlreadyActive, and the try
    // variant suppresses exactly that
    let first = anchor_rule_request("test.anchor", AnchorKind::Filter).unwrap();
    let second = anchor_rule_request("test.anchor", AnchorKind::Filter).unwrap();
    assert_eq!(first, second);

    let second_result: Result<(), PfError> = Err(classify_errno(EEXIST, EEXIST));
    assert_eq!(second_result, Err(PfError::StateAlreadyActive));
    assert_eq!(ignore_already_active(second_result), Ok(()));
    assert_eq!(
        ignore_already_active(Err(PfError::Ioctl(13))),
        Err(PfError::Ioctl(13))
    );
}

#[test]
fn removing_a_missing_anchor_reports_and_suppresses() {
    let missing: Result<(), PfError> = Err(PfError::AnchorDoesNotExist);
    assert_eq!(ignore_anchor_does_not_exist(missing), Ok(()));
    assert_eq!(
        ignore_anchor_does_not_exist(Err(PfError::StateAlreadyActive)),
        Err(PfError::StateAlreadyActive)
    );
}

#[test]
fn busy_calls_retry_up_to_the_ceiling() {
    let busy: Result<(), PfError> = Err(PfError::Ioctl(EBUSY));
    for attempt in 0..BUSY_RETRY_ATTEMPTS {
        assert!(should_retry(&busy, attempt));
    }
    assert!(!should_retry(&busy, BUSY_RETRY_ATTEMPTS));
    assert!(!should_retry(&Err(PfError::Ioctl(13)), 0));
    assert!(!should_retry(&Ok(()), 0));
}

#[test]
fn status_running_field_reports_enabled() {
    assert!(is_enabled_from_status(1));
    assert!(!is_enabled_from_status(0));
    assert!(!is_enabled_from_status(2));
}

#[test]
fn anchor_rule_request_marks_the_kind() {
    let request = anchor_rule_request("my.anchor", AnchorKind::Redirect).unwrap();
    assert_eq!(request.rule.action, 8);
    assert_eq!(&request.anchor_call[..10], b"my.anchor\0");
    assert_eq!(request.action, 0);

    let request = anchor_rule_request("my.anchor", AnchorKind::Scrub).unwrap();
    assert_eq!(request.rule.action, 2);
}

#[test]
fn ticket_request_asks_for_a_ticket() {
    let request = ticket_request("my.anchor", AnchorKind::Filter).unwrap();
    assert_eq!(request.action, 6);
    assert_eq!(request.rule.action, 0);
    assert_eq!(&request.anchor[..10], b"my.anchor\0");
    assert_eq!(request.ticket, 0);
}

#[test]
fn tickets_are_set_without_touching_the_rest() {
    let mut request = ticket_request("my.anchor", AnchorKind::Filter).unwrap();
    let anchor_before = request.anchor.clone();
    set_tickets(&mut request, 42, 7);
    assert_eq!(request.ticket, 42);
    assert_eq!(request.pool_ticket, 7);
    assert_eq!(request.anchor, anchor_before);
}

#[test]
fn embedded_nul_in_anchor_name_is_rejected() {
    assert_eq!(
        anchor_rule_request("bad\0name", AnchorKind::Filter),
        Err(PfError::InvalidAnchorName(BufferError::EmbeddedNul))
    );
}

#[test]
fn interface_description_decodes_name_and_flags() {
    let buffer = b"en0\0\0\0\0\0\0\0\0\0\0\0\0\0".to_vec();
    let description =
        pfctl::InterfaceDescription::try_from_kif(buffer.as_slice(), 256).unwrap();
    assert_eq!(description.name, b"en0".to_vec());
    assert!(description.flags.has_skip());

    let unterminated = b"0123456789abcdef".to_vec();
    assert_eq!(
        pfctl::InterfaceDescription::try_from_kif(unterminated.as_slice(), 0),
        Err(PfError::UnterminatedString)
    );
}

#[test]
fn oversized_interface_name_is_rejected_in_rules() {
    let rule = pfctl::FilterRuleBuilder::default()
        .action(pfctl::FilterRuleAction::Pass)
        .interface("far-too-long-interface-name")
        .build()
        .unwrap();
    let mut raw = pfctl::wire::RawRule::zeroed();
    assert_eq!(
        rule.try_copy_to(&mut raw),
        Err(PfError::InvalidInterfaceName(BufferError::DoesNotFit))
    );
}

#[test]
fn oversized_label_is_rejected_in_rules() {
    let long_label: String = "y".repeat(100);
    let rule = pfctl::FilterRuleBuilder::default()
        .action(pfctl::FilterRuleAction::Pass)
        .label(&long_label)
        .build()
        .unwrap();
    let mut raw = pfctl::wire::RawRule::zeroed();
    assert_eq!(
        rule.try_copy_to(&mut raw),
        Err(PfError::InvalidLabel(BufferError::DoesNotFit))
    );
}
