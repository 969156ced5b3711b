//! Raw values of the ICMP types and codes.

use pfctl::Icmp6Type;
use pfctl::IcmpTimexCode;
use pfctl::IcmpType;
use pfctl::CopyTo;
use pfctl::IcmpUnreachCode;

#[test]
fn all_codes_are_expected() {
    // Expected values taken from the codes defined in the ICMP protocol
    // documentation.

    assert_eq!(IcmpType::EchoRep.raw_code(), None);

    assert_eq!(
        IcmpType::Unreach(IcmpUnreachCode::NetUnreach).raw_code(),
        Some(0)
    );
    assert_eq!(
        IcmpType::Unreach(IcmpUnreachCode::HostUnreach).raw_code(),
        Some(1)
    );
    assert_eq!(
        IcmpType::Unreach(IcmpUnreachCode::ProtoUnreach).raw_code(),
        Some(2)
    );
    assert_eq!(
        IcmpType::Unreach(IcmpUnreachCode::PortUnreach).raw_code(),
        Some(3)
    );
    assert_eq!(
        IcmpType::Unreach(IcmpUnreachCode::NeedFrag).raw_code(),
        Some(4)
    );

    assert_eq!(IcmpType::EchoReq.raw_code(), None);

    assert_eq!(IcmpType::Timex(IcmpTimexCode::Transit).raw_code(), Some(0));
    assert_eq!(
        IcmpType::Timex(IcmpTimexCode::Reassembly).raw_code(),
        Some(1)
    );

    assert_eq!(IcmpType::Trace.raw_code(), None);

    assert_eq!(IcmpType::Icmp6(Icmp6Type::RouterSol).raw_code(), None);
    assert_eq!(IcmpType::Icmp6(Icmp6Type::RouterAdv).raw_code(), None);
    assert_eq!(IcmpType::Icmp6(Icmp6Type::NeighbrSol).raw_code(), None);
    assert_eq!(IcmpType::Icmp6(Icmp6Type::NeighbrAdv).raw_code(), None);
    assert_eq!(IcmpType::Icmp6(Icmp6Type::Redir).raw_code(), None);
}

#[test]
fn all_types_are_expected() {
    // Expected values taken from the codes defined in the ICMP protocol
    // documentation.

    assert_eq!(IcmpType::EchoRep.raw_type(), 0);

    assert_eq!(IcmpType::Unreach(IcmpUnreachCode::NetUnreach).raw_type(), 3);
    assert_eq!(
        IcmpType::Unreach(IcmpUnreachCode::HostUnreach).raw_type(),
        3
    );
    assert_eq!(
        IcmpType::Unreach(IcmpUnreachCode::ProtoUnreach).raw_type(),
        3
    );
    assert_eq!(
        IcmpType::Unreach(IcmpUnreachCode::PortUnreach).raw_type(),
        3
    );
    assert_eq!(IcmpType::Unreach(IcmpUnreachCode::NeedFrag).raw_type(), 3);

    assert_eq!(IcmpType::EchoReq.raw_type(), 8);

    assert_eq!(IcmpType::Timex(IcmpTimexCode::Transit).raw_type(), 11);
    assert_eq!(IcmpType::Timex(IcmpTimexCode::Reassembly).raw_type(), 11);

    assert_eq!(IcmpType::Trace.raw_type(), 30);

    assert_eq!(IcmpType::Icmp6(Icmp6Type::RouterSol).raw_type(), 133);
    assert_eq!(IcmpType::Icmp6(Icmp6Type::RouterAdv).raw_type(), 134);
    assert_eq!(IcmpType::Icmp6(Icmp6Type::NeighbrSol).raw_type(), 135);
    assert_eq!(IcmpType::Icmp6(Icmp6Type::NeighbrAdv).raw_type(), 136);
    assert_eq!(IcmpType::Icmp6(Icmp6Type::Redir).raw_type(), 137);
}

#[test]
fn icmp_rule_bytes_are_one_above_raw() {
    let mut raw = pfctl::wire::RawRule::zeroed();
    IcmpType::Unreach(IcmpUnreachCode::PortUnreach).copy_to(&mut raw);
    assert_eq!(raw.icmp_type, 4);
    assert_eq!(raw.icmp_code, 4);

    let mut raw = pfctl::wire::RawRule::zeroed();
    IcmpType::EchoReq.copy_to(&mut raw);
    assert_eq!(raw.icmp_type, 9);
    assert_eq!(raw.icmp_code, 0);
}
