//! Client-side model of the PF packet-filter control interface.
//!
//! This library holds the logic of a PF control-plane client: the validated
//! rule model (filter, NAT, redirect and scrub rules with their addresses,
//! ports, protocols, interfaces and state policies), the byte-exact encoding
//! of rules into the kernel's fixed-layout request structures, pool-address
//! list construction, two-phase transaction planning, anchor lookup, state
//! decoding, and the classification of OS error codes. Every function is
//! verified against its contract.
//!
//! The raw device I/O itself (opening the PF device and issuing the control
//! calls) is not part of this crate; a caller performs those calls with the
//! request values this library builds and checks, and hands raw kernel
//! records back to this library for decoding.

pub mod anchor;
pub mod conversion;
pub mod cstr;
pub mod errors;
pub mod net;
pub mod pooladdr;
pub mod rule;
pub mod ruleset;
pub mod state;
pub mod transaction;
pub mod utils;
pub mod wire;

pub use anchor::AnchorKind;
pub use conversion::CopyTo;
pub use conversion::TryCopyTo;
pub use errors::BufferError;
pub use errors::PfError;
pub use errors::RuleConflict;
pub use net::IpAddress;
pub use net::Ipv4Address;
pub use net::Ipv6Address;
pub use net::SocketAddress;
pub use pooladdr::PoolAddr;
pub use pooladdr::PoolAddrList;
pub use rule::addr_family::AddrFamily;
pub use rule::direction::Direction;
pub use rule::endpoint::Endpoint;
pub use rule::gid::Gid;
pub use rule::icmp::Icmp6Type;
pub use rule::icmp::IcmpTimexCode;
pub use rule::icmp::IcmpType;
pub use rule::icmp::IcmpUnreachCode;
pub use rule::interface::Interface;
pub use rule::interface::InterfaceDescription;
pub use rule::interface::InterfaceFlags;
pub use rule::interface::InterfaceName;
pub use rule::ip::Ip;
pub use rule::ip::IpNetwork;
pub use rule::ip::Ipv4Network;
pub use rule::ip::Ipv6Network;
pub use rule::port::Port;
pub use rule::port::PortRangeModifier;
pub use rule::port::PortUnaryModifier;
pub use rule::proto::Proto;
pub use rule::route::Route;
pub use rule::rule_action::DropAction;
pub use rule::rule_action::FilterRuleAction;
pub use rule::rule_action::NatRuleAction;
pub use rule::rule_action::RedirectRuleAction;
pub use rule::rule_action::ScrubRuleAction;
pub use rule::rule_log::RuleLog;
pub use rule::rule_log::RuleLogSet;
pub use rule::state_policy::StatePolicy;
pub use rule::tcp_flags::TcpFlag;
pub use rule::tcp_flags::TcpFlagSet;
pub use rule::tcp_flags::TcpFlags;
pub use rule::uid::Id;
pub use rule::uid::IdRangeModifier;
pub use rule::uid::IdUnaryModifier;
pub use rule::uid::Uid;
pub use rule::compatible_af;
pub use rule::FilterRule;
pub use rule::FilterRuleBuilder;
pub use rule::NatEndpoint;
pub use rule::NatRule;
pub use rule::NatRuleBuilder;
pub use rule::RedirectRule;
pub use rule::RedirectRuleBuilder;
pub use rule::ScrubRule;
pub use rule::ScrubRuleBuilder;
pub use ruleset::RulesetKind;
pub use state::setup_pfioc_state_kill;
pub use state::State;
pub use transaction::AnchorChange;
pub use transaction::CommitPlan;
pub use transaction::PlannedRuleCall;
pub use transaction::Transaction;
pub use utils::copy_anchor_name;
