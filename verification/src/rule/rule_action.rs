use vstd::prelude::*;

use crate::rule::NatEndpoint;

verus! {

/// Raw rule action: pass the packet (`PF_PASS`).
pub const PF_PASS: u8 = 0;

/// Raw rule action: drop the packet (`PF_DROP`).
pub const PF_DROP: u8 = 1;

/// Raw rule action: scrub the packet (`PF_SCRUB`).
pub const PF_SCRUB: u8 = 2;

/// Raw rule action: no scrub (`PF_NOSCRUB`).
pub const PF_NOSCRUB: u8 = 3;

/// Raw rule action: translate the source (`PF_NAT`).
pub const PF_NAT: u8 = 4;

/// Raw rule action: exempt from source translation (`PF_NONAT`).
pub const PF_NONAT: u8 = 5;

/// Raw rule action: redirect the destination (`PF_RDR`).
pub const PF_RDR: u8 = 8;

/// Raw rule action: exempt from redirection (`PF_NORDR`).
pub const PF_NORDR: u8 = 9;

/// Raw rule flag: drop silently (`PFRULE_DROP`).
pub const PFRULE_DROP: u32 = 0;

/// Raw rule flag: return a TCP RST packet (`PFRULE_RETURNRST`).
pub const PFRULE_RETURNRST: u32 = 1;

/// Raw rule flag: return an ICMP reject packet (`PFRULE_RETURNICMP`).
pub const PFRULE_RETURNICMP: u32 = 4;

/// Raw rule flag: return a TCP RST or ICMP reject packet
/// (`PFRULE_RETURN`).
pub const PFRULE_RETURN: u32 = 8;

/// How a dropped packet is answered.
#[derive(Clone, Copy, Debug, PartialEq, Eq, Hash, Structural)]
pub enum DropAction {
    /// Silently drop the packet.
    Drop,
    /// Return a TCP RST or ICMP reject packet.
    Return,
    /// Return a TCP RST packet.
    ReturnRst,
    /// Return an ICMP reject packet.
    ReturnIcmp,
}

impl DropAction {
    /// The raw rule-flag word this drop action encodes to.
    pub open spec fn raw(self) -> u32 {
        match self {
            DropAction::Drop => PFRULE_DROP,
            DropAction::Return => PFRULE_RETURN,
            DropAction::ReturnRst => PFRULE_RETURNRST,
            DropAction::ReturnIcmp => PFRULE_RETURNICMP,
        }
    }

    /// Encode into the raw rule-flag word.
    pub fn to_raw(self) -> (r: u32)
        ensures
            r == self.raw(),
    {
        match self {
            DropAction::Drop => PFRULE_DROP,
            DropAction::Return => PFRULE_RETURN,
            DropAction::ReturnRst => PFRULE_RETURNRST,
            DropAction::ReturnIcmp => PFRULE_RETURNICMP,
        }
    }
}

/// What happens to a packet that matches a filter rule.
#[derive(Clone, Copy, Debug, PartialEq, Eq, Hash, Structural)]
pub enum FilterRuleAction {
    Pass,
    Drop(DropAction),
}

impl FilterRuleAction {
    /// The raw action byte this action encodes to.
    pub open spec fn raw(self) -> u8 {
        match self {
            FilterRuleAction::Pass => PF_PASS,
            FilterRuleAction::Drop(_) => PF_DROP,
        }
    }

    /// Encode into the raw action byte.
    pub fn to_raw(self) -> (r: u8)
        ensures
            r == self.raw(),
    {
        match self {
            FilterRuleAction::Pass => PF_PASS,
            FilterRuleAction::Drop(_) => PF_DROP,
        }
    }

    /// The raw rule-flag word this action contributes.
    pub open spec fn spec_rule_flags(self) -> u32 {
        match self {
            FilterRuleAction::Pass => 0u32,
            FilterRuleAction::Drop(action) => action.raw(),
        }
    }

    /// Return the raw rule-flag word this action contributes.
    pub fn rule_flags(&self) -> (r: u32)
        ensures
            r == self.spec_rule_flags(),
    {
        match self {
            FilterRuleAction::Pass => 0u32,
            FilterRuleAction::Drop(action) => action.to_raw(),
        }
    }
}

/// What happens to a packet that matches a redirect rule.
#[derive(Clone, Copy, Debug, PartialEq, Eq, Hash, Structural)]
pub enum RedirectRuleAction {
    Redirect,
    NoRedirect,
}

impl RedirectRuleAction {
    /// The raw action byte this action encodes to.
    pub open spec fn raw(self) -> u8 {
        match self {
            RedirectRuleAction::Redirect => PF_RDR,
            RedirectRuleAction::NoRedirect => PF_NORDR,
        }
    }

    /// Encode into the raw action byte.
    pub fn to_raw(self) -> (r: u8)
        ensures
            r == self.raw(),
    {
        match self {
            RedirectRuleAction::Redirect => PF_RDR,
            RedirectRuleAction::NoRedirect => PF_NORDR,
        }
    }
}

/// What happens to a packet that matches a scrub rule.
#[derive(Clone, Copy, Debug, PartialEq, Eq, Hash, Structural)]
pub enum ScrubRuleAction {
    Scrub,
    NoScrub,
}

impl ScrubRuleAction {
    /// The raw action byte this action encodes to.
    pub open spec fn raw(self) -> u8 {
        match self {
            ScrubRuleAction::Scrub => PF_SCRUB,
            ScrubRuleAction::NoScrub => PF_NOSCRUB,
        }
    }

    /// Encode into the raw action byte.
    pub fn to_raw(self) -> (r: u8)
        ensures
            r == self.raw(),
    {
        match self {
            ScrubRuleAction::Scrub => PF_SCRUB,
            ScrubRuleAction::NoScrub => PF_NOSCRUB,
        }
    }
}

/// What happens to a packet that matches a NAT rule: translate the source
/// to the given endpoint, or exempt the packet from translation.
#[derive(Clone, Copy, Debug, PartialEq, Eq, Hash, Structural)]
pub enum NatRuleAction {
    Nat { nat_to: NatEndpoint },
    NoNat,
}

impl NatRuleAction {
    /// The raw action byte this action encodes to.
    pub open spec fn raw(self) -> u8 {
        match self {
            NatRuleAction::Nat { .. } => PF_NAT,
            NatRuleAction::NoNat => PF_NONAT,
        }
    }

    /// Encode into the raw action byte.
    pub fn to_raw(self) -> (r: u8)
        ensures
            r == self.raw(),
    {
        match self {
            NatRuleAction::Nat { .. } => PF_NAT,
            NatRuleAction::NoNat => PF_NONAT,
        }
    }
}

} // verus!
