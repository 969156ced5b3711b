use vstd::prelude::*;

use crate::rule::rule_action::PF_NAT;
use crate::rule::rule_action::PF_PASS;
use crate::rule::rule_action::PF_RDR;
use crate::rule::rule_action::PF_SCRUB;

verus! {

/// The kinds of anchors: each maps to the rule action that marks an
/// anchor-reference rule of that kind.
#[derive(Clone, Copy, Debug, PartialEq, Eq, Hash, Structural)]
#[non_exhaustive]
pub enum AnchorKind {
    Filter,
    Nat,
    Redirect,
    Scrub,
}

impl AnchorKind {
    /// The raw action byte marking an anchor of this kind.
    pub open spec fn raw(self) -> u8 {
        match self {
            AnchorKind::Filter => PF_PASS,
            AnchorKind::Nat => PF_NAT,
            AnchorKind::Redirect => PF_RDR,
            AnchorKind::Scrub => PF_SCRUB,
        }
    }

    /// Encode into the raw action byte.
    pub fn to_raw(self) -> (r: u8)
        ensures
            r == self.raw(),
    {
        match self {
            AnchorKind::Filter => PF_PASS,
            AnchorKind::Nat => PF_NAT,
            AnchorKind::Redirect => PF_RDR,
            AnchorKind::Scrub => PF_SCRUB,
        }
    }
}

} // verus!
