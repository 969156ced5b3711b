use vstd::prelude::*;

verus! {

/// Raw rule-set number of the scrub rule set (`PF_RULESET_SCRUB`).
pub const PF_RULESET_SCRUB: i32 = 0;

/// Raw rule-set number of the filter rule set (`PF_RULESET_FILTER`).
pub const PF_RULESET_FILTER: i32 = 1;

/// Raw rule-set number of the NAT rule set (`PF_RULESET_NAT`).
pub const PF_RULESET_NAT: i32 = 2;

/// Raw rule-set number of the redirect rule set (`PF_RULESET_RDR`).
pub const PF_RULESET_RDR: i32 = 4;

/// The kinds of rule sets: each maps to a distinct kernel rule-set number.
#[derive(Clone, Copy, Debug, PartialEq, Eq, Hash, Structural)]
#[non_exhaustive]
pub enum RulesetKind {
    Filter,
    Nat,
    Redirect,
    Scrub,
}

impl RulesetKind {
    /// The raw rule-set number this kind encodes to.
    pub open spec fn raw(self) -> i32 {
        match self {
            RulesetKind::Filter => PF_RULESET_FILTER,
            RulesetKind::Nat => PF_RULESET_NAT,
            RulesetKind::Redirect => PF_RULESET_RDR,
            RulesetKind::Scrub => PF_RULESET_SCRUB,
        }
    }

    /// Encode into the raw rule-set number.
    pub fn to_raw(self) -> (r: i32)
        ensures
            r == self.raw(),
    {
        match self {
            RulesetKind::Filter => PF_RULESET_FILTER,
            RulesetKind::Nat => PF_RULESET_NAT,
            RulesetKind::Redirect => PF_RULESET_RDR,
            RulesetKind::Scrub => PF_RULESET_SCRUB,
        }
    }
}

} // verus!
