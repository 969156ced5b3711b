use vstd::prelude::*;

use crate::conversion::CopyTo;
use crate::rule::uid::Id;
use crate::rule::uid::IdUnaryModifier;
use crate::wire::IdMatch;

verus! {

/// The group-id matcher of a rule.
#[derive(Clone, Copy, Debug, PartialEq, Eq, Hash, Structural)]
pub struct Gid(pub Id);

impl Default for Gid {
    /// By default a rule matches any group id.
    fn default() -> (r: Self)
        ensures
            r == Gid(Id::Any),
    {
        Gid(Id::Any)
    }
}

impl Gid {
    /// Match exactly the given group id.
    pub fn from_id(gid: u32) -> (r: Self)
        ensures
            r == Gid(Id::One(gid, IdUnaryModifier::Equal)),
    {
        Gid(Id::from_id(gid))
    }
}

impl CopyTo<IdMatch> for Gid {
    open spec fn copied(&self, old_dst: IdMatch) -> IdMatch {
        self.0.id_encoding(old_dst)
    }

    fn copy_to(&self, dst: &mut IdMatch) {
        self.0.write_to(dst);
    }
}

} // verus!
