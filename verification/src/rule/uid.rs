use vstd::prelude::*;

use crate::conversion::CopyTo;
use crate::wire;
use crate::wire::IdMatch;

verus! {

/// The comparison a single-id match applies.
#[derive(Clone, Copy, Debug, PartialEq, Eq, Hash, Structural)]
pub enum IdUnaryModifier {
    Equal,
    NotEqual,
    Less,
    LessOrEqual,
    Greater,
    GreaterOrEqual,
}

impl IdUnaryModifier {
    /// The raw comparison-operator byte this modifier encodes to.
    pub open spec fn raw(self) -> u8 {
        match self {
            IdUnaryModifier::Equal => wire::PF_OP_EQ,
            IdUnaryModifier::NotEqual => wire::PF_OP_NE,
            IdUnaryModifier::Greater => wire::PF_OP_GT,
            IdUnaryModifier::Less => wire::PF_OP_LT,
            IdUnaryModifier::GreaterOrEqual => wire::PF_OP_GE,
            IdUnaryModifier::LessOrEqual => wire::PF_OP_LE,
        }
    }

    /// Encode into the raw comparison-operator byte.
    pub fn to_raw(self) -> (r: u8)
        ensures
            r == self.raw(),
    {
        match self {
            IdUnaryModifier::Equal => wire::PF_OP_EQ,
            IdUnaryModifier::NotEqual => wire::PF_OP_NE,
            IdUnaryModifier::Greater => wire::PF_OP_GT,
            IdUnaryModifier::Less => wire::PF_OP_LT,
            IdUnaryModifier::GreaterOrEqual => wire::PF_OP_GE,
            IdUnaryModifier::LessOrEqual => wire::PF_OP_LE,
        }
    }
}

/// How the two ends of an id range bound the match.
#[derive(Clone, Copy, Debug, PartialEq, Eq, Hash, Structural)]
pub enum IdRangeModifier {
    Exclusive,
    Inclusive,
    Except,
}

impl IdRangeModifier {
    /// The raw comparison-operator byte this modifier encodes to.
    pub open spec fn raw(self) -> u8 {
        match self {
            IdRangeModifier::Exclusive => wire::PF_OP_IRG,
            IdRangeModifier::Inclusive => wire::PF_OP_RRG,
            IdRangeModifier::Except => wire::PF_OP_XRG,
        }
    }

    /// Encode into the raw comparison-operator byte.
    pub fn to_raw(self) -> (r: u8)
        ensures
            r == self.raw(),
    {
        match self {
            IdRangeModifier::Exclusive => wire::PF_OP_IRG,
            IdRangeModifier::Inclusive => wire::PF_OP_RRG,
            IdRangeModifier::Except => wire::PF_OP_XRG,
        }
    }
}

/// A numeric user-id or group-id matcher: any id, one id under a
/// comparison, or a range of ids.
#[derive(Clone, Copy, Debug, PartialEq, Eq, Hash, Structural)]
pub enum Id {
    Any,
    One(u32, IdUnaryModifier),
    Range(u32, u32, IdRangeModifier),
}

impl Id {
    /// Match exactly the given id.
    pub fn from_id(id: u32) -> (r: Self)
        ensures
            r == Id::One(id, IdUnaryModifier::Equal),
    {
        Id::One(id, IdUnaryModifier::Equal)
    }

    /// What writing the matcher into a raw id-match structure yields. A
    /// single id leaves the structure's second id as it was; `Any` clears
    /// the first id and the operator.
    pub open spec fn id_encoding(self, old_dst: IdMatch) -> IdMatch {
        match self {
            Id::Any => IdMatch { id_first: 0, id_second: old_dst.id_second, op: wire::PF_OP_NONE },
            Id::One(id, modifier) => IdMatch {
                id_first: id,
                id_second: old_dst.id_second,
                op: modifier.raw(),
            },
            Id::Range(start, end, modifier) => IdMatch {
                id_first: start,
                id_second: end,
                op: modifier.raw(),
            },
        }
    }

    /// Write the matcher into a raw id-match structure.
    pub fn write_to(self, dst: &mut IdMatch)
        ensures
            *final(dst) == self.id_encoding(*old(dst)),
    {
        match self {
            Id::Any => {
                dst.id_first = 0;
                dst.op = wire::PF_OP_NONE;
            },
            Id::One(id, modifier) => {
                dst.id_first = id;
                dst.op = modifier.to_raw();
            },
            Id::Range(start, end, modifier) => {
                dst.id_first = start;
                dst.id_second = end;
                dst.op = modifier.to_raw();
            },
        }
    }
}

/// The user-id matcher of a rule.
#[derive(Clone, Copy, Debug, PartialEq, Eq, Hash, Structural)]
pub struct Uid(pub Id);

impl Default for Uid {
    /// By default a rule matches any user id.
    fn default() -> (r: Self)
        ensures
            r == Uid(Id::Any),
    {
        Uid(Id::Any)
    }
}

impl Uid {
    /// Match exactly the given user id.
    pub fn from_id(uid: u32) -> (r: Self)
        ensures
            r == Uid(Id::One(uid, IdUnaryModifier::Equal)),
    {
        Uid(Id::from_id(uid))
    }
}

impl CopyTo<IdMatch> for Uid {
    open spec fn copied(&self, old_dst: IdMatch) -> IdMatch {
        self.0.id_encoding(old_dst)
    }

    fn copy_to(&self, dst: &mut IdMatch) {
        self.0.write_to(dst);
    }
}

} // verus!
