use vstd::prelude::*;

use crate::errors::PfError;

verus! {

/// Raw value matching both packet directions (`PF_INOUT`).
pub const PF_INOUT: u8 = 0;

/// Raw value matching inbound packets (`PF_IN`).
pub const PF_IN: u8 = 1;

/// Raw value matching outbound packets (`PF_OUT`).
pub const PF_OUT: u8 = 2;

/// How a rule matches the packet flow direction.
#[derive(Clone, Copy, Debug, PartialEq, Eq, Hash, Structural)]
pub enum Direction {
    Any,
    In,
    Out,
}

impl Direction {
    /// The raw direction byte this value encodes to.
    pub open spec fn raw(self) -> u8 {
        match self {
            Direction::Any => PF_INOUT,
            Direction::In => PF_IN,
            Direction::Out => PF_OUT,
        }
    }

    /// Encode into the raw direction byte.
    pub fn to_raw(self) -> (r: u8)
        ensures
            r == self.raw(),
    {
        match self {
            Direction::Any => PF_INOUT,
            Direction::In => PF_IN,
            Direction::Out => PF_OUT,
        }
    }

    /// What decoding a raw direction byte yields.
    pub open spec fn spec_from_raw(direction: u8) -> Result<Direction, PfError> {
        if direction == PF_INOUT {
            Ok(Direction::Any)
        } else if direction == PF_IN {
            Ok(Direction::In)
        } else if direction == PF_OUT {
            Ok(Direction::Out)
        } else {
            Err(PfError::InvalidDirection(direction))
        }
    }

    /// Decode a raw direction byte; a byte outside the known set is rejected
    /// as `InvalidDirection`.
    pub fn try_from_raw(direction: u8) -> (r: Result<Direction, PfError>)
        ensures
            r == Direction::spec_from_raw(direction),
    {
        if direction == PF_INOUT {
            Ok(Direction::Any)
        } else if direction == PF_IN {
            Ok(Direction::In)
        } else if direction == PF_OUT {
            Ok(Direction::Out)
        } else {
            Err(PfError::InvalidDirection(direction))
        }
    }
}

impl Default for Direction {
    /// The default direction matches packets flowing either way.
    fn default() -> (r: Self)
        ensures
            r == Direction::Any,
    {
        Direction::Any
    }
}

} // verus!
