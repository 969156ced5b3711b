use vstd::prelude::*;

use crate::conversion::TryCopyTo;
use crate::errors::PfError;
use crate::wire;
use crate::wire::be16;

verus! {

/// The comparison a single-port match applies.
#[derive(Clone, Copy, Debug, PartialEq, Eq, Hash, Structural)]
pub enum PortUnaryModifier {
    Equal,
    NotEqual,
    Greater,
    Less,
    GreaterOrEqual,
    LessOrEqual,
}

impl PortUnaryModifier {
    /// The raw comparison-operator byte this modifier encodes to.
    pub open spec fn raw(self) -> u8 {
        match self {
            PortUnaryModifier::Equal => wire::PF_OP_EQ,
            PortUnaryModifier::NotEqual => wire::PF_OP_NE,
            PortUnaryModifier::Greater => wire::PF_OP_GT,
            PortUnaryModifier::Less => wire::PF_OP_LT,
            PortUnaryModifier::GreaterOrEqual => wire::PF_OP_GE,
            PortUnaryModifier::LessOrEqual => wire::PF_OP_LE,
        }
    }

    /// Encode into the raw comparison-operator byte.
    pub fn to_raw(self) -> (r: u8)
        ensures
            r == self.raw(),
    {
        match self {
            PortUnaryModifier::Equal => wire::PF_OP_EQ,
            PortUnaryModifier::NotEqual => wire::PF_OP_NE,
            PortUnaryModifier::Greater => wire::PF_OP_GT,
            PortUnaryModifier::Less => wire::PF_OP_LT,
            PortUnaryModifier::GreaterOrEqual => wire::PF_OP_GE,
            PortUnaryModifier::LessOrEqual => wire::PF_OP_LE,
        }
    }
}

/// How the two ends of a port range bound the match.
#[derive(Clone, Copy, Debug, PartialEq, Eq, Hash, Structural)]
pub enum PortRangeModifier {
    Exclusive,
    Inclusive,
    Except,
}

impl PortRangeModifier {
    /// The raw comparison-operator byte this modifier encodes to.
    pub open spec fn raw(self) -> u8 {
        match self {
            PortRangeModifier::Exclusive => wire::PF_OP_IRG,
            PortRangeModifier::Inclusive => wire::PF_OP_RRG,
            PortRangeModifier::Except => wire::PF_OP_XRG,
        }
    }

    /// Encode into the raw comparison-operator byte.
    pub fn to_raw(self) -> (r: u8)
        ensures
            r == self.raw(),
    {
        match self {
            PortRangeModifier::Exclusive => wire::PF_OP_IRG,
            PortRangeModifier::Inclusive => wire::PF_OP_RRG,
            PortRangeModifier::Except => wire::PF_OP_XRG,
        }
    }
}

/// The port part of an endpoint: any port, one port under a comparison, or
/// a range of ports.
///
/// A range is only valid when its start does not exceed its end; encoding
/// rejects the reverse case with `InvalidPortRange`.
#[derive(Clone, Copy, Debug, PartialEq, Eq, Hash, Structural)]
pub enum Port {
    Any,
    One(u16, PortUnaryModifier),
    Range(u16, u16, PortRangeModifier),
}

impl Default for Port {
    /// By default an endpoint matches any port.
    fn default() -> (r: Self)
        ensures
            r == Port::Any,
    {
        Port::Any
    }
}

impl Port {
    /// Match exactly the given port.
    pub fn from_port(port: u16) -> (r: Self)
        ensures
            r == Port::One(port, PortUnaryModifier::Equal),
    {
        Port::One(port, PortUnaryModifier::Equal)
    }

    /// The encoded port range: the operator byte and both ends as
    /// network-order byte pairs — or `InvalidPortRange` when the range's
    /// start exceeds its end.
    pub open spec fn range_encoding(self) -> Result<wire::PortRangeV, PfError> {
        match self {
            Port::Any => Ok(wire::PortRangeV { op: wire::PF_OP_NONE, ports: be16(0) + be16(0) }),
            Port::One(port, modifier) => Ok(
                wire::PortRangeV { op: modifier.raw(), ports: be16(port) + be16(0) },
            ),
            Port::Range(start, end, modifier) => if start > end {
                Err(PfError::InvalidPortRange)
            } else {
                Ok(wire::PortRangeV { op: modifier.raw(), ports: be16(start) + be16(end) })
            },
        }
    }

    /// The encoded pool-port pair: the operator byte and both ends in host
    /// order, as the translation pool stores them — or `InvalidPortRange`
    /// when the range's start exceeds its end.
    pub open spec fn pool_encoding(self) -> Result<wire::Pool, PfError> {
        match self {
            Port::Any => Ok(
                wire::Pool { port_op: wire::PF_OP_NONE, proxy_port_first: 0, proxy_port_second: 0 },
            ),
            Port::One(port, modifier) => Ok(
                wire::Pool { port_op: modifier.raw(), proxy_port_first: port, proxy_port_second: 0 },
            ),
            Port::Range(start, end, modifier) => if start > end {
                Err(PfError::InvalidPortRange)
            } else {
                Ok(
                    wire::Pool {
                        port_op: modifier.raw(),
                        proxy_port_first: start,
                        proxy_port_second: end,
                    },
                )
            },
        }
    }
}

impl TryCopyTo<wire::PortRange> for Port {
    /// The whole destination is overwritten with the encoded range.
    open spec fn try_copied(&self, old_dst: wire::PortRangeV) -> Result<wire::PortRangeV, PfError> {
        self.range_encoding()
    }

    fn try_copy_to(&self, dst: &mut wire::PortRange) -> (r: Result<(), PfError>) {
        match *self {
            Port::Any => {
                dst.op = wire::PF_OP_NONE;
                let mut ports = wire::be16_bytes(0);
                let mut rest = wire::be16_bytes(0);
                ports.append(&mut rest);
                dst.ports = ports;
            },
            Port::One(port, modifier) => {
                dst.op = modifier.to_raw();
                let mut ports = wire::be16_bytes(port);
                let mut rest = wire::be16_bytes(0);
                ports.append(&mut rest);
                dst.ports = ports;
            },
            Port::Range(start, end, modifier) => {
                if start > end {
                    return Err(PfError::InvalidPortRange);
                }
                dst.op = modifier.to_raw();
                let mut ports = wire::be16_bytes(start);
                let mut rest = wire::be16_bytes(end);
                ports.append(&mut rest);
                dst.ports = ports;
            },
        }
        assert(self.range_encoding() matches Ok(v) && v =~= dst@);
        Ok(())
    }
}

impl TryCopyTo<wire::Pool> for Port {
    /// The whole destination is overwritten with the encoded pool ports.
    open spec fn try_copied(&self, old_dst: wire::Pool) -> Result<wire::Pool, PfError> {
        self.pool_encoding()
    }

    fn try_copy_to(&self, dst: &mut wire::Pool) -> (r: Result<(), PfError>) {
        match *self {
            Port::Any => {
                dst.port_op = wire::PF_OP_NONE;
                dst.proxy_port_first = 0;
                dst.proxy_port_second = 0;
            },
            Port::One(port, modifier) => {
                dst.port_op = modifier.to_raw();
                dst.proxy_port_first = port;
                dst.proxy_port_second = 0;
            },
            Port::Range(start, end, modifier) => {
                if start > end {
                    return Err(PfError::InvalidPortRange);
                }
                dst.port_op = modifier.to_raw();
                dst.proxy_port_first = start;
                dst.proxy_port_second = end;
            },
        }
        Ok(())
    }
}

/// Law: encoding a port range fails with `InvalidPortRange` exactly when
/// its start exceeds its end; otherwise the encoded range carries the two
/// ends as network-order byte pairs and the chosen modifier's raw code.
pub proof fn lemma_port_range_encoding(start: u16, end: u16, modifier: PortRangeModifier)
    ensures
        start > end ==> Port::Range(start, end, modifier).range_encoding() == Err::<
            wire::PortRangeV,
            PfError,
        >(PfError::InvalidPortRange),
        start <= end ==> Port::Range(start, end, modifier).range_encoding() == Ok::<
            wire::PortRangeV,
            PfError,
        >(wire::PortRangeV { op: modifier.raw(), ports: be16(start) + be16(end) }),
{
}

} // verus!
