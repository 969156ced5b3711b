use vstd::prelude::*;

use vstd::slice::slice_to_vec;

verus! {

/// Raw TCP flag bit: FIN.
pub const TH_FIN: u8 = 1;

/// Raw TCP flag bit: SYN.
pub const TH_SYN: u8 = 2;

/// Raw TCP flag bit: RST.
pub const TH_RST: u8 = 4;

/// Raw TCP flag bit: PSH.
pub const TH_PSH: u8 = 8;

/// Raw TCP flag bit: ACK.
pub const TH_ACK: u8 = 16;

/// Raw TCP flag bit: URG.
pub const TH_URG: u8 = 32;

/// Raw TCP flag bit: ECE.
pub const TH_ECE: u8 = 64;

/// Raw TCP flag bit: CWR.
pub const TH_CWR: u8 = 128;

/// One TCP header flag a rule can check.
#[derive(Clone, Copy, Debug, PartialEq, Eq, Hash, Structural)]
pub enum TcpFlag {
    Any,
    Syn,
    Ack,
    Fin,
    Rst,
    Psh,
    Urg,
    Ece,
    Cwr,
}

impl Default for TcpFlag {
    /// The default flag matches nothing in particular.
    fn default() -> (r: Self)
        ensures
            r == TcpFlag::Any,
    {
        TcpFlag::Any
    }
}

impl TcpFlag {
    /// The raw flag bit; `Any` contributes no bit.
    pub open spec fn raw(self) -> u8 {
        match self {
            TcpFlag::Any => 0,
            TcpFlag::Fin => TH_FIN,
            TcpFlag::Syn => TH_SYN,
            TcpFlag::Rst => TH_RST,
            TcpFlag::Psh => TH_PSH,
            TcpFlag::Ack => TH_ACK,
            TcpFlag::Urg => TH_URG,
            TcpFlag::Ece => TH_ECE,
            TcpFlag::Cwr => TH_CWR,
        }
    }

    /// Encode into the raw flag bit.
    pub fn to_raw(self) -> (r: u8)
        ensures
            r == self.raw(),
    {
        match self {
            TcpFlag::Any => 0,
            TcpFlag::Fin => TH_FIN,
            TcpFlag::Syn => TH_SYN,
            TcpFlag::Rst => TH_RST,
            TcpFlag::Psh => TH_PSH,
            TcpFlag::Ack => TH_ACK,
            TcpFlag::Urg => TH_URG,
            TcpFlag::Ece => TH_ECE,
            TcpFlag::Cwr => TH_CWR,
        }
    }
}

/// A set of TCP flags; encodes to the bitwise-or of the flags' bits.
#[derive(Clone, Debug, PartialEq, Eq, Hash)]
pub struct TcpFlagSet(pub Vec<TcpFlag>);

impl Default for TcpFlagSet {
    /// The empty flag set.
    fn default() -> (r: Self)
        ensures
            r.0@ == Seq::<TcpFlag>::empty(),
    {
        TcpFlagSet(Vec::new())
    }
}

impl TcpFlagSet {
    /// The bitwise-or of the flags' raw bits.
    pub open spec fn bits(flags: Seq<TcpFlag>) -> u8
        decreases flags.len(),
    {
        if flags.len() == 0 {
            0
        } else {
            TcpFlagSet::bits(flags.drop_last()) | flags.last().raw()
        }
    }

    /// Encode into the raw flags byte.
    pub fn to_raw(&self) -> (r: u8)
        ensures
            r == TcpFlagSet::bits(self.0@),
    {
        let mut acc: u8 = 0;
        let mut i: usize = 0;
        while i < self.0.len()
            invariant
                i <= self.0@.len(),
                acc == TcpFlagSet::bits(self.0@.take(i as int)),
            decreases self.0@.len() - i,
        {
            acc = acc | self.0[i].to_raw();
            i += 1;
            assert(self.0@.take(i as int).drop_last() =~= self.0@.take(i as int - 1));
            assert(self.0@.take(i as int).last() == self.0@[i as int - 1]);
        }
        assert(self.0@.take(self.0@.len() as int) =~= self.0@);
        acc
    }
}

/// The flags a rule checks in a TCP header (`check`) out of the flags it
/// looks at (`mask`).
#[derive(Clone, Debug, PartialEq, Eq, Hash)]
pub struct TcpFlags {
    /// The flags that must be set.
    pub check: TcpFlagSet,
    /// The flags that are looked at at all.
    pub mask: TcpFlagSet,
}

impl Default for TcpFlags {
    /// By default a rule looks at no TCP flags.
    fn default() -> (r: Self)
        ensures
            r.check.0@ == Seq::<TcpFlag>::empty(),
            r.mask.0@ == Seq::<TcpFlag>::empty(),
    {
        TcpFlags { check: TcpFlagSet(Vec::new()), mask: TcpFlagSet(Vec::new()) }
    }
}

impl TcpFlags {
    /// The matcher checking `check` out of `mask`.
    pub fn new(check: &[TcpFlag], mask: &[TcpFlag]) -> (r: Self)
        ensures
            r.check.0@ == check@,
            r.mask.0@ == mask@,
    {
        TcpFlags { check: TcpFlagSet(slice_to_vec(check)), mask: TcpFlagSet(slice_to_vec(mask)) }
    }
}

} // verus!
