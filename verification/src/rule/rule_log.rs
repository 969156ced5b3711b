use vstd::prelude::*;

use vstd::slice::slice_to_vec;

verus! {

/// Log flag: log all packets, but only the initial packet of stateful
/// connections (`PF_LOG`).
pub const PF_LOG: u8 = 1;

/// Log flag: log all packets including ones matching state (`PF_LOG_ALL`).
pub const PF_LOG_ALL: u8 = 2;

/// Log flag: log the owner of the local socket
/// (`PF_LOG_SOCKET_LOOKUP`).
pub const PF_LOG_SOCKET_LOOKUP: u8 = 4;

/// One logging option of a rule.
#[derive(Clone, Copy, Debug, PartialEq, Eq, Hash, Structural)]
pub enum RuleLog {
    /// Log all packets, but only the initial packet for connections with
    /// state. Can be omitted if `IncludeMatchingState` is set.
    ExcludeMatchingState,
    /// Log all packets including ones matching state.
    IncludeMatchingState,
    /// Log the user id and group id that own the local socket.
    SocketOwner,
}

impl RuleLog {
    /// The raw log flag this option encodes to.
    pub open spec fn raw(self) -> u8 {
        match self {
            RuleLog::ExcludeMatchingState => PF_LOG,
            RuleLog::IncludeMatchingState => PF_LOG_ALL,
            RuleLog::SocketOwner => PF_LOG_SOCKET_LOOKUP,
        }
    }

    /// Encode into the raw log flag.
    pub fn to_raw(self) -> (r: u8)
        ensures
            r == self.raw(),
    {
        match self {
            RuleLog::ExcludeMatchingState => PF_LOG,
            RuleLog::IncludeMatchingState => PF_LOG_ALL,
            RuleLog::SocketOwner => PF_LOG_SOCKET_LOOKUP,
        }
    }
}

/// The set of logging options of a rule; encodes to the bitwise-or of the
/// options' flags.
#[derive(Clone, Debug, PartialEq, Eq, Hash)]
pub struct RuleLogSet(pub Vec<RuleLog>);

impl Default for RuleLogSet {
    /// By default a rule logs nothing.
    fn default() -> (r: Self)
        ensures
            r.0@ == Seq::<RuleLog>::empty(),
    {
        RuleLogSet(Vec::new())
    }
}

impl RuleLogSet {
    /// The set holding the given options.
    pub fn new(set: &[RuleLog]) -> (r: Self)
        ensures
            r.0@ == set@,
    {
        RuleLogSet(slice_to_vec(set))
    }

    /// The set holding the one given option.
    pub fn from_log(rule_log: RuleLog) -> (r: Self)
        ensures
            r.0@ == seq![rule_log],
    {
        let mut logs: Vec<RuleLog> = Vec::new();
        logs.push(rule_log);
        assert(logs@ =~= seq![rule_log]);
        RuleLogSet(logs)
    }

    /// The bitwise-or of the options' raw flags.
    pub open spec fn bits(logs: Seq<RuleLog>) -> u8
        decreases logs.len(),
    {
        if logs.len() == 0 {
            0
        } else {
            RuleLogSet::bits(logs.drop_last()) | logs.last().raw()
        }
    }

    /// Encode into the raw log byte.
    pub fn to_raw(&self) -> (r: u8)
        ensures
            r == RuleLogSet::bits(self.0@),
    {
        let mut acc: u8 = 0;
        let mut i: usize = 0;
        while i < self.0.len()
            invariant
                i <= self.0@.len(),
                acc == RuleLogSet::bits(self.0@.take(i as int)),
            decreases self.0@.len() - i,
        {
            acc = acc | self.0[i].to_raw();
            i += 1;
            assert(self.0@.take(i as int).drop_last() =~= self.0@.take(i as int - 1));
            assert(self.0@.take(i as int).last() == self.0@[i as int - 1]);
        }
        assert(self.0@.take(self.0@.len() as int) =~= self.0@);
        acc
    }
}

} // verus!
