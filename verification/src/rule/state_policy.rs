use vstd::prelude::*;

verus! {

/// Raw value of the plain keep-state policy (`PF_STATE_NORMAL`).
pub const PF_STATE_NORMAL: u8 = 1;

/// Raw value of the modulate-state policy (`PF_STATE_MODULATE`).
pub const PF_STATE_MODULATE: u8 = 2;

/// Raw value of the SYN-proxy state policy (`PF_STATE_SYNPROXY`).
pub const PF_STATE_SYNPROXY: u8 = 3;

/// The connection-state policy of a filter rule.
///
/// `Modulate` and `SynProxy` are only valid together with TCP; rule
/// validation rejects them for any other protocol.
#[derive(Clone, Copy, Debug, PartialEq, Eq, Hash, Structural)]
pub enum StatePolicy {
    NoState,
    Keep,
    Modulate,
    SynProxy,
}

impl StatePolicy {
    /// The raw keep-state byte this policy encodes to.
    pub open spec fn raw(self) -> u8 {
        match self {
            StatePolicy::NoState => 0,
            StatePolicy::Keep => PF_STATE_NORMAL,
            StatePolicy::Modulate => PF_STATE_MODULATE,
            StatePolicy::SynProxy => PF_STATE_SYNPROXY,
        }
    }

    /// Encode into the raw keep-state byte.
    pub fn to_raw(self) -> (r: u8)
        ensures
            r == self.raw(),
    {
        match self {
            StatePolicy::NoState => 0,
            StatePolicy::Keep => PF_STATE_NORMAL,
            StatePolicy::Modulate => PF_STATE_MODULATE,
            StatePolicy::SynProxy => PF_STATE_SYNPROXY,
        }
    }
}

impl Default for StatePolicy {
    /// By default a rule keeps no connection state.
    fn default() -> (r: Self)
        ensures
            r == StatePolicy::NoState,
    {
        StatePolicy::NoState
    }
}

} // verus!
