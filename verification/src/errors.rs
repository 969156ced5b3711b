use vstd::prelude::*;

use crate::rule::addr_family::AddrFamily;
use crate::rule::proto::Proto;
use crate::rule::state_policy::StatePolicy;

verus! {

/// Why a byte string could not be written into a fixed-size, nul-terminated
/// buffer.
#[derive(Clone, Copy, Debug, PartialEq, Eq, Structural)]
pub enum BufferError {
    /// The source is too long: it and the terminator would not fit the buffer.
    DoesNotFit,
    /// The source contains an embedded nul byte, which would truncate the
    /// stored string.
    EmbeddedNul,
}

/// An invalid combination of values inside one rule, detected when the rule
/// is validated.
#[derive(Clone, Copy, Debug, PartialEq, Eq, Structural)]
pub enum RuleConflict {
    /// Two address-bearing fields of the rule imply different, concrete
    /// address families.
    AddrFamilyMismatch(AddrFamily, AddrFamily),
    /// The connection-state policy is only legal for TCP, but the rule names
    /// another protocol.
    StatePolicyProto(StatePolicy, Proto),
    /// The builder was never given an action.
    MissingAction,
    /// The redirect-rule builder was never given a redirection target.
    MissingRedirectTarget,
}

/// Every error this library reports.
///
/// Validation errors (`InvalidAnchorName`, `InvalidRuleCombination`,
/// `InvalidPortRange`, ...) are raised before any control call would be
/// issued. `Ioctl` wraps the raw OS error code of a failed control call that
/// no other variant classifies.
#[derive(Clone, Copy, Debug, PartialEq, Eq, Structural)]
pub enum PfError {
    /// The PF device file could not be opened; carries the OS error code.
    DeviceOpen(i32),
    /// An anchor name could not be stored in its fixed kernel buffer.
    InvalidAnchorName(BufferError),
    /// An interface name could not be stored in its fixed kernel buffer.
    InvalidInterfaceName(BufferError),
    /// A rule label could not be stored in its fixed kernel buffer.
    InvalidLabel(BufferError),
    /// The rule holds values that cannot be combined.
    InvalidRuleCombination(RuleConflict),
    /// The target state is already active.
    StateAlreadyActive,
    /// No anchor with the given name and kind exists.
    AnchorDoesNotExist,
    /// A raw address-family byte from the kernel is outside the known set.
    InvalidAddressFamily(u8),
    /// A raw direction byte from the kernel is outside the known set.
    InvalidDirection(u8),
    /// A raw protocol byte from the kernel is outside the known set.
    InvalidTransportProtocol(u8),
    /// A port range whose start is greater than its end.
    InvalidPortRange,
    /// A raw string buffer from the kernel holds no terminating nul byte.
    UnterminatedString,
    /// A control call failed; carries the raw OS error code.
    Ioctl(i32),
}

} // verus!
