//! Helpers around the control calls: anchor-name buffers, classification
//! of OS error codes, the busy-retry policy, and the request values of the
//! simple single-call operations.

use vstd::prelude::*;
use vstd::string::StrSliceExecFns;
use vstd::string::StringSliceAdditionalSpecFns;

use crate::anchor::AnchorKind;
use crate::conversion::TryCopyTo;
use crate::cstr::cstr_fits;
use crate::cstr::cstr_written;
use crate::cstr::write_cstr;
use crate::errors::BufferError;
use crate::errors::PfError;
use crate::rule::FilterRule;
use crate::wire;

verus! {

/// OS error code: the entity already exists (`EEXIST`).
pub const EEXIST: i32 = 17;

/// OS error code: the resource is busy (`EBUSY`).
pub const EBUSY: i32 = 16;

/// OS error code: no such entry (`ENOENT`).
pub const ENOENT: i32 = 2;

/// How often a busy control call is attempted before its error surfaces.
pub const BUSY_RETRY_ATTEMPTS: u32 = 5;

/// How long to wait between attempts at a busy control call, in
/// milliseconds.
pub const BUSY_RETRY_DELAY_MS: u32 = 100;

/// How a failed control call's OS error code is classified: the code that
/// means "the target state already holds" becomes `StateAlreadyActive`,
/// every other code is carried in `Ioctl`.
pub open spec fn spec_classify_errno(errno: i32, already_active: i32) -> PfError {
    if errno == already_active {
        PfError::StateAlreadyActive
    } else {
        PfError::Ioctl(errno)
    }
}

/// Classify a failed control call's OS error code. `already_active` is the
/// code that means the target state already holds — `EEXIST` for most
/// calls, `ENOENT` for stopping an already-stopped firewall.
pub fn classify_errno(errno: i32, already_active: i32) -> (r: PfError)
    ensures
        r == spec_classify_errno(errno, already_active),
{
    if errno == already_active {
        PfError::StateAlreadyActive
    } else {
        PfError::Ioctl(errno)
    }
}

/// Turn `StateAlreadyActive` into success and pass everything else on, as
/// the `try_` variants of the controller operations do.
pub fn ignore_already_active(result: Result<(), PfError>) -> (r: Result<(), PfError>)
    ensures
        r == (if result == Err::<(), PfError>(PfError::StateAlreadyActive) {
            Ok::<(), PfError>(())
        } else {
            result
        }),
{
    match result {
        Err(PfError::StateAlreadyActive) => Ok(()),
        other => other,
    }
}

/// Turn `AnchorDoesNotExist` into success and pass everything else on, as
/// `try_remove_anchor` does.
pub fn ignore_anchor_does_not_exist(result: Result<(), PfError>) -> (r: Result<(), PfError>)
    ensures
        r == (if result == Err::<(), PfError>(PfError::AnchorDoesNotExist) {
            Ok::<(), PfError>(())
        } else {
            result
        }),
{
    match result {
        Err(PfError::AnchorDoesNotExist) => Ok(()),
        other => other,
    }
}

/// Whether an error is the kernel's "resource busy" indication, the one
/// condition worth retrying.
pub open spec fn spec_is_busy(e: PfError) -> bool {
    e == PfError::Ioctl(EBUSY)
}

/// Whether a failed attempt should be retried: only a busy indication, and
/// only while the attempt ceiling is not reached.
pub fn should_retry(result: &Result<(), PfError>, attempts_made: u32) -> (r: bool)
    ensures
        r == (match *result {
            Err(e) => spec_is_busy(e) && attempts_made < BUSY_RETRY_ATTEMPTS,
            Ok(_) => false,
        }),
{
    match result {
        Err(PfError::Ioctl(errno)) => *errno == EBUSY && attempts_made < BUSY_RETRY_ATTEMPTS,
        _ => false,
    }
}

/// Whether a raw status structure's `running` field reports the firewall
/// as enabled.
pub fn is_enabled_from_status(running: u32) -> (r: bool)
    ensures
        r == (running == 1),
{
    running == 1
}

/// What writing an anchor name into a fixed anchor buffer yields, or
/// `InvalidAnchorName` when it cannot be stored.
pub open spec fn anchor_name_encoding(name: Seq<u8>, old_buf: Seq<u8>) -> Result<Seq<u8>, PfError> {
    if cstr_fits(name, old_buf.len()) {
        Ok(cstr_written(old_buf, name))
    } else {
        Err(
            PfError::InvalidAnchorName(
                if name.len() >= old_buf.len() {
                    BufferError::DoesNotFit
                } else {
                    BufferError::EmbeddedNul
                },
            ),
        )
    }
}

/// Write an anchor name into a fixed anchor buffer, rejecting a name that
/// cannot be stored as `InvalidAnchorName`.
pub fn copy_anchor_name(anchor: &str, destination: &mut Vec<u8>) -> (r: Result<(), PfError>)
    ensures
        match r {
            Ok(()) => anchor_name_encoding(anchor.spec_bytes(), old(destination)@) == Ok::<
                Seq<u8>,
                PfError,
            >(final(destination)@),
            Err(e) => anchor_name_encoding(anchor.spec_bytes(), old(destination)@) == Err::<
                Seq<u8>,
                PfError,
            >(e) && final(destination)@ == old(destination)@,
        },
{
    let name_bytes = anchor.as_bytes_vec();
    match write_cstr(name_bytes.as_slice(), destination) {
        Ok(()) => Ok(()),
        Err(e) => Err(PfError::InvalidAnchorName(e)),
    }
}

/// What the request installing an anchor marker rule holds: over an
/// all-zero request, the kind's action byte and the anchor name in the
/// anchor-call buffer.
pub open spec fn anchor_rule_request_encoding(name: Seq<u8>, kind: AnchorKind) -> Result<
    wire::RuleRequestV,
    PfError,
> {
    match anchor_name_encoding(name, wire::RuleRequestV::zeroed().anchor_call) {
        Err(e) => Err(e),
        Ok(anchor_call) => Ok(
            wire::RuleRequestV {
                anchor_call,
                rule: wire::RawRuleV { action: kind.raw(), ..wire::RawRuleV::zeroed() },
                ..wire::RuleRequestV::zeroed()
            },
        ),
    }
}

/// Build the request that installs the marker rule creating an anchor:
/// the kind's action byte and the anchor's name, over an all-zero request.
pub fn anchor_rule_request(name: &str, kind: AnchorKind) -> (r: Result<wire::RuleRequest, PfError>)
    ensures
        match r {
            Ok(request) => Ok::<_, PfError>(request@) == anchor_rule_request_encoding(
                name.spec_bytes(),
                kind,
            ) && request@.wf(),
            Err(e) => anchor_rule_request_encoding(name.spec_bytes(), kind) == Err::<
                wire::RuleRequestV,
                _,
            >(e),
        },
{
    let mut request = wire::RuleRequest::zeroed();
    request.rule.action = kind.to_raw();
    copy_anchor_name(name, &mut request.anchor_call)?;
    assert(anchor_rule_request_encoding(name.spec_bytes(), kind) matches Ok(v) && request@ =~= v);
    Ok(request)
}

/// What the ticket request for one anchor and kind holds: over an all-zero
/// request, the get-ticket action, the kind's action byte, and the anchor
/// name in the anchor buffer.
pub open spec fn ticket_request_encoding(anchor: Seq<u8>, kind: AnchorKind) -> Result<
    wire::RuleRequestV,
    PfError,
> {
    match anchor_name_encoding(anchor, wire::RuleRequestV::zeroed().anchor) {
        Err(e) => Err(e),
        Ok(anchor_buf) => Ok(
            wire::RuleRequestV {
                action: wire::PF_CHANGE_GET_TICKET,
                anchor: anchor_buf,
                rule: wire::RawRuleV { action: kind.raw(), ..wire::RawRuleV::zeroed() },
                ..wire::RuleRequestV::zeroed()
            },
        ),
    }
}

/// Build the rule-change request that fetches a ticket for the given
/// anchor and kind; the kernel fills the ticket field in.
pub fn ticket_request(anchor: &str, kind: AnchorKind) -> (r: Result<wire::RuleRequest, PfError>)
    ensures
        match r {
            Ok(request) => Ok::<_, PfError>(request@) == ticket_request_encoding(
                anchor.spec_bytes(),
                kind,
            ) && request@.wf(),
            Err(e) => ticket_request_encoding(anchor.spec_bytes(), kind) == Err::<
                wire::RuleRequestV,
                _,
            >(e),
        },
{
    let mut request = wire::RuleRequest::zeroed();
    request.action = wire::PF_CHANGE_GET_TICKET;
    request.rule.action = kind.to_raw();
    copy_anchor_name(anchor, &mut request.anchor)?;
    assert(ticket_request_encoding(anchor.spec_bytes(), kind) matches Ok(v) && request@ =~= v);
    Ok(request)
}

/// What the request appending one filter rule holds: over an all-zero
/// request, the add-tail action, the anchor name, and the encoded rule.
/// The two tickets stay zero for the caller to fill in.
pub open spec fn add_rule_request_encoding(anchor: Seq<u8>, rule: FilterRule) -> Result<
    wire::RuleRequestV,
    PfError,
> {
    match anchor_name_encoding(anchor, wire::RuleRequestV::zeroed().anchor) {
        Err(e) => Err(e),
        Ok(anchor_buf) => match rule.encoded(wire::RawRuleV::zeroed()) {
            Err(e) => Err(e),
            Ok(raw_rule) => Ok(
                wire::RuleRequestV {
                    action: wire::PF_CHANGE_ADD_TAIL,
                    anchor: anchor_buf,
                    rule: raw_rule,
                    ..wire::RuleRequestV::zeroed()
                },
            ),
        },
    }
}

/// Build the rule-change request that appends one filter rule to an
/// anchor. The caller obtains the rule ticket and the pool ticket and sets
/// them before issuing the call.
pub fn add_rule_request(anchor: &str, rule: &FilterRule) -> (r: Result<wire::RuleRequest, PfError>)
    ensures
        match r {
            Ok(request) => Ok::<_, PfError>(request@) == add_rule_request_encoding(
                anchor.spec_bytes(),
                *rule,
            ) && request@.wf(),
            Err(e) => add_rule_request_encoding(anchor.spec_bytes(), *rule) == Err::<
                wire::RuleRequestV,
                _,
            >(e),
        },
{
    let mut request = wire::RuleRequest::zeroed();
    copy_anchor_name(anchor, &mut request.anchor)?;
    rule.try_copy_to(&mut request.rule)?;
    request.action = wire::PF_CHANGE_ADD_TAIL;
    assert(add_rule_request_encoding(anchor.spec_bytes(), *rule) matches Ok(v) && request@ =~= v);
    Ok(request)
}

/// Set the two tickets of a prepared rule request, leaving every other
/// field as it was.
pub fn set_tickets(request: &mut wire::RuleRequest, ticket: u32, pool_ticket: u32)
    ensures
        final(request)@ == (wire::RuleRequestV { ticket, pool_ticket, ..old(request)@ }),
{
    request.ticket = ticket;
    request.pool_ticket = pool_ticket;
    assert(request@ =~= (wire::RuleRequestV { ticket, pool_ticket, ..old(request)@ }));
}

} // verus!
