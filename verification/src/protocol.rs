//! Messages of the phone <-> PC WebSocket protocol and their validation.
use vstd::prelude::*;

use crate::{MAX_MESSAGE_BYTES, PROTOCOL_VERSION};

verus! {

/// Number of bytes in the UTF-8 encoding of a text.
pub open spec fn utf8_len(text: Seq<char>) -> nat {
    vstd::utf8::encode_utf8(text).len()
}

#[derive(Debug, Clone, PartialEq, Eq)]
pub enum ClientMessage {
    Start(Snapshot),
    Update(Snapshot),
    Finish(Snapshot),
    Resume(Resume),
    Cancel(Cancel),
    Probe(Probe),
    HealthCheck(HealthCheck),
    SwitchAck(SwitchAck),
}

/// The full text of an input session at one sequence number.
#[derive(Debug, Clone, PartialEq, Eq)]
pub struct Snapshot {
    pub protocol_version: u16,
    pub phone_id: String,
    pub session_id: String,
    pub sequence: i64,
    pub full_text: String,
}

#[derive(Debug, Clone, PartialEq, Eq)]
pub struct Resume {
    pub protocol_version: u16,
    pub phone_id: String,
    pub session_id: String,
    pub last_ack_sequence: i64,
    pub sequence: i64,
    pub full_text: String,
    pub session_state: ClientSessionState,
}

#[derive(Debug, Clone, PartialEq, Eq)]
pub struct Cancel {
    pub protocol_version: u16,
    pub phone_id: String,
    pub session_id: String,
}

#[derive(Debug, Clone, PartialEq, Eq)]
pub struct Probe {
    pub protocol_version: u16,
    pub phone_id: String,
}

#[derive(Debug, Clone, PartialEq, Eq)]
pub struct HealthCheck {
    pub protocol_version: u16,
    pub phone_id: String,
}

#[derive(Debug, Clone, PartialEq, Eq)]
pub struct SwitchAck {
    pub protocol_version: u16,
    pub request_id: String,
    pub pc_id: String,
    pub accepted: bool,
}

#[derive(Debug, Clone, Copy, PartialEq, Eq, Structural)]
pub enum ClientSessionState {
    Active,
    Finishing,
}

#[derive(Debug, Clone, PartialEq, Eq)]
pub enum ServerMessage {
    Ack(Ack),
    Target(Target),
    SwitchComputer(SwitchComputer),
    ProbeResult(ProbeResult),
    HealthAck(HealthAck),
    Error(ProtocolError),
}

#[derive(Debug, Clone, PartialEq, Eq)]
pub struct SwitchComputer {
    pub protocol_version: u16,
    pub pc_id: String,
    pub pc_name: String,
    pub request_id: String,
}

#[derive(Debug, Clone, Copy, PartialEq, Eq, Structural)]
pub struct HealthAck {
    pub protocol_version: u16,
}

#[derive(Debug, Clone, PartialEq, Eq)]
pub struct ProbeResult {
    pub protocol_version: u16,
    pub target_state: ProbeState,
    pub target_name: Option<String>,
    pub activity_age_ms: Option<u64>,
}

#[derive(Debug, Clone, Copy, PartialEq, Eq, Structural)]
pub enum ProbeState {
    Ready,
    Unsupported,
    Invalid,
}

#[derive(Debug, Clone, PartialEq, Eq)]
pub struct Ack {
    pub protocol_version: u16,
    pub session_id: String,
    pub applied_sequence: i64,
    pub session_state: ServerSessionState,
}

#[derive(Debug, Clone, Copy, PartialEq, Eq, Structural)]
pub enum ServerSessionState {
    Active,
    Finished,
}

#[derive(Debug, Clone, PartialEq, Eq)]
pub struct Target {
    pub protocol_version: u16,
    pub session_id: String,
    pub target_state: TargetState,
    pub target_name: Option<String>,
}

#[derive(Debug, Clone, Copy, PartialEq, Eq, Structural)]
pub enum TargetState {
    Active,
    NotForeground,
    Invalid,
}

#[derive(Debug, Clone, PartialEq, Eq)]
pub struct ProtocolError {
    pub protocol_version: u16,
    pub code: ErrorCode,
    pub session_id: Option<String>,
}

#[derive(Debug, Clone, Copy, PartialEq, Eq, Structural)]
pub enum ErrorCode {
    AuthFailed,
    SessionBusy,
    SessionUnknown,
    SessionFinished,
    SequenceConflict,
    TextTooLarge,
    TargetUnavailable,
    TargetInvalid,
    TargetModified,
    TargetSubmitted,
    InjectorUnavailable,
    InjectionUnknown,
    RecoveryRequired,
    InvalidMessage,
    UnsupportedProtocol,
}

#[derive(Debug, Clone, Copy, PartialEq, Eq, Structural)]
pub enum ValidationError {
    UnsupportedProtocol,
    MissingIdentifier,
    InvalidSequence,
    MessageTooLarge,
}

/// The outcome `Snapshot::validate` gives: the first failed check, in the
/// order protocol version, identifiers, sequence, size.
pub open spec fn snapshot_check(
    protocol_version: u16,
    phone_id: Seq<char>,
    session_id: Seq<char>,
    sequence: i64,
    full_text: Seq<char>,
) -> Result<(), ValidationError> {
    if protocol_version != PROTOCOL_VERSION {
        Err(ValidationError::UnsupportedProtocol)
    } else if phone_id.len() == 0 || session_id.len() == 0 {
        Err(ValidationError::MissingIdentifier)
    } else if sequence <= 0 {
        Err(ValidationError::InvalidSequence)
    } else if utf8_len(full_text) > MAX_MESSAGE_BYTES {
        Err(ValidationError::MessageTooLarge)
    } else {
        Ok(())
    }
}

pub open spec fn resume_check(r: Resume) -> Result<(), ValidationError> {
    if r.protocol_version != PROTOCOL_VERSION {
        Err(ValidationError::UnsupportedProtocol)
    } else if r.phone_id@.len() == 0 || r.session_id@.len() == 0 {
        Err(ValidationError::MissingIdentifier)
    } else if r.sequence <= 0 || r.last_ack_sequence < 0 || r.last_ack_sequence > r.sequence {
        Err(ValidationError::InvalidSequence)
    } else if utf8_len(r.full_text@) > MAX_MESSAGE_BYTES {
        Err(ValidationError::MessageTooLarge)
    } else {
        Ok(())
    }
}

/// Checks shared by messages that carry only identifiers.
pub open spec fn identifiers_check(
    protocol_version: u16,
    first: Seq<char>,
    second: Seq<char>,
) -> Result<(), ValidationError> {
    if protocol_version != PROTOCOL_VERSION {
        Err(ValidationError::UnsupportedProtocol)
    } else if first.len() == 0 || second.len() == 0 {
        Err(ValidationError::MissingIdentifier)
    } else {
        Ok(())
    }
}

pub open spec fn identifier_check(protocol_version: u16, id: Seq<char>) -> Result<
    (),
    ValidationError,
> {
    if protocol_version != PROTOCOL_VERSION {
        Err(ValidationError::UnsupportedProtocol)
    } else if id.len() == 0 {
        Err(ValidationError::MissingIdentifier)
    } else {
        Ok(())
    }
}

impl Snapshot {
    pub fn validate(&self) -> (result: Result<(), ValidationError>)
        ensures
            result == snapshot_check(
                self.protocol_version,
                self.phone_id@,
                self.session_id@,
                self.sequence,
                self.full_text@,
            ),
    {
        if self.protocol_version != PROTOCOL_VERSION {
            return Err(ValidationError::UnsupportedProtocol);
        }
        if self.phone_id.as_str().is_empty() || self.session_id.as_str().is_empty() {
            return Err(ValidationError::MissingIdentifier);
        }
        if self.sequence <= 0 {
            return Err(ValidationError::InvalidSequence);
        }
        if self.full_text.as_str().as_bytes().len() > MAX_MESSAGE_BYTES {
            return Err(ValidationError::MessageTooLarge);
        }
        Ok(())
    }
}

impl Resume {
    pub fn validate(&self) -> (result: Result<(), ValidationError>)
        ensures
            result == resume_check(*self),
    {
        if self.protocol_version != PROTOCOL_VERSION {
            return Err(ValidationError::UnsupportedProtocol);
        }
        if self.phone_id.as_str().is_empty() || self.session_id.as_str().is_empty() {
            return Err(ValidationError::MissingIdentifier);
        }
        if self.sequence <= 0 || self.last_ack_sequence < 0 || self.last_ack_sequence
            > self.sequence {
            return Err(ValidationError::InvalidSequence);
        }
        if self.full_text.as_str().as_bytes().len() > MAX_MESSAGE_BYTES {
            return Err(ValidationError::MessageTooLarge);
        }
        Ok(())
    }
}

/// Shared body of the identifier-only validations.
fn check_identifiers(protocol_version: u16, first: &String, second: &String) -> (result: Result<
    (),
    ValidationError,
>)
    ensures
        result == identifiers_check(protocol_version, first@, second@),
{
    if protocol_version != PROTOCOL_VERSION {
        return Err(ValidationError::UnsupportedProtocol);
    }
    if first.as_str().is_empty() || second.as_str().is_empty() {
        return Err(ValidationError::MissingIdentifier);
    }
    Ok(())
}

fn check_identifier(protocol_version: u16, id: &String) -> (result: Result<(), ValidationError>)
    ensures
        result == identifier_check(protocol_version, id@),
{
    if protocol_version != PROTOCOL_VERSION {
        return Err(ValidationError::UnsupportedProtocol);
    }
    if id.as_str().is_empty() {
        return Err(ValidationError::MissingIdentifier);
    }
    Ok(())
}

impl Cancel {
    pub fn validate(&self) -> (result: Result<(), ValidationError>)
        ensures
            result == identifiers_check(self.protocol_version, self.phone_id@, self.session_id@),
    {
        check_identifiers(self.protocol_version, &self.phone_id, &self.session_id)
    }
}

impl Probe {
    pub fn validate(&self) -> (result: Result<(), ValidationError>)
        ensures
            result == identifier_check(self.protocol_version, self.phone_id@),
    {
        check_identifier(self.protocol_version, &self.phone_id)
    }
}

impl HealthCheck {
    pub fn validate(&self) -> (result: Result<(), ValidationError>)
        ensures
            result == identifier_check(self.protocol_version, self.phone_id@),
    {
        check_identifier(self.protocol_version, &self.phone_id)
    }
}

impl SwitchAck {
    pub fn validate(&self) -> (result: Result<(), ValidationError>)
        ensures
            result == identifiers_check(self.protocol_version, self.request_id@, self.pc_id@),
    {
        check_identifiers(self.protocol_version, &self.request_id, &self.pc_id)
    }
}

/// A resume is accepted only with a positive sequence and a last
/// acknowledged sequence between 0 and it; one that claims an
/// acknowledgement beyond its own sequence is refused as an invalid
/// sequence once its protocol and identifiers are right.
pub proof fn law_resume_acknowledgement_is_not_ahead(r: Resume)
    ensures
        resume_check(r) is Ok ==> 0 < r.sequence && 0 <= r.last_ack_sequence <= r.sequence,
        r.protocol_version == PROTOCOL_VERSION && r.phone_id@.len() > 0 && r.session_id@.len() > 0
            && r.last_ack_sequence > r.sequence ==> resume_check(r) == Err::<(), ValidationError>(
            ValidationError::InvalidSequence,
        ),
{
}

} // verus!
