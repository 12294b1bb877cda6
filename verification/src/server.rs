//! The decisions of a phone connection: what to answer each message with,
//! which injector requests a session message turns into, and what the
//! computer's status line says afterwards. The connection loop that sends
//! and receives runs these steps.
use vstd::prelude::*;

use crate::auth::{validate_cancel_for_phone, validate_resume_for_phone, PhoneMessageError};
use crate::ipc::{InjectorRequest, InjectorResponse};
use crate::media::{image_bytes_match, image_matches, image_start_valid, ImageError, ImageStart};
use crate::protocol::{
    identifier_check, identifiers_check, resume_check, snapshot_check, Ack, ClientMessage,
    ClientSessionState, ErrorCode, HealthAck, ProbeResult, ProbeState, ProtocolError, Resume,
    ServerMessage, ServerSessionState, Snapshot, SwitchAck, Target, TargetState,
    ValidationError,
};
use crate::recovery::InjectorRequestFailure;
use crate::text::str_equal;
use crate::PROTOCOL_VERSION;

verus! {

broadcast use vstd::string::group_string_axioms;

/// What the computer's status line is told after a step.
#[derive(Debug, Clone, PartialEq, Eq)]
pub enum StatusNote {
    Unchanged,
    /// A request to the injector succeeded: the last error is cleared.
    ErrorCleared,
    /// Text now goes into this window.
    TypingIn(String),
    /// The target window is not in the foreground; the user should return to it.
    ReturnTo(String),
    /// The window that had the cursor was closed.
    InputWindowClosed,
    /// The text was edited on the computer; syncing stopped.
    EditedOnComputer,
    /// The text was submitted with Return; the input is over.
    InputSubmitted,
    /// The focused application does not take live input.
    AppUnsupported,
    /// The input service is unavailable.
    InjectorUnavailable,
    /// The input service restarted and the interrupted input is unconfirmed.
    InputRecovered,
    /// Input stopped: the outcome is unknown, or the states disagree.
    InputStopped { outcome_unknown: bool },
    /// The input session is over.
    InputFinished,
}

pub open spec fn text_of(value: Option<String>) -> Option<Seq<char>> {
    match value {
        Some(s) => Some(s@),
        None => None,
    }
}

/// `reply` is a `target` message for `session`.
pub open spec fn is_target_reply(
    reply: ServerMessage,
    session: Seq<char>,
    state: TargetState,
    name: Option<Seq<char>>,
) -> bool {
    reply matches ServerMessage::Target(t) && t.protocol_version == PROTOCOL_VERSION
        && t.session_id@ == session && t.target_state == state && text_of(t.target_name) == name
}

/// `reply` is an error message with `code`, about `session` where given.
pub open spec fn is_error_reply(reply: ServerMessage, code: ErrorCode, session: Option<Seq<char>>) -> bool {
    reply matches ServerMessage::Error(e) && e.protocol_version == PROTOCOL_VERSION && e.code
        == code && text_of(e.session_id) == session
}

/// `reply` acknowledges `sequence` of `session`, as finished or still active.
pub open spec fn is_ack_reply(reply: ServerMessage, session: Seq<char>, sequence: i64, finished: bool) -> bool {
    reply matches ServerMessage::Ack(a) && a.protocol_version == PROTOCOL_VERSION
        && a.session_id@ == session && a.applied_sequence == sequence && a.session_state == (
    if finished {
        ServerSessionState::Finished
    } else {
        ServerSessionState::Active
    })
}

fn target_reply(session: &str, state: TargetState, name: Option<String>) -> (reply: ServerMessage)
    ensures
        is_target_reply(reply, session@, state, text_of(name)),
{
    ServerMessage::Target(
        Target {
            protocol_version: PROTOCOL_VERSION,
            session_id: session.to_owned(),
            target_state: state,
            target_name: name,
        },
    )
}

fn error_reply(session: &str, code: ErrorCode) -> (reply: ServerMessage)
    ensures
        is_error_reply(reply, code, Some(session@)),
{
    ServerMessage::Error(
        ProtocolError {
            protocol_version: PROTOCOL_VERSION,
            code,
            session_id: Some(session.to_owned()),
        },
    )
}

/// The acknowledgement of an applied snapshot.
pub fn ack_reply(session: &str, sequence: i64, finished: bool) -> (reply: ServerMessage)
    ensures
        is_ack_reply(reply, session@, sequence, finished),
{
    ServerMessage::Ack(
        Ack {
            protocol_version: PROTOCOL_VERSION,
            session_id: session.to_owned(),
            applied_sequence: sequence,
            session_state: if finished {
                ServerSessionState::Finished
            } else {
                ServerSessionState::Active
            },
        },
    )
}

/// What the phone is told, and the status line shows, when the injector
/// answers a session request with something other than success.
pub open spec fn is_state_reply(
    reply: ServerMessage,
    note: StatusNote,
    session: Seq<char>,
    response: InjectorResponse,
) -> bool {
    match response {
        InjectorResponse::TargetNotForeground { target_name } => is_target_reply(
            reply,
            session,
            TargetState::NotForeground,
            Some(target_name@),
        ) && (note matches StatusNote::ReturnTo(n) && n@ == target_name@),
        InjectorResponse::TargetInvalid => is_target_reply(reply, session, TargetState::Invalid, None)
            && note == StatusNote::InputWindowClosed,
        InjectorResponse::TargetModified => is_error_reply(
            reply,
            ErrorCode::TargetModified,
            Some(session),
        ) && note == StatusNote::EditedOnComputer,
        InjectorResponse::TargetSubmitted => is_error_reply(
            reply,
            ErrorCode::TargetSubmitted,
            Some(session),
        ) && note == StatusNote::InputSubmitted,
        InjectorResponse::TargetUnsupported => is_error_reply(
            reply,
            ErrorCode::TargetUnavailable,
            Some(session),
        ) && note == StatusNote::AppUnsupported,
        InjectorResponse::TsfUnavailable => is_error_reply(
            reply,
            ErrorCode::InjectorUnavailable,
            Some(session),
        ) && note == StatusNote::InjectorUnavailable,
        InjectorResponse::InjectionUnknown => is_error_reply(
            reply,
            ErrorCode::InjectionUnknown,
            Some(session),
        ) && note == (StatusNote::InputStopped { outcome_unknown: true }),
        InjectorResponse::InvalidRequest => is_error_reply(
            reply,
            ErrorCode::SequenceConflict,
            Some(session),
        ) && note == (StatusNote::InputStopped { outcome_unknown: false }),
        _ => is_target_reply(reply, session, TargetState::Invalid, None) && note
            == StatusNote::Unchanged,
    }
}

/// Turns an injector answer that ends a session step into the message for
/// the phone and the status note.
pub fn injector_state_reply(session_id: &str, response: InjectorResponse) -> (result: (
    ServerMessage,
    StatusNote,
))
    ensures
        is_state_reply(result.0, result.1, session_id@, response),
{
    match response {
        InjectorResponse::TargetNotForeground { target_name } => {
            let note = StatusNote::ReturnTo(target_name.clone());
            (target_reply(session_id, TargetState::NotForeground, Some(target_name)), note)
        },
        InjectorResponse::TargetInvalid => (
            target_reply(session_id, TargetState::Invalid, None),
            StatusNote::InputWindowClosed,
        ),
        InjectorResponse::TargetModified => (
            error_reply(session_id, ErrorCode::TargetModified),
            StatusNote::EditedOnComputer,
        ),
        InjectorResponse::TargetSubmitted => (
            error_reply(session_id, ErrorCode::TargetSubmitted),
            StatusNote::InputSubmitted,
        ),
        InjectorResponse::TargetUnsupported => (
            error_reply(session_id, ErrorCode::TargetUnavailable),
            StatusNote::AppUnsupported,
        ),
        InjectorResponse::TsfUnavailable => (
            error_reply(session_id, ErrorCode::InjectorUnavailable),
            StatusNote::InjectorUnavailable,
        ),
        InjectorResponse::InjectionUnknown => (
            error_reply(session_id, ErrorCode::InjectionUnknown),
            StatusNote::InputStopped { outcome_unknown: true },
        ),
        InjectorResponse::InvalidRequest => (
            error_reply(session_id, ErrorCode::SequenceConflict),
            StatusNote::InputStopped { outcome_unknown: false },
        ),
        _ => (target_reply(session_id, TargetState::Invalid, None), StatusNote::Unchanged),
    }
}

/// The error code a failed injector request is reported with.
pub open spec fn failure_code(failure: InjectorRequestFailure) -> ErrorCode {
    match failure {
        InjectorRequestFailure::Unavailable => ErrorCode::InjectorUnavailable,
        InjectorRequestFailure::RecoveryRequired => ErrorCode::RecoveryRequired,
    }
}

/// The message for the phone when a request for `session_id` could not
/// reach the injector, or its outcome is unknown after a restart.
pub fn failure_reply(session_id: &str, failure: InjectorRequestFailure) -> (reply: ServerMessage)
    ensures
        is_error_reply(reply, failure_code(failure), Some(session_id@)),
{
    let code = match failure {
        InjectorRequestFailure::Unavailable => ErrorCode::InjectorUnavailable,
        InjectorRequestFailure::RecoveryRequired => ErrorCode::RecoveryRequired,
    };
    error_reply(session_id, code)
}

/// The status note every answer of the injector leaves, whatever the step.
pub fn request_outcome_note(answer: &Result<InjectorResponse, InjectorRequestFailure>) -> (note: StatusNote)
    ensures
        note == match *answer {
            Ok(_) => StatusNote::ErrorCleared,
            Err(InjectorRequestFailure::Unavailable) => StatusNote::InjectorUnavailable,
            Err(InjectorRequestFailure::RecoveryRequired) => StatusNote::InputRecovered,
        },
{
    match answer {
        Ok(_) => StatusNote::ErrorCleared,
        Err(InjectorRequestFailure::Unavailable) => StatusNote::InjectorUnavailable,
        Err(InjectorRequestFailure::RecoveryRequired) => StatusNote::InputRecovered,
    }
}

/// The probe result for the injector's answer to a target probe; anything
/// but a ready, unsupported or invalid target reads as unsupported.
pub open spec fn is_probe_result(
    result: ProbeResult,
    answer: Result<InjectorResponse, InjectorRequestFailure>,
) -> bool {
    &&& result.protocol_version == PROTOCOL_VERSION
    &&& match answer {
        Ok(InjectorResponse::TargetReady { target_name, activity_age_ms }) => result.target_state
            == ProbeState::Ready && text_of(result.target_name) == Some(target_name@)
            && result.activity_age_ms == Some(activity_age_ms),
        Ok(InjectorResponse::TargetInvalid) => result.target_state == ProbeState::Invalid
            && result.target_name is None && result.activity_age_ms is None,
        _ => result.target_state == ProbeState::Unsupported && result.target_name is None
            && result.activity_age_ms is None,
    }
}

pub fn probe_result(answer: Result<InjectorResponse, InjectorRequestFailure>) -> (result: ProbeResult)
    ensures
        is_probe_result(result, answer),
{
    match answer {
        Ok(InjectorResponse::TargetReady { target_name, activity_age_ms }) => ProbeResult {
            protocol_version: PROTOCOL_VERSION,
            target_state: ProbeState::Ready,
            target_name: Some(target_name),
            activity_age_ms: Some(activity_age_ms),
        },
        Ok(InjectorResponse::TargetInvalid) => ProbeResult {
            protocol_version: PROTOCOL_VERSION,
            target_state: ProbeState::Invalid,
            target_name: None,
            activity_age_ms: None,
        },
        _ => ProbeResult {
            protocol_version: PROTOCOL_VERSION,
            target_state: ProbeState::Unsupported,
            target_name: None,
            activity_age_ms: None,
        },
    }
}

/// Why a message ends the connection.
#[derive(Debug, Clone, Copy, PartialEq, Eq, Structural)]
pub enum MessageRefusal {
    InvalidHealthCheck,
    HealthCheckPhoneMismatch,
    InvalidSwitchAck,
    SwitchAckComputerMismatch,
    InvalidProbe,
    InvalidSnapshot,
    InvalidCancel(PhoneMessageError),
    InvalidResume(PhoneMessageError),
}

/// Which session message a flow serves.
#[derive(Debug, Clone, Copy, PartialEq, Eq, Structural)]
pub enum FlowKind {
    Start,
    Update,
    Finish,
    Resume(ClientSessionState),
}

/// A session message in progress: what the phone asked for.
#[derive(Debug, Clone, PartialEq, Eq)]
pub struct SessionFlow {
    pub kind: FlowKind,
    pub session_id: String,
    pub sequence: i64,
    pub full_text: String,
}

/// Which injector request a flow waits on.
#[derive(Debug, Clone, Copy, PartialEq, Eq, Structural)]
pub enum FlowStage {
    /// `BeginSession`.
    Begin,
    /// `ApplyState`.
    Apply,
    /// `FinishSession`.
    Complete,
}

/// The next step of a flow.
#[derive(Debug, Clone, PartialEq, Eq)]
pub enum FlowStep {
    /// Send `notice` to the phone if there is one, show `note`, send
    /// `request` to the injector and continue at `stage` with its answer.
    Request { notice: Option<ServerMessage>, note: StatusNote, request: InjectorRequest, stage: FlowStage },
    /// Send `reply` to the phone, show `note`; the message is handled.
    Reply { reply: ServerMessage, note: StatusNote },
}

/// What to do with a message from an authenticated phone.
#[derive(Debug, Clone, PartialEq, Eq)]
pub enum MessagePlan {
    /// End the connection.
    Close(MessageRefusal),
    /// Send this reply; nothing else.
    Reply(ServerMessage),
    /// Match the acknowledgement against the pending switch request.
    AcknowledgeSwitch(SwitchAck),
    /// Probe the focused target and answer with `probe_result`.
    Probe,
    /// Cancel this session at the injector, then mark the input finished.
    Cancel(String),
    /// Start a session flow with this first request.
    Flow(SessionFlow, InjectorRequest, FlowStage),
}

pub open spec fn is_apply_request(request: InjectorRequest, flow: SessionFlow) -> bool {
    request matches InjectorRequest::ApplyState { session_id, sequence, full_text } && session_id@
        == flow.session_id@ && sequence == flow.sequence && full_text@ == flow.full_text@
}

pub open spec fn flow_from_snapshot(flow: SessionFlow, kind: FlowKind, s: Snapshot) -> bool {
    flow.kind == kind && flow.session_id@ == s.session_id@ && flow.sequence == s.sequence
        && flow.full_text@ == s.full_text@
}

/// The plan for a snapshot message (start, update or finish).
pub open spec fn is_snapshot_plan(plan: MessagePlan, kind: FlowKind, s: Snapshot, phone: Seq<char>) -> bool {
    if snapshot_check(s.protocol_version, s.phone_id@, s.session_id@, s.sequence, s.full_text@) is Err {
        plan == MessagePlan::Close(MessageRefusal::InvalidSnapshot)
    } else if s.phone_id@ != phone {
        plan matches MessagePlan::Reply(r) && is_error_reply(
            r,
            ErrorCode::InvalidMessage,
            Some(s.session_id@),
        )
    } else {
        plan matches MessagePlan::Flow(flow, request, stage) && flow_from_snapshot(flow, kind, s)
            && if kind == FlowKind::Start {
            stage == FlowStage::Begin && (request matches InjectorRequest::BeginSession {
                session_id,
            } && session_id@ == s.session_id@)
        } else {
            stage == FlowStage::Apply && is_apply_request(request, flow)
        }
    }
}

/// The plan `plan_message` makes for a message.
pub open spec fn is_message_plan(
    plan: MessagePlan,
    message: ClientMessage,
    phone: Seq<char>,
    pc_id: Seq<char>,
) -> bool {
    match message {
        ClientMessage::HealthCheck(h) => if identifier_check(h.protocol_version, h.phone_id@) is Err {
            plan == MessagePlan::Close(MessageRefusal::InvalidHealthCheck)
        } else if h.phone_id@ != phone {
            plan == MessagePlan::Close(MessageRefusal::HealthCheckPhoneMismatch)
        } else {
            plan == MessagePlan::Reply(
                ServerMessage::HealthAck(HealthAck { protocol_version: PROTOCOL_VERSION }),
            )
        },
        ClientMessage::SwitchAck(a) => if identifiers_check(
            a.protocol_version,
            a.request_id@,
            a.pc_id@,
        ) is Err {
            plan == MessagePlan::Close(MessageRefusal::InvalidSwitchAck)
        } else if a.pc_id@ != pc_id {
            plan == MessagePlan::Close(MessageRefusal::SwitchAckComputerMismatch)
        } else {
            plan == MessagePlan::AcknowledgeSwitch(a)
        },
        ClientMessage::Probe(p) => if identifier_check(p.protocol_version, p.phone_id@) is Err {
            plan == MessagePlan::Close(MessageRefusal::InvalidProbe)
        } else if p.phone_id@ != phone {
            plan matches MessagePlan::Reply(r) && is_error_reply(r, ErrorCode::InvalidMessage, None)
        } else {
            plan == MessagePlan::Probe
        },
        ClientMessage::Start(s) => is_snapshot_plan(plan, FlowKind::Start, s, phone),
        ClientMessage::Update(s) => is_snapshot_plan(plan, FlowKind::Update, s, phone),
        ClientMessage::Finish(s) => is_snapshot_plan(plan, FlowKind::Finish, s, phone),
        ClientMessage::Resume(r) => if resume_check(r) is Err {
            plan matches MessagePlan::Close(MessageRefusal::InvalidResume(PhoneMessageError::Invalid(_)))
        } else if r.phone_id@ != phone {
            plan == MessagePlan::Close(MessageRefusal::InvalidResume(PhoneMessageError::PhoneMismatch))
        } else {
            plan matches MessagePlan::Flow(flow, request, stage) && flow.kind == FlowKind::Resume(
                r.session_state,
            ) && flow.session_id@ == r.session_id@ && flow.sequence == r.sequence
                && flow.full_text@ == r.full_text@ && stage == FlowStage::Apply && is_apply_request(
                request,
                flow,
            )
        },
        ClientMessage::Cancel(c) => if identifiers_check(
            c.protocol_version,
            c.phone_id@,
            c.session_id@,
        ) is Err {
            plan matches MessagePlan::Close(MessageRefusal::InvalidCancel(PhoneMessageError::Invalid(_)))
        } else if c.phone_id@ != phone {
            plan == MessagePlan::Close(MessageRefusal::InvalidCancel(PhoneMessageError::PhoneMismatch))
        } else {
            plan matches MessagePlan::Cancel(id) && id@ == c.session_id@
        },
    }
}

fn apply_request(flow: &SessionFlow) -> (request: InjectorRequest)
    ensures
        is_apply_request(request, *flow),
{
    InjectorRequest::ApplyState {
        session_id: flow.session_id.clone(),
        sequence: flow.sequence,
        full_text: flow.full_text.clone(),
    }
}

fn plan_snapshot(kind: FlowKind, snapshot: Snapshot, phone: &str) -> (plan: MessagePlan)
    ensures
        is_snapshot_plan(plan, kind, snapshot, phone@),
{
    if snapshot.validate().is_err() {
        return MessagePlan::Close(MessageRefusal::InvalidSnapshot);
    }
    if !str_equal(snapshot.phone_id.as_str(), phone) {
        return MessagePlan::Reply(error_reply(snapshot.session_id.as_str(), ErrorCode::InvalidMessage));
    }
    let begin = InjectorRequest::BeginSession { session_id: snapshot.session_id.clone() };
    let flow = SessionFlow {
        kind,
        session_id: snapshot.session_id,
        sequence: snapshot.sequence,
        full_text: snapshot.full_text,
    };
    if kind == FlowKind::Start {
        MessagePlan::Flow(flow, begin, FlowStage::Begin)
    } else {
        let request = apply_request(&flow);
        MessagePlan::Flow(flow, request, FlowStage::Apply)
    }
}

/// Decides what a message from the phone `authenticated_phone_id` calls for
/// on the computer `pc_id`: health checks are answered, switch
/// acknowledgements must name this computer, probes and session messages
/// must come from the authenticated phone, and each session message becomes
/// its first injector request.
pub fn plan_message(message: ClientMessage, authenticated_phone_id: &str, pc_id: &str) -> (plan: MessagePlan)
    ensures
        is_message_plan(plan, message, authenticated_phone_id@, pc_id@),
{
    match message {
        ClientMessage::HealthCheck(health) => {
            if health.validate().is_err() {
                MessagePlan::Close(MessageRefusal::InvalidHealthCheck)
            } else if !str_equal(health.phone_id.as_str(), authenticated_phone_id) {
                MessagePlan::Close(MessageRefusal::HealthCheckPhoneMismatch)
            } else {
                MessagePlan::Reply(ServerMessage::HealthAck(HealthAck { protocol_version: PROTOCOL_VERSION }))
            }
        },
        ClientMessage::SwitchAck(ack) => {
            if ack.validate().is_err() {
                MessagePlan::Close(MessageRefusal::InvalidSwitchAck)
            } else if !str_equal(ack.pc_id.as_str(), pc_id) {
                MessagePlan::Close(MessageRefusal::SwitchAckComputerMismatch)
            } else {
                MessagePlan::AcknowledgeSwitch(ack)
            }
        },
        ClientMessage::Probe(probe) => {
            if probe.validate().is_err() {
                MessagePlan::Close(MessageRefusal::InvalidProbe)
            } else if !str_equal(probe.phone_id.as_str(), authenticated_phone_id) {
                MessagePlan::Reply(
                    ServerMessage::Error(
                        ProtocolError {
                            protocol_version: PROTOCOL_VERSION,
                            code: ErrorCode::InvalidMessage,
                            session_id: None,
                        },
                    ),
                )
            } else {
                MessagePlan::Probe
            }
        },
        ClientMessage::Start(snapshot) => plan_snapshot(FlowKind::Start, snapshot, authenticated_phone_id),
        ClientMessage::Update(snapshot) => plan_snapshot(FlowKind::Update, snapshot, authenticated_phone_id),
        ClientMessage::Finish(snapshot) => plan_snapshot(FlowKind::Finish, snapshot, authenticated_phone_id),
        ClientMessage::Resume(resume) => {
            match validate_resume_for_phone(&resume, authenticated_phone_id) {
                Err(e) => MessagePlan::Close(MessageRefusal::InvalidResume(e)),
                Ok(()) => {
                    let flow = SessionFlow {
                        kind: FlowKind::Resume(resume.session_state),
                        session_id: resume.session_id,
                        sequence: resume.sequence,
                        full_text: resume.full_text,
                    };
                    let request = apply_request(&flow);
                    MessagePlan::Flow(flow, request, FlowStage::Apply)
                },
            }
        },
        ClientMessage::Cancel(cancel) => {
            match validate_cancel_for_phone(&cancel, authenticated_phone_id) {
                Err(e) => MessagePlan::Close(MessageRefusal::InvalidCancel(e)),
                Ok(()) => MessagePlan::Cancel(cancel.session_id),
            }
        },
    }
}

/// Whether a flow ends with a `FinishSession` once its text is applied.
pub open spec fn finishes(kind: FlowKind) -> bool {
    kind == FlowKind::Finish || kind == FlowKind::Resume(ClientSessionState::Finishing)
}

/// The next step of a flow after the injector answered at `stage`.
pub open spec fn is_next_step(
    step: FlowStep,
    flow: SessionFlow,
    stage: FlowStage,
    answer: Result<InjectorResponse, InjectorRequestFailure>,
) -> bool {
    let session = flow.session_id@;
    match answer {
        Err(failure) => step matches FlowStep::Reply { reply, note } && is_error_reply(
            reply,
            failure_code(failure),
            Some(session),
        ) && note == StatusNote::Unchanged,
        Ok(response) => match stage {
            FlowStage::Begin => match response {
                InjectorResponse::SessionBegun { target_name } => step matches FlowStep::Request {
                    notice,
                    note,
                    request,
                    stage: next,
                } && (notice matches Some(n) && is_target_reply(
                    n,
                    session,
                    TargetState::Active,
                    Some(target_name@),
                )) && (note matches StatusNote::TypingIn(t) && t@ == target_name@) && next
                    == FlowStage::Apply && is_apply_request(request, flow),
                InjectorResponse::SessionFinished { session_id, sequence, full_text }
                    if session_id@ == session && sequence == flow.sequence && full_text@
                    == flow.full_text@ => step matches FlowStep::Reply { reply, note }
                    && is_ack_reply(reply, session, sequence, true) && note
                    == StatusNote::InputFinished,
                _ => step matches FlowStep::Reply { reply, note } && is_state_reply(
                    reply,
                    note,
                    session,
                    response,
                ),
            },
            FlowStage::Apply => match response {
                InjectorResponse::Finished { sequence } if flow.kind is Resume => step matches FlowStep::Reply {
                    reply,
                    note,
                } && is_ack_reply(reply, session, sequence, true) && note
                    == StatusNote::InputFinished,
                InjectorResponse::Applied { sequence } => if finishes(flow.kind) {
                    step matches FlowStep::Request { notice, note, request, stage: next }
                        && notice is None && note == StatusNote::Unchanged && next
                        == FlowStage::Complete && (request matches InjectorRequest::FinishSession {
                        session_id,
                        sequence: s,
                    } && session_id@ == session && s == sequence)
                } else {
                    step matches FlowStep::Reply { reply, note } && is_ack_reply(
                        reply,
                        session,
                        sequence,
                        false,
                    ) && note == StatusNote::Unchanged
                },
                _ => step matches FlowStep::Reply { reply, note } && is_state_reply(
                    reply,
                    note,
                    session,
                    response,
                ),
            },
            FlowStage::Complete => match response {
                InjectorResponse::Finished { sequence } => step matches FlowStep::Reply { reply, note }
                    && is_ack_reply(reply, session, sequence, true) && note
                    == StatusNote::InputFinished,
                _ => step matches FlowStep::Reply { reply, note } && is_state_reply(
                    reply,
                    note,
                    session,
                    response,
                ),
            },
        },
    }
}

/// Continues a session flow with the injector's answer at `stage`: a begun
/// session announces its target and applies the text; a session already
/// finished with this very snapshot is acknowledged as finished; applied
/// text is acknowledged, or finished first when the phone is finishing; a
/// failed request is reported with its error code; any other answer is
/// reported through `injector_state_reply`.
pub fn continue_flow(
    flow: &SessionFlow,
    stage: FlowStage,
    answer: Result<InjectorResponse, InjectorRequestFailure>,
) -> (step: FlowStep)
    ensures
        is_next_step(step, *flow, stage, answer),
{
    let session = flow.session_id.as_str();
    let response = match answer {
        Err(failure) => {
            return FlowStep::Reply { reply: failure_reply(session, failure), note: StatusNote::Unchanged };
        },
        Ok(response) => response,
    };
    match stage {
        FlowStage::Begin => {
            match response {
                InjectorResponse::SessionBegun { target_name } => {
                    let note = StatusNote::TypingIn(target_name.clone());
                    let notice = target_reply(session, TargetState::Active, Some(target_name));
                    FlowStep::Request {
                        notice: Some(notice),
                        note,
                        request: apply_request(flow),
                        stage: FlowStage::Apply,
                    }
                },
                InjectorResponse::SessionFinished { session_id, sequence, full_text } => {
                    if str_equal(session_id.as_str(), session) && sequence == flow.sequence
                        && str_equal(full_text.as_str(), flow.full_text.as_str()) {
                        FlowStep::Reply {
                            reply: ack_reply(session, sequence, true),
                            note: StatusNote::InputFinished,
                        }
                    } else {
                        let (reply, note) = injector_state_reply(
                            session,
                            InjectorResponse::SessionFinished { session_id, sequence, full_text },
                        );
                        FlowStep::Reply { reply, note }
                    }
                },
                other => {
                    let (reply, note) = injector_state_reply(session, other);
                    FlowStep::Reply { reply, note }
                },
            }
        },
        FlowStage::Apply => {
            match response {
                InjectorResponse::Finished { sequence } if matches!(flow.kind, FlowKind::Resume(_)) => {
                    FlowStep::Reply { reply: ack_reply(session, sequence, true), note: StatusNote::InputFinished }
                },
                InjectorResponse::Applied { sequence } => {
                    let finishing = match flow.kind {
                        FlowKind::Finish => true,
                        FlowKind::Resume(ClientSessionState::Finishing) => true,
                        _ => false,
                    };
                    if finishing {
                        FlowStep::Request {
                            notice: None,
                            note: StatusNote::Unchanged,
                            request: InjectorRequest::FinishSession { session_id: flow.session_id.clone(), sequence },
                            stage: FlowStage::Complete,
                        }
                    } else {
                        FlowStep::Reply { reply: ack_reply(session, sequence, false), note: StatusNote::Unchanged }
                    }
                },
                other => {
                    let (reply, note) = injector_state_reply(session, other);
                    FlowStep::Reply { reply, note }
                },
            }
        },
        FlowStage::Complete => {
            match response {
                InjectorResponse::Finished { sequence } => {
                    FlowStep::Reply { reply: ack_reply(session, sequence, true), note: StatusNote::InputFinished }
                },
                other => {
                    let (reply, note) = injector_state_reply(session, other);
                    FlowStep::Reply { reply, note }
                },
            }
        },
    }
}

/// The session whose target is watched while the phone is idle, after a
/// message: a start or update of a named session, or an active resume,
/// sets it; a finish or a finishing resume clears it; other messages keep it.
pub open spec fn monitored_after(current: Option<String>, message: ClientMessage) -> Option<Seq<char>> {
    match message {
        ClientMessage::Start(s) => if s.session_id@.len() > 0 {
            Some(s.session_id@)
        } else {
            text_of(current)
        },
        ClientMessage::Update(s) => if s.session_id@.len() > 0 {
            Some(s.session_id@)
        } else {
            text_of(current)
        },
        ClientMessage::Resume(r) => if r.session_state == ClientSessionState::Active
            && r.session_id@.len() > 0 {
            Some(r.session_id@)
        } else {
            None
        },
        ClientMessage::Finish(_) => None,
        _ => text_of(current),
    }
}

pub fn next_monitored_session(current: Option<String>, message: &ClientMessage) -> (next: Option<String>)
    ensures
        text_of(next) == monitored_after(current, *message),
{
    match message {
        ClientMessage::Start(s) | ClientMessage::Update(s) => {
            if !s.session_id.as_str().is_empty() {
                Some(s.session_id.clone())
            } else {
                current
            }
        },
        ClientMessage::Resume(r) => {
            if r.session_state == ClientSessionState::Active && !r.session_id.as_str().is_empty() {
                Some(r.session_id.clone())
            } else {
                None
            }
        },
        ClientMessage::Finish(_) => None,
        _ => current,
    }
}

/// What the `type` field of an incoming text message says it is.
#[derive(Debug, Clone, Copy, PartialEq, Eq, Structural)]
pub enum InboundKind {
    /// A target probe: a control message that also marks the connection as a probe.
    Probe,
    /// A health check or switch acknowledgement.
    Control,
    /// The announcement of an image.
    ImageStart,
    /// A session message, which needs the connection to hold the input.
    Input,
}

pub open spec fn inbound_kind_of(message_type: Option<Seq<char>>) -> InboundKind {
    match message_type {
        Some(t) => if t == "probe"@ {
            InboundKind::Probe
        } else if t == "health_check"@ || t == "switch_ack"@ {
            InboundKind::Control
        } else if t == "image_start"@ {
            InboundKind::ImageStart
        } else {
            InboundKind::Input
        },
        None => InboundKind::Input,
    }
}

pub fn classify_inbound(message_type: Option<&str>) -> (kind: InboundKind)
    ensures
        kind == inbound_kind_of(
            match message_type {
                Some(t) => Some(t@),
                None => None,
            },
        ),
{
    match message_type {
        Some(t) => {
            if str_equal(t, "probe") {
                InboundKind::Probe
            } else if str_equal(t, "health_check") || str_equal(t, "switch_ack") {
                InboundKind::Control
            } else if str_equal(t, "image_start") {
                InboundKind::ImageStart
            } else {
                InboundKind::Input
            }
        },
        None => InboundKind::Input,
    }
}

/// The connection that currently holds the input: at most one, named by
/// phone and connection id. A newer connection of any phone takes it over.
pub struct ActiveConnection {
    pub phone_id: String,
    pub connection_id: u64,
}

pub open spec fn holds_input(active: Option<ActiveConnection>, phone_id: Seq<char>, connection_id: u64) -> bool {
    active matches Some(a) && a.phone_id@ == phone_id && a.connection_id == connection_id
}

/// Whether the connection still holds the input.
pub fn is_active_connection(active: &Option<ActiveConnection>, phone_id: &str, connection_id: u64) -> (holds: bool)
    ensures
        holds == holds_input(*active, phone_id@, connection_id),
{
    match active {
        Some(a) => str_equal(a.phone_id.as_str(), phone_id) && a.connection_id == connection_id,
        None => false,
    }
}

/// Gives the input to a connection, superseding whichever held it.
pub fn claim_active_connection(active: &mut Option<ActiveConnection>, phone_id: &str, connection_id: u64)
    ensures
        holds_input(*final(active), phone_id@, connection_id),
{
    *active = Some(ActiveConnection { phone_id: phone_id.to_owned(), connection_id });
}

/// Releases the input when a connection ends, unless another connection has
/// taken it over meanwhile. Reports whether it was released.
pub fn release_active_connection(active: &mut Option<ActiveConnection>, phone_id: &str, connection_id: u64) -> (released: bool)
    ensures
        released == holds_input(*old(active), phone_id@, connection_id),
        released ==> *final(active) is None,
        !released ==> *final(active) == *old(active),
{
    if is_active_connection(active, phone_id, connection_id) {
        *active = None;
        true
    } else {
        false
    }
}

/// Why an image transfer failed.
#[derive(Debug, Clone, Copy, PartialEq, Eq, Structural)]
pub enum ImageFailure {
    /// Another image is still announced and not yet received.
    TransferBusy,
    /// The bytes do not match the announcement.
    IntegrityFailed,
    /// The clipboard could not take the image.
    ClipboardFailed,
}

/// The answer to an image transfer, by transfer id.
#[derive(Debug, Clone, PartialEq, Eq)]
pub struct ImageReply {
    pub transfer_id: String,
    /// `None` when the image is on the clipboard.
    pub failure: Option<ImageFailure>,
}

/// Takes an image announcement: an invalid one ends the connection
/// (`Err`); while another announced image is still awaited the new one is
/// answered as busy; otherwise it becomes the awaited image.
pub fn on_image_start(pending: &mut Option<ImageStart>, image: ImageStart, authenticated_phone_id: &str) -> (result: Result<
    Option<ImageReply>,
    ImageError,
>)
    ensures
        !image_start_valid(image, authenticated_phone_id@) ==> result == Err::<Option<ImageReply>, ImageError>(
            ImageError::InvalidMetadata,
        ) && *final(pending) == *old(pending),
        image_start_valid(image, authenticated_phone_id@) && *old(pending) is Some ==> (result matches Ok(
            Some(reply),
        ) && reply.transfer_id@ == image.transfer_id@ && reply.failure == Some(
            ImageFailure::TransferBusy,
        )) && *final(pending) == *old(pending),
        image_start_valid(image, authenticated_phone_id@) && *old(pending) is None ==> result == Ok::<
            Option<ImageReply>,
            ImageError,
        >(None) && *final(pending) == Some(image),
{
    image.validate(authenticated_phone_id)?;
    if pending.is_some() {
        Ok(Some(ImageReply { transfer_id: image.transfer_id, failure: Some(ImageFailure::TransferBusy) }))
    } else {
        *pending = Some(image);
        Ok(None)
    }
}

/// What to do with the bytes of an image.
#[derive(Debug, Clone, PartialEq, Eq)]
pub enum ImageArrival {
    /// No image was announced; the bytes are dropped.
    Ignored,
    /// The bytes are not the announced image.
    Rejected(ImageReply),
    /// The bytes are the announced image: put them on the clipboard.
    Store(ImageStart),
}

/// Takes the bytes of an image: they answer the awaited announcement, which
/// is consumed either way.
pub fn on_image_bytes(pending: &mut Option<ImageStart>, bytes: &[u8]) -> (arrival: ImageArrival)
    ensures
        *final(pending) is None,
        match *old(pending) {
            None => arrival == ImageArrival::Ignored,
            Some(image) => if image_bytes_match(image, bytes@) {
                arrival == ImageArrival::Store(image)
            } else {
                arrival matches ImageArrival::Rejected(reply) && reply.transfer_id@
                    == image.transfer_id@ && reply.failure == Some(ImageFailure::IntegrityFailed)
            },
        },
{
    let image = match pending.take() {
        Some(image) => image,
        None => return ImageArrival::Ignored,
    };
    if image_matches(&image, bytes) {
        ImageArrival::Store(image)
    } else {
        ImageArrival::Rejected(ImageReply { transfer_id: image.transfer_id, failure: Some(ImageFailure::IntegrityFailed) })
    }
}

/// The answer once the clipboard took the image, or did not.
pub fn image_stored_reply(image: &ImageStart, stored: bool) -> (reply: ImageReply)
    ensures
        reply.transfer_id@ == image.transfer_id@,
        reply.failure == if stored {
            None
        } else {
            Some(ImageFailure::ClipboardFailed)
        },
{
    ImageReply {
        transfer_id: image.transfer_id.clone(),
        failure: if stored {
            None
        } else {
            Some(ImageFailure::ClipboardFailed)
        },
    }
}

/// The JSON `type` of an image answer.
pub fn image_reply_type(reply: &ImageReply) -> (message_type: &'static str)
    ensures
        message_type@ == if reply.failure is None { "image_ack"@ } else { "image_error"@ },
{
    match reply.failure {
        None => "image_ack",
        Some(_) => "image_error",
    }
}

/// The error code the phone is given for a failed image transfer.
pub fn image_failure_code(failure: ImageFailure) -> (code: &'static str)
    ensures
        code@ == match failure {
            ImageFailure::TransferBusy => "transfer_busy"@,
            ImageFailure::IntegrityFailed => "integrity_failed"@,
            ImageFailure::ClipboardFailed => "clipboard_failed"@,
        },
{
    match failure {
        ImageFailure::TransferBusy => "transfer_busy",
        ImageFailure::IntegrityFailed => "integrity_failed",
        ImageFailure::ClipboardFailed => "clipboard_failed",
    }
}

/// The answer to a phone that was not let in.
pub fn auth_failed_reply() -> (reply: ServerMessage)
    ensures
        reply == ServerMessage::Error(
            ProtocolError { protocol_version: PROTOCOL_VERSION, code: ErrorCode::AuthFailed, session_id: None },
        ),
{
    ServerMessage::Error(ProtocolError { protocol_version: PROTOCOL_VERSION, code: ErrorCode::AuthFailed, session_id: None })
}

/// What a poll of the watched session leads to.
#[derive(Debug, Clone, PartialEq, Eq)]
pub enum MonitorStep {
    /// The session is still active: keep watching.
    Keep,
    /// Stop watching, and tell the phone.
    Stop { reply: ServerMessage, note: StatusNote },
}

/// Reads the injector's answer to a query of the watched session.
pub fn monitor_step(session_id: &str, answer: Result<InjectorResponse, InjectorRequestFailure>) -> (step: MonitorStep)
    ensures
        match answer {
            Ok(InjectorResponse::SessionActive { .. }) => step == MonitorStep::Keep,
            Ok(response) => step matches MonitorStep::Stop { reply, note } && is_state_reply(
                reply,
                note,
                session_id@,
                response,
            ),
            Err(failure) => step matches MonitorStep::Stop { reply, note } && is_error_reply(
                reply,
                failure_code(failure),
                Some(session_id@),
            ) && note == StatusNote::Unchanged,
        },
{
    match answer {
        Ok(InjectorResponse::SessionActive { .. }) => MonitorStep::Keep,
        Ok(response) => {
            let (reply, note) = injector_state_reply(session_id, response);
            MonitorStep::Stop { reply, note }
        },
        Err(failure) => MonitorStep::Stop { reply: failure_reply(session_id, failure), note: StatusNote::Unchanged },
    }
}

/// A finishing message is finished once its text is applied: when the
/// injector answers `Applied` to a `Finish`, or to a `Resume` whose phone is
/// finishing, the next step asks the injector to finish that session at the
/// applied sequence; for any other flow it acknowledges the session as
/// still active.
pub proof fn law_applied_finishing_flow_is_finished(step: FlowStep, flow: SessionFlow, applied: i64)
    requires
        is_next_step(step, flow, FlowStage::Apply, Ok(InjectorResponse::Applied { sequence: applied })),
    ensures
        flow.kind == FlowKind::Finish || flow.kind == FlowKind::Resume(ClientSessionState::Finishing) ==> (
        step matches FlowStep::Request { notice, note, request, stage } && notice is None && note
            == StatusNote::Unchanged && stage == FlowStage::Complete && (request matches InjectorRequest::FinishSession {
            session_id,
            sequence,
        } && session_id@ == flow.session_id@ && sequence == applied)),
        flow.kind == FlowKind::Start || flow.kind == FlowKind::Update || flow.kind == FlowKind::Resume(
            ClientSessionState::Active,
        ) ==> (step matches FlowStep::Reply { reply, note } && note == StatusNote::Unchanged && (reply matches ServerMessage::Ack(a)
            && a.session_id@ == flow.session_id@ && a.applied_sequence == applied && a.session_state
            == ServerSessionState::Active)),
{
}

} // verus!
