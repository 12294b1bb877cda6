//! Deciding what an interrupted injector request did, after reconnecting.
use vstd::prelude::*;

use crate::ipc::{InjectorRequest, InjectorResponse};
use crate::text::str_equal;

verus! {

/// Why a request to the injector failed.
#[derive(Debug, Clone, Copy, PartialEq, Eq, Structural)]
pub enum InjectorRequestFailure {
    /// The injector cannot be reached.
    Unavailable,
    /// The injector is back, but whether the request took effect is unknown.
    RecoveryRequired,
}

/// What the injector's session state says about an interrupted request.
#[derive(Debug, Clone, Copy, PartialEq, Eq, Structural)]
pub enum ReconcileDecision {
    Applied,
    Finished,
    Retry,
    Unknown,
}

pub open spec fn apply_recovery(
    session_id: Seq<char>,
    sequence: i64,
    full_text: Seq<char>,
    state: InjectorResponse,
) -> ReconcileDecision {
    match state {
        InjectorResponse::SessionFinished {
            session_id: finished_session,
            sequence: finished_sequence,
            full_text: finished_text,
        } => if finished_session@ == session_id && finished_sequence == sequence
            && finished_text@ == full_text {
            ReconcileDecision::Finished
        } else {
            ReconcileDecision::Unknown
        },
        InjectorResponse::SessionActive {
            session_id: active_session,
            sequence: active_sequence,
            full_text: active_text,
        } => if active_session@ == session_id && active_sequence == sequence && active_text@
            == full_text {
            ReconcileDecision::Applied
        } else if active_session@ == session_id && active_sequence < sequence {
            ReconcileDecision::Retry
        } else {
            ReconcileDecision::Unknown
        },
        _ => ReconcileDecision::Unknown,
    }
}

pub open spec fn finish_recovery(session_id: Seq<char>, sequence: i64, state: InjectorResponse) -> ReconcileDecision {
    match state {
        InjectorResponse::SessionFinished {
            session_id: finished_session,
            sequence: finished_sequence,
            ..
        } => if finished_session@ == session_id && finished_sequence == sequence {
            ReconcileDecision::Finished
        } else {
            ReconcileDecision::Unknown
        },
        InjectorResponse::SessionActive {
            session_id: active_session,
            sequence: active_sequence,
            ..
        } => if active_session@ == session_id && active_sequence == sequence {
            ReconcileDecision::Retry
        } else {
            ReconcileDecision::Unknown
        },
        _ => ReconcileDecision::Unknown,
    }
}

/// Classifies the injector's session state after an `ApplyState` request was
/// interrupted: the exact snapshot is applied or finished, the injector is
/// behind and the request may be replayed, or nothing can be concluded.
pub fn classify_apply_recovery(
    session_id: &str,
    sequence: i64,
    full_text: &str,
    state: &InjectorResponse,
) -> (decision: ReconcileDecision)
    ensures
        decision == apply_recovery(session_id@, sequence, full_text@, *state),
{
    match state {
        InjectorResponse::SessionFinished {
            session_id: finished_session,
            sequence: finished_sequence,
            full_text: finished_text,
        } => {
            if str_equal(finished_session.as_str(), session_id) && *finished_sequence == sequence
                && str_equal(finished_text.as_str(), full_text) {
                ReconcileDecision::Finished
            } else {
                ReconcileDecision::Unknown
            }
        },
        InjectorResponse::SessionActive {
            session_id: active_session,
            sequence: active_sequence,
            full_text: active_text,
        } => {
            let same_session = str_equal(active_session.as_str(), session_id);
            if same_session && *active_sequence == sequence && str_equal(
                active_text.as_str(),
                full_text,
            ) {
                ReconcileDecision::Applied
            } else if same_session && *active_sequence < sequence {
                ReconcileDecision::Retry
            } else {
                ReconcileDecision::Unknown
            }
        },
        _ => ReconcileDecision::Unknown,
    }
}

/// Classifies the injector's session state after a `FinishSession` request
/// was interrupted.
pub fn classify_finish_recovery(session_id: &str, sequence: i64, state: &InjectorResponse) -> (decision: ReconcileDecision)
    ensures
        decision == finish_recovery(session_id@, sequence, *state),
{
    match state {
        InjectorResponse::SessionFinished {
            session_id: finished_session,
            sequence: finished_sequence,
            ..
        } => {
            if str_equal(finished_session.as_str(), session_id) && *finished_sequence == sequence {
                ReconcileDecision::Finished
            } else {
                ReconcileDecision::Unknown
            }
        },
        InjectorResponse::SessionActive {
            session_id: active_session,
            sequence: active_sequence,
            ..
        } => {
            if str_equal(active_session.as_str(), session_id) && *active_sequence == sequence {
                ReconcileDecision::Retry
            } else {
                ReconcileDecision::Unknown
            }
        },
        _ => ReconcileDecision::Unknown,
    }
}

/// First step after reconnecting: how to find out what happened to the
/// interrupted request.
#[derive(Debug, Clone, PartialEq, Eq)]
pub enum ReconcilePlan {
    /// Sending the request again cannot repeat a text edit.
    Replay,
    /// Ask the injector for this session's state first.
    QuerySession { session_id: String },
    /// The request's effect cannot be confirmed.
    Unconfirmed,
}

pub open spec fn reconcile_plan_spec(request: InjectorRequest, same_instance: bool) -> ReconcilePlan {
    match request {
        InjectorRequest::Hello => ReconcilePlan::Replay,
        InjectorRequest::BeginSession { .. } => ReconcilePlan::Replay,
        InjectorRequest::ProbeTarget => ReconcilePlan::Replay,
        InjectorRequest::CancelInvalidSession { .. } => ReconcilePlan::Replay,
        InjectorRequest::ApplyState { session_id, .. } => if same_instance {
            ReconcilePlan::QuerySession { session_id }
        } else {
            ReconcilePlan::Unconfirmed
        },
        InjectorRequest::FinishSession { session_id, .. } => if same_instance {
            ReconcilePlan::QuerySession { session_id }
        } else {
            ReconcilePlan::Unconfirmed
        },
        InjectorRequest::QuerySession { .. } => if same_instance {
            ReconcilePlan::Replay
        } else {
            ReconcilePlan::Unconfirmed
        },
    }
}

/// Plans the recovery of `request` on a reconnected injector;
/// `same_instance` says whether it is the process that got the request.
pub fn reconcile_plan(request: &InjectorRequest, same_instance: bool) -> (plan: ReconcilePlan)
    ensures
        plan == reconcile_plan_spec(*request, same_instance),
{
    match request {
        InjectorRequest::Hello => ReconcilePlan::Replay,
        InjectorRequest::BeginSession { .. } => ReconcilePlan::Replay,
        InjectorRequest::ProbeTarget => ReconcilePlan::Replay,
        InjectorRequest::CancelInvalidSession { .. } => ReconcilePlan::Replay,
        InjectorRequest::ApplyState { session_id, .. } => {
            if same_instance {
                ReconcilePlan::QuerySession { session_id: session_id.clone() }
            } else {
                ReconcilePlan::Unconfirmed
            }
        },
        InjectorRequest::FinishSession { session_id, .. } => {
            if same_instance {
                ReconcilePlan::QuerySession { session_id: session_id.clone() }
            } else {
                ReconcilePlan::Unconfirmed
            }
        },
        InjectorRequest::QuerySession { .. } => {
            if same_instance {
                ReconcilePlan::Replay
            } else {
                ReconcilePlan::Unconfirmed
            }
        },
    }
}

/// Second step, once the session state is known.
#[derive(Debug, Clone, PartialEq, Eq)]
pub enum ReconcileOutcome {
    /// The request took effect; answer with this response.
    Respond(InjectorResponse),
    /// The injector is behind; send the request again.
    Replay,
    /// The request's effect cannot be confirmed.
    Unconfirmed,
}

pub open spec fn reconcile_outcome_spec(request: InjectorRequest, state: InjectorResponse) -> ReconcileOutcome {
    match request {
        InjectorRequest::ApplyState { session_id, sequence, full_text } => match apply_recovery(
            session_id@,
            sequence,
            full_text@,
            state,
        ) {
            ReconcileDecision::Applied => ReconcileOutcome::Respond(
                InjectorResponse::Applied { sequence },
            ),
            ReconcileDecision::Finished => ReconcileOutcome::Respond(
                InjectorResponse::Finished { sequence },
            ),
            ReconcileDecision::Retry => ReconcileOutcome::Replay,
            ReconcileDecision::Unknown => ReconcileOutcome::Unconfirmed,
        },
        InjectorRequest::FinishSession { session_id, sequence } => match finish_recovery(
            session_id@,
            sequence,
            state,
        ) {
            ReconcileDecision::Finished => ReconcileOutcome::Respond(
                InjectorResponse::Finished { sequence },
            ),
            ReconcileDecision::Retry => ReconcileOutcome::Replay,
            _ => ReconcileOutcome::Unconfirmed,
        },
        _ => ReconcileOutcome::Unconfirmed,
    }
}

/// Decides, from the injector's session state, how the interrupted request
/// ended.
pub fn reconcile_outcome(request: &InjectorRequest, state: &InjectorResponse) -> (outcome: ReconcileOutcome)
    ensures
        outcome == reconcile_outcome_spec(*request, *state),
{
    match request {
        InjectorRequest::ApplyState { session_id, sequence, full_text } => {
            match classify_apply_recovery(session_id.as_str(), *sequence, full_text.as_str(), state) {
                ReconcileDecision::Applied => ReconcileOutcome::Respond(
                    InjectorResponse::Applied { sequence: *sequence },
                ),
                ReconcileDecision::Finished => ReconcileOutcome::Respond(
                    InjectorResponse::Finished { sequence: *sequence },
                ),
                ReconcileDecision::Retry => ReconcileOutcome::Replay,
                ReconcileDecision::Unknown => ReconcileOutcome::Unconfirmed,
            }
        },
        InjectorRequest::FinishSession { session_id, sequence } => {
            match classify_finish_recovery(session_id.as_str(), *sequence, state) {
                ReconcileDecision::Finished => ReconcileOutcome::Respond(
                    InjectorResponse::Finished { sequence: *sequence },
                ),
                ReconcileDecision::Retry => ReconcileOutcome::Replay,
                _ => ReconcileOutcome::Unconfirmed,
            }
        },
        _ => ReconcileOutcome::Unconfirmed,
    }
}

/// A text edit is never replayed or reported as applied unless the injector
/// confirms it: an interrupted `ApplyState` is reported applied only when the
/// injector holds exactly that snapshot, and is replayed only when the
/// injector is behind it in the same session.
pub proof fn law_apply_is_confirmed_before_reporting(
    session_id: Seq<char>,
    sequence: i64,
    full_text: Seq<char>,
    state: InjectorResponse,
)
    ensures
        apply_recovery(session_id, sequence, full_text, state) == ReconcileDecision::Applied
            ==> (state matches InjectorResponse::SessionActive {
            session_id: s,
            sequence: q,
            full_text: t,
        } && s@ == session_id && q == sequence && t@ == full_text),
        apply_recovery(session_id, sequence, full_text, state) == ReconcileDecision::Retry
            ==> (state matches InjectorResponse::SessionActive { session_id: s, sequence: q, .. }
            && s@ == session_id && q < sequence),
{
}

/// A request sent to a different injector process is replayed only when
/// replaying it cannot repeat an edit.
pub proof fn law_new_instance_never_replays_edits(request: InjectorRequest)
    requires
        request is ApplyState || request is FinishSession || request is QuerySession,
    ensures
        reconcile_plan_spec(request, false) == ReconcilePlan::Unconfirmed,
{
}

} // verus!
