use flowtype::i18n::Language;
use flowtype::status::RuntimeStatus;
use flowtype::ipc::{InjectorRequest, InjectorResponse};
use flowtype::limiter::{
    ConnectionLimiter, PeerAddress, MAX_CONNECTIONS_PER_IP, MAX_CONNECTION_ATTEMPTS_PER_MINUTE,
};
use flowtype::presence::SwitchNote;
use flowtype::protocol::{
    ClientMessage, ErrorCode, ProtocolError, HealthCheck, ServerMessage, ServerSessionState, Snapshot, TargetState,
};
use flowtype::recovery::InjectorRequestFailure;
use flowtype::server::{
    auth_failed_reply, continue_flow, image_failure_code, image_reply_type, injector_state_reply,
    plan_message, ImageFailure, ImageReply, FlowStage, FlowStep, MessagePlan,
    StatusNote,
};

fn peer(last: u8) -> PeerAddress {
    PeerAddress {
        is_v6: false,
        bits: u128::from(u32::from_be_bytes([192, 0, 2, last])),
    }
}

#[test]
fn limits_concurrent_connections_per_ip() {
    let mut limiter = ConnectionLimiter::new();
    let peer = peer(1);
    for _ in 0..MAX_CONNECTIONS_PER_IP {
        assert!(limiter.try_acquire(peer, 0));
    }

    assert!(!limiter.try_acquire(peer, 0));
    for _ in 0..MAX_CONNECTIONS_PER_IP {
        limiter.release(peer);
    }
    assert!(limiter.try_acquire(peer, 0));
}

#[test]
fn limits_connection_attempt_rate_per_ip() {
    let mut limiter = ConnectionLimiter::new();
    let peer = peer(2);
    for _ in 0..MAX_CONNECTION_ATTEMPTS_PER_MINUTE {
        assert!(limiter.try_acquire(peer, 0));
        limiter.release(peer);
    }

    assert!(!limiter.try_acquire(peer, 0));
    assert!(limiter.try_acquire(peer, 60_000));
}

fn snapshot(phone: &str, sequence: i64, text: &str) -> Snapshot {
    Snapshot {
        protocol_version: 1,
        phone_id: phone.to_owned(),
        session_id: "voice".to_owned(),
        sequence,
        full_text: text.to_owned(),
    }
}

#[test]
fn a_start_begins_then_applies_the_text() {
    let plan = plan_message(ClientMessage::Start(snapshot("phone", 1, "你好")), "phone", "pc");
    let MessagePlan::Flow(flow, request, stage) = plan else {
        panic!("expected a flow");
    };
    assert_eq!(request, InjectorRequest::BeginSession { session_id: "voice".to_owned() });
    assert_eq!(stage, FlowStage::Begin);

    let step = continue_flow(&flow, stage, Ok(InjectorResponse::SessionBegun { target_name: "记事本".to_owned() }));
    let FlowStep::Request { notice, note, request, stage } = step else {
        panic!("expected a request");
    };
    assert!(matches!(notice, Some(ServerMessage::Target(ref t)) if t.target_state == TargetState::Active));
    assert_eq!(note, StatusNote::TypingIn("记事本".to_owned()));
    assert_eq!(
        request,
        InjectorRequest::ApplyState { session_id: "voice".to_owned(), sequence: 1, full_text: "你好".to_owned() }
    );

    let step = continue_flow(&flow, stage, Ok(InjectorResponse::Applied { sequence: 1 }));
    let FlowStep::Reply { reply: ServerMessage::Ack(ack), .. } = step else {
        panic!("expected an ack");
    };
    assert_eq!(ack.applied_sequence, 1);
    assert_eq!(ack.session_state, ServerSessionState::Active);
}

#[test]
fn a_finish_ends_the_session_after_applying() {
    let plan = plan_message(ClientMessage::Finish(snapshot("phone", 3, "完")), "phone", "pc");
    let MessagePlan::Flow(flow, _, stage) = plan else {
        panic!("expected a flow");
    };
    let step = continue_flow(&flow, stage, Ok(InjectorResponse::Applied { sequence: 3 }));
    let FlowStep::Request { request, stage, .. } = step else {
        panic!("expected a finish request");
    };
    assert_eq!(request, InjectorRequest::FinishSession { session_id: "voice".to_owned(), sequence: 3 });
    let step = continue_flow(&flow, stage, Ok(InjectorResponse::Finished { sequence: 3 }));
    let FlowStep::Reply { reply: ServerMessage::Ack(ack), note } = step else {
        panic!("expected an ack");
    };
    assert_eq!(ack.session_state, ServerSessionState::Finished);
    assert_eq!(note, StatusNote::InputFinished);
}

#[test]
fn another_phone_is_told_the_message_is_invalid() {
    let plan = plan_message(ClientMessage::Update(snapshot("intruder", 2, "x")), "phone", "pc");
    let MessagePlan::Reply(ServerMessage::Error(error)) = plan else {
        panic!("expected an error");
    };
    assert_eq!(error.code, ErrorCode::InvalidMessage);
    assert_eq!(error.session_id, Some("voice".to_owned()));
}

#[test]
fn health_checks_are_answered() {
    let plan = plan_message(
        ClientMessage::HealthCheck(HealthCheck { protocol_version: 1, phone_id: "phone".to_owned() }),
        "phone",
        "pc",
    );
    assert!(matches!(plan, MessagePlan::Reply(ServerMessage::HealthAck(_))));
}

#[test]
fn injector_states_map_to_phone_messages() {
    let (reply, note) = injector_state_reply("voice", InjectorResponse::TargetModified);
    assert!(matches!(reply, ServerMessage::Error(ref e) if e.code == ErrorCode::TargetModified));
    assert_eq!(note, StatusNote::EditedOnComputer);
    let (reply, _) = injector_state_reply("voice", InjectorResponse::InvalidRequest);
    assert!(matches!(reply, ServerMessage::Error(ref e) if e.code == ErrorCode::SequenceConflict));
    let (reply, note) = injector_state_reply(
        "voice",
        InjectorResponse::TargetNotForeground { target_name: "Word".to_owned() },
    );
    assert!(matches!(reply, ServerMessage::Target(ref t) if t.target_state == TargetState::NotForeground));
    assert_eq!(note, StatusNote::ReturnTo("Word".to_owned()));
}

#[test]
fn a_failed_request_reports_its_cause() {
    let plan = plan_message(ClientMessage::Update(snapshot("phone", 2, "x")), "phone", "pc");
    let MessagePlan::Flow(flow, _, stage) = plan else {
        panic!("expected a flow");
    };
    let step = continue_flow(&flow, stage, Err(InjectorRequestFailure::RecoveryRequired));
    assert!(matches!(
        step,
        FlowStep::Reply { reply: ServerMessage::Error(ref e), .. } if e.code == ErrorCode::RecoveryRequired
    ));
}

#[test]
fn the_status_line_follows_the_connection() {
    let mut status = RuntimeStatus::waiting(Language::English);
    assert_eq!(status.summary, "Waiting for phone");
    status.phone_connected(Language::English, "Pixel");
    assert_eq!(status.summary, "Connected: Pixel");
    assert_eq!(status.connected_phone.as_deref(), Some("Pixel"));
    status.apply(Language::English, &StatusNote::TypingIn("Notepad".to_string()));
    assert_eq!(status.summary, "Typing in: Notepad");
    assert_eq!(status.target_name.as_deref(), Some("Notepad"));
    status.apply(Language::English, &StatusNote::InputStopped { outcome_unknown: true });
    assert_eq!(status.summary, "Input stopped");
    assert_eq!(status.last_error.as_deref(), Some("Windows could not confirm this input"));
    status.apply(Language::English, &StatusNote::InputSubmitted);
    assert_eq!(status.summary, "Connected: Pixel");
    assert_eq!(status.target_name, None);
    assert_eq!(status.last_error, None);
    status.language_changed(Language::Chinese);
    assert_eq!(status.summary, "已连接：Pixel");
    status.show_online(Language::Chinese, None);
    assert_eq!(status.summary, "等待手机连接");
    assert_eq!(status.connected_phone, None);
    let before = status.clone();
    status.apply(Language::Chinese, &StatusNote::Unchanged);
    assert_eq!(status, before);
}

#[test]
fn a_failed_clipboard_write_keeps_the_summary() {
    let mut status = RuntimeStatus::waiting(Language::English);
    status.image_stored(Language::English, false);
    assert_eq!(status.summary, "Waiting for phone");
    assert_eq!(
        status.last_error.as_deref(),
        Some("Could not copy the image to the Windows clipboard")
    );
    status.image_stored(Language::English, true);
    assert_eq!(status.summary, "Image copied to clipboard");
    assert_eq!(status.last_error, None);
}

#[test]
fn image_answers_carry_their_codes() {
    let ok = ImageReply { transfer_id: "t".to_owned(), failure: None };
    let busy = ImageReply { transfer_id: "t".to_owned(), failure: Some(ImageFailure::TransferBusy) };
    assert_eq!(image_reply_type(&ok), "image_ack");
    assert_eq!(image_reply_type(&busy), "image_error");
    assert_eq!(image_failure_code(ImageFailure::TransferBusy), "transfer_busy");
    assert_eq!(image_failure_code(ImageFailure::IntegrityFailed), "integrity_failed");
    assert_eq!(image_failure_code(ImageFailure::ClipboardFailed), "clipboard_failed");
    assert_eq!(
        auth_failed_reply(),
        ServerMessage::Error(ProtocolError {
            protocol_version: 1,
            code: ErrorCode::AuthFailed,
            session_id: None
        })
    );
}

#[test]
fn switch_notes_are_shown_on_the_status_line() {
    let mut status = RuntimeStatus::waiting(Language::English);
    status.switch_noted(Language::English, SwitchNote::Switching);
    assert_eq!(status.summary, "Switching phone input");
    status.switch_noted(Language::Chinese, SwitchNote::NotPairedOnPhone);
    assert_eq!(status.summary, "手机未找到这台电脑");
    status.switch_noted(Language::English, SwitchNote::PhoneDidNotRespond);
    assert_eq!(status.summary, "Phone did not respond");
}

#[test]
fn one_release_frees_the_slot_one_admission_took() {
    let mut limiter = ConnectionLimiter::new();
    let peer = peer(3);
    for _ in 0..MAX_CONNECTIONS_PER_IP {
        assert!(limiter.try_acquire(peer, 0));
    }
    limiter.release(peer);
    assert!(limiter.try_acquire(peer, 1));
    assert!(!limiter.try_acquire(peer, 2));
}
