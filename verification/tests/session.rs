use flowtype::protocol::{Cancel, HealthCheck, Probe, Snapshot, SwitchAck, ValidationError};
use flowtype::session::{AppliedState, IncomingDisposition};

#[test]
fn classifies_sequence_updates() {
    let state = AppliedState::new(4, "当前文本");
    assert_eq!(state.classify(3, "旧文本"), IncomingDisposition::Stale);
    assert_eq!(state.classify(4, "当前文本"), IncomingDisposition::Duplicate);
    assert_eq!(state.classify(4, "冲突文本"), IncomingDisposition::Conflict);
    assert_eq!(state.classify(7, "最新文本"), IncomingDisposition::Apply);
}

#[test]
fn rejects_changes_after_finish() {
    let mut state = AppliedState::new(1, "完成");
    state.mark_applied(2, "完成文本", true);
    assert_eq!(state.classify(3, "继续修改"), IncomingDisposition::Finished);
}

#[test]
fn rejects_non_positive_sequences() {
    let value = Snapshot {
        protocol_version: 1,
        phone_id: "phone".into(),
        session_id: "session".into(),
        sequence: 0,
        full_text: String::new(),
    };
    assert_eq!(value.validate(), Err(ValidationError::InvalidSequence));
}

#[test]
fn an_applied_snapshot_is_a_duplicate_afterwards() {
    let mut state = AppliedState::new(1, "a");
    state.mark_applied(5, "abc", false);
    assert_eq!(state.classify(5, "abc"), IncomingDisposition::Duplicate);
    assert_eq!(state.classify(6, "abcd"), IncomingDisposition::Apply);
}

#[test]
fn snapshots_need_the_current_protocol_and_identifiers() {
    let mut value = Snapshot {
        protocol_version: 2,
        phone_id: "phone".into(),
        session_id: "session".into(),
        sequence: 1,
        full_text: "x".into(),
    };
    assert_eq!(value.validate(), Err(ValidationError::UnsupportedProtocol));
    value.protocol_version = 1;
    value.session_id = String::new();
    assert_eq!(value.validate(), Err(ValidationError::MissingIdentifier));
    value.session_id = "session".into();
    assert_eq!(value.validate(), Ok(()));
    value.full_text = "a".repeat(1_048_577);
    assert_eq!(value.validate(), Err(ValidationError::MessageTooLarge));
}

#[test]
fn control_messages_need_the_protocol_and_their_identifiers() {
    let cancel = Cancel {
        protocol_version: 1,
        phone_id: "phone".into(),
        session_id: "session".into(),
    };
    assert_eq!(cancel.validate(), Ok(()));
    let cancel = Cancel { session_id: String::new(), ..cancel };
    assert_eq!(cancel.validate(), Err(ValidationError::MissingIdentifier));

    let probe = Probe { protocol_version: 1, phone_id: "phone".into() };
    assert_eq!(probe.validate(), Ok(()));
    let probe = Probe { protocol_version: 2, ..probe };
    assert_eq!(probe.validate(), Err(ValidationError::UnsupportedProtocol));

    let health = HealthCheck { protocol_version: 1, phone_id: String::new() };
    assert_eq!(health.validate(), Err(ValidationError::MissingIdentifier));

    let ack = SwitchAck {
        protocol_version: 1,
        request_id: "request-1".into(),
        pc_id: "pc".into(),
        accepted: true,
    };
    assert_eq!(ack.validate(), Ok(()));
    let ack = SwitchAck { pc_id: String::new(), ..ack };
    assert_eq!(ack.validate(), Err(ValidationError::MissingIdentifier));
}
