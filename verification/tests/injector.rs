use flowtype::broker::{begin_timeout_error, BeginStep, TipBeginError, TipRegistry};
use flowtype::injector::{
    classify_session_replacement, completed_apply_response, is_physical_keyboard_event,
    is_physical_mouse_event, is_remote_desktop_process_name, is_submitted_candidate,
    tail_replacement, ActiveSession, CompletedSession, Dispatch, InjectorSessions, SessionReplacement,
    LLKHF_INJECTED, LLMHF_INJECTED,
    WM_KEYDOWN, WM_LBUTTONDOWN, WM_MOUSEMOVE,
};
use flowtype::ipc::{InjectorRequest, InjectorResponse};
use flowtype::keys::{text_keystrokes, Keystroke};

#[test]
fn appends_only_new_tail() {
    assert_eq!(
        tail_replacement("你好", "你好世界"),
        Some((0, "世界".to_owned()))
    );
}

#[test]
fn trims_only_removed_tail() {
    assert_eq!(tail_replacement("你好世界", "你好"), Some((2, String::new())));
}

#[test]
fn replaces_changed_tail() {
    assert_eq!(
        tail_replacement("今天很好", "今天不错"),
        Some((2, "不错".to_owned()))
    );
}

#[test]
fn rejects_middle_edit() {
    assert_eq!(tail_replacement("abcde", "abXde"), None);
}

#[test]
fn retarget_replaces_only_the_named_active_session() {
    assert_eq!(
        classify_session_replacement(Some("old"), Some("old")),
        SessionReplacement::Replace,
    );
    assert_eq!(
        classify_session_replacement(Some("old"), Some("different")),
        SessionReplacement::Reject,
    );
    assert_eq!(
        classify_session_replacement(Some("old"), None),
        SessionReplacement::Reject,
    );
    assert_eq!(
        classify_session_replacement(None, Some("already-cancelled")),
        SessionReplacement::Start,
    );
}

#[test]
fn only_a_newline_snapshot_after_a_real_return_is_submitted() {
    assert!(is_submitted_candidate("已完成\n", 10, 11, true));
    assert!(!is_submitted_candidate("已完成", 10, 11, true));
    assert!(!is_submitted_candidate("已完成\n", 10, 11, false));
    assert!(!is_submitted_candidate("已完成\n", 10, 10, true));
}

#[test]
fn completed_session_replays_only_the_exact_final_snapshot() {
    let completed = CompletedSession {
        id: "voice".to_owned(),
        sequence: 8,
        text: "最终正文".to_owned(),
    };

    assert_eq!(
        completed_apply_response(Some(&completed), "voice", 8, "最终正文"),
        Some(InjectorResponse::Finished { sequence: 8 }),
    );
    assert_eq!(
        completed_apply_response(Some(&completed), "voice", 8, "不同正文"),
        Some(InjectorResponse::InvalidRequest),
    );
    assert_eq!(
        completed_apply_response(Some(&completed), "other", 8, "最终正文"),
        None,
    );
}

#[test]
fn recognizes_common_remote_desktop_clients() {
    assert!(is_remote_desktop_process_name("mstsc.exe"));
    assert!(is_remote_desktop_process_name("MsRdc.exe"));
    assert!(is_remote_desktop_process_name("rdclient.exe"));
    assert!(!is_remote_desktop_process_name("notepad++.exe"));
}

#[test]
fn ignores_injected_input_and_mouse_movement() {
    assert!(!is_physical_keyboard_event(WM_KEYDOWN, LLKHF_INJECTED));
    assert!(!is_physical_mouse_event(WM_LBUTTONDOWN, LLMHF_INJECTED));
    assert!(!is_physical_mouse_event(WM_MOUSEMOVE, 0));
}

#[test]
fn recognizes_physical_keyboard_and_mouse_actions() {
    assert!(is_physical_keyboard_event(WM_KEYDOWN, 0));
    assert!(is_physical_mouse_event(WM_LBUTTONDOWN, 0));
}

#[test]
fn reports_no_compatible_tip_as_unavailable() {
    let registry: TipRegistry<u32> = TipRegistry::new();
    assert!(registry.candidates(50, 60).is_empty());
    assert_eq!(begin_timeout_error(false), TipBeginError::Unavailable);
}

#[test]
fn line_breaks_are_typed_as_one_return_each() {
    let strokes = text_keystrokes("a\r\nb\rc\n😀");
    assert_eq!(
        strokes,
        vec![
            Keystroke::Unit('a' as u16),
            Keystroke::Return,
            Keystroke::Unit('b' as u16),
            Keystroke::Return,
            Keystroke::Unit('c' as u16),
            Keystroke::Return,
            Keystroke::Unit(0xD83D),
            Keystroke::Unit(0xDE00),
        ]
    );
}

fn active(id: &str, sequence: i64, text: &str) -> ActiveSession {
    ActiveSession { id: id.to_string(), sequence, text: text.to_string(), input_epoch: 0 }
}

#[test]
fn the_request_loop_keeps_the_finished_session() {
    let mut sessions = InjectorSessions::new();
    sessions.begin_accepted(active("s1", 1, "你好"));
    sessions.finish_answered("s1", 2, &InjectorResponse::Finished { sequence: 2 });
    assert!(sessions.active.is_some());
    sessions.finish_answered("s1", 1, &InjectorResponse::Finished { sequence: 1 });
    assert_eq!(sessions.active, None);
    assert_eq!(
        sessions.completed,
        Some(CompletedSession { id: "s1".to_string(), sequence: 1, text: "你好".to_string() })
    );
    assert_eq!(
        sessions.query_inactive("s1"),
        Some(InjectorResponse::SessionFinished {
            session_id: "s1".to_string(),
            sequence: 1,
            full_text: "你好".to_string()
        })
    );
    assert_eq!(sessions.query_inactive("s2"), Some(InjectorResponse::SessionMissing));
    sessions.begin_accepted(active("s2", 1, "x"));
    assert_eq!(sessions.completed, None);
    assert_eq!(sessions.query_inactive("s2"), None);
}

#[test]
fn a_failed_finish_ends_the_session_without_keeping_it() {
    let mut sessions = InjectorSessions::new();
    sessions.begin_accepted(active("s1", 3, "text"));
    sessions.finish_answered("s1", 3, &InjectorResponse::InjectionUnknown);
    assert_eq!(sessions.active, None);
    assert_eq!(sessions.completed, None);
}

#[test]
fn cancelling_an_invalid_session_drops_only_that_session() {
    let mut sessions = InjectorSessions::new();
    sessions.begin_accepted(active("s1", 1, "a"));
    let (reply, dropped) = sessions.cancel_invalid("other");
    assert_eq!(reply, InjectorResponse::Cancelled);
    assert_eq!(dropped, None);
    assert!(sessions.active.is_some());
    let (reply, dropped) = sessions.cancel_invalid("s1");
    assert_eq!(reply, InjectorResponse::Cancelled);
    assert_eq!(dropped, Some(active("s1", 1, "a")));
    assert_eq!(sessions.active, None);
    assert_eq!(sessions.end_active(), None);
}

#[test]
fn requests_are_dispatched_from_the_kept_sessions() {
    let mut sessions = InjectorSessions::new();
    assert_eq!(sessions.dispatch(&InjectorRequest::Hello), Dispatch::Hello);
    assert_eq!(
        sessions.dispatch(&InjectorRequest::BeginSession { session_id: "s1".into() }),
        Dispatch::Begin(BeginStep::Start)
    );
    sessions.begin_accepted(active("s1", 1, "你好"));
    sessions.finish_answered("s1", 1, &InjectorResponse::Finished { sequence: 1 });
    sessions.begin_accepted(active("s2", 1, "x"));
    sessions.completed = Some(CompletedSession { id: "s1".into(), sequence: 1, text: "你好".into() });
    assert_eq!(
        sessions.dispatch(&InjectorRequest::ApplyState {
            session_id: "s1".into(),
            sequence: 1,
            full_text: "你好".into()
        }),
        Dispatch::Respond(InjectorResponse::Finished { sequence: 1 })
    );
    assert_eq!(
        sessions.dispatch(&InjectorRequest::ApplyState {
            session_id: "s2".into(),
            sequence: 2,
            full_text: "xy".into()
        }),
        Dispatch::ApplyToActive
    );
    assert_eq!(
        sessions.dispatch(&InjectorRequest::FinishSession { session_id: "s2".into(), sequence: 5 }),
        Dispatch::Respond(InjectorResponse::InvalidRequest)
    );
    assert_eq!(
        sessions.dispatch(&InjectorRequest::FinishSession { session_id: "s2".into(), sequence: 1 }),
        Dispatch::FinishActive
    );
    assert_eq!(
        sessions.dispatch(&InjectorRequest::QuerySession { session_id: "s2".into() }),
        Dispatch::QueryActive
    );
    assert_eq!(
        sessions.dispatch(&InjectorRequest::QuerySession { session_id: "s9".into() }),
        Dispatch::Respond(InjectorResponse::SessionMissing)
    );
    assert_eq!(sessions.dispatch(&InjectorRequest::ProbeTarget), Dispatch::ProbeTarget);
    assert_eq!(
        sessions.dispatch(&InjectorRequest::CancelInvalidSession { session_id: "s2".into() }),
        Dispatch::CancelComposition(active("s2", 1, "x"))
    );
    assert_eq!(
        sessions.dispatch(&InjectorRequest::CancelInvalidSession { session_id: "s2".into() }),
        Dispatch::Respond(InjectorResponse::Cancelled)
    );
}
