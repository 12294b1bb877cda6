use flowtype::composition::{suffix_extent, scintilla_byte, utf16_text_matches, CompositionTracker, FinishCause};
use flowtype::tip::{hello_is_compatible, TipHello, TipResponse, TipSessionModel};
use flowtype::TIP_IPC_VERSION;

#[test]
fn full_snapshots_replace_the_active_composition() {
    let mut model = TipSessionModel::default();
    model.begin("voice", 1, "现在是八点").unwrap();
    assert_eq!(model.update("voice", 2, "现在是八点一刻"), Ok(true));
    assert_eq!(model.update("voice", 3, "现在八点十四分"), Ok(true));
    model.finish("voice", 3).unwrap();
}

#[test]
fn duplicate_snapshots_are_idempotent_but_conflicts_are_rejected() {
    let mut model = TipSessionModel::default();
    model.begin("voice", 1, "你好").unwrap();
    assert_eq!(model.update("voice", 1, "你好"), Ok(false));
    assert_eq!(
        model.update("voice", 1, "不同内容"),
        Err(TipResponse::SequenceConflict)
    );
}

#[test]
fn repeated_begin_for_the_same_session_preserves_the_composition() {
    let mut model = TipSessionModel::default();
    model.begin("voice", 1, "已有正文").unwrap();

    model.begin("voice", 1, "已有正文").unwrap();

    assert_eq!(model.update("voice", 2, "修正正文"), Ok(true));
}

#[test]
fn a_trailing_newline_remains_ordinary_composition_text() {
    let mut model = TipSessionModel::default();
    model.begin("voice", 1, "第一行\n").unwrap();
    model.end_composition();
    assert_eq!(model.update("voice", 2, "第一行\n第二行"), Ok(true));
    model.finish("voice", 2).unwrap();
}

#[test]
fn a_new_session_cannot_replace_an_unfinished_range() {
    let mut model = TipSessionModel::default();
    model.begin("voice-1", 1, "已有正文").unwrap();
    model.end_composition();

    assert_eq!(
        model.begin("voice-2", 1, "新正文"),
        Err(TipResponse::SessionMismatch)
    );
    assert_eq!(model.update("voice-1", 2, "修正正文"), Ok(true));
}

#[test]
fn target_termination_is_never_acknowledged_as_applied() {
    let mut model = TipSessionModel::default();
    model.begin("voice", 1, "输入中").unwrap();
    model.terminate();
    assert_eq!(
        model.update("voice", 2, "修正后"),
        Err(TipResponse::CompositionTerminated)
    );
}

#[test]
fn accepts_current_protocol_from_an_older_loaded_component() {
    let mut hello = TipHello {
        ipc_version: TIP_IPC_VERSION,
        component_version: "0.2.1".to_owned(),
        process_id: 1,
        thread_id: 2,
    };
    assert!(hello_is_compatible(&hello));

    hello.ipc_version -= 1;
    assert!(!hello_is_compatible(&hello));
}

#[test]
fn rejects_tip_versions_without_single_session_range_ownership() {
    assert_eq!(TIP_IPC_VERSION, 8);
    for ipc_version in [3, 4, 5, 6, 7] {
        let hello = TipHello {
            ipc_version,
            component_version: "0.2.7".to_owned(),
            process_id: 1,
            thread_id: 2,
        };
        assert!(!hello_is_compatible(&hello));
    }
}

#[test]
fn external_edit_can_end_a_modified_composition() {
    assert!(FinishCause::Phone.validates_snapshot());
    assert!(!FinishCause::Forced.validates_snapshot());
}

#[test]
fn only_external_composition_termination_marks_the_target_modified() {
    let mut external = CompositionTracker::new();
    external.composition_terminated();
    assert!(external.target_modified);

    let mut remote = CompositionTracker::new();
    remote.set_applying_remote_edit(true);
    remote.composition_terminated();
    remote.set_applying_remote_edit(false);
    assert!(!remote.target_modified);
}

#[test]
fn exact_suffix_matching_uses_the_complete_utf16_text() {
    let expected: Vec<u16> = "通天塔\n😀".encode_utf16().collect();
    let mut actual = expected.clone();
    actual.push('x' as u16);

    assert!(utf16_text_matches(&expected, &actual, expected.len()));
    assert!(!utf16_text_matches(&expected, &actual, expected.len() - 1));
    assert!(!utf16_text_matches(&expected, &actual, actual.len()));
}

#[test]
fn compares_scintilla_utf8_bytes_without_signed_extension() {
    assert_eq!(scintilla_byte(-23), 0xe9);
    assert_eq!(scintilla_byte(0x80), 0x80);
    assert_eq!(scintilla_byte(b'A' as isize), b'A');
}

#[test]
fn utf16_encoding_matches_the_standard_library() {
    let text = "通天塔\n😀 café";
    let expected: Vec<u16> = text.encode_utf16().collect();
    assert_eq!(flowtype::composition::encode_utf16(text), expected);
}

#[test]
fn an_edit_on_the_computer_forces_the_finish_of_a_live_composition() {
    let mut tracker = CompositionTracker::new();
    tracker.start_session("voice".to_owned());
    tracker.set_composition();
    assert!(tracker.needs_edit_check());
    assert!(!tracker.after_edit_check(true));
    assert!(tracker.after_edit_check(false));
    assert!(tracker.target_modified);
    assert!(!tracker.needs_edit_check());
}

#[test]
fn the_module_unloads_only_without_objects_and_locks() {
    let mut lifetime = flowtype::composition::ModuleLifetime::new();
    assert!(lifetime.can_unload());
    lifetime.set_server_lock(true);
    assert!(!lifetime.can_unload());
    lifetime.set_server_lock(false);
    lifetime.set_server_lock(false);
    assert_eq!(lifetime.locks, 0);
    assert!(lifetime.can_unload());
}

#[test]
fn suffix_extent_covers_the_text_before_the_anchor() {
    assert_eq!(suffix_extent(3, 10), Some((7, 3)));
    assert_eq!(suffix_extent(0, 10), None);
    assert_eq!(suffix_extent(11, 10), None);
}

#[test]
fn an_ended_composition_answers_like_an_open_one() {
    let mut ended = TipSessionModel::default();
    let mut open = TipSessionModel::default();
    ended.begin("voice", 1, "第一行\n").unwrap();
    open.begin("voice", 1, "第一行\n").unwrap();
    ended.end_composition();
    assert_eq!(ended.update("voice", 2, "第一行\n第二行"), open.update("voice", 2, "第一行\n第二行"));
    assert_eq!(ended.begin("other", 1, "x"), open.begin("other", 1, "x"));
    assert_eq!(ended.finish("voice", 2), open.finish("voice", 2));
    assert_eq!(ended.cancel("voice"), open.cancel("voice"));
}
