use flowtype::diff::{plan_transition, transition_of_clusters, Transition};

#[test]
fn appends_without_deleting() {
    assert_eq!(
        plan_transition("你好", "你好，Windows"),
        Transition {
            backspaces: 0,
            insert: "，Windows".to_owned(),
        }
    );
}

#[test]
fn replaces_an_arbitrary_tail() {
    assert_eq!(
        plan_transition("豆包正在识别语音", "豆包正在识别文本"),
        Transition {
            backspaces: 2,
            insert: "文本".to_owned(),
        }
    );
}

#[test]
fn deletes_a_whole_emoji_grapheme() {
    assert_eq!(
        plan_transition("家庭👨‍👩‍👧‍👦", "家庭"),
        Transition {
            backspaces: 1,
            insert: String::new(),
        }
    );
}

#[test]
fn keeps_combining_marks_on_a_grapheme_boundary() {
    assert_eq!(
        plan_transition("Cafe\u{301}", "Cafe\u{301} 好"),
        Transition {
            backspaces: 0,
            insert: " 好".to_owned(),
        }
    );
}

#[test]
fn can_replace_everything() {
    assert_eq!(
        plan_transition("旧内容", "new"),
        Transition {
            backspaces: 3,
            insert: "new".to_owned(),
        }
    );
}

#[test]
fn appends_text() {
    assert_eq!(
        plan_transition("你好", "你好，Windows"),
        Transition {
            backspaces: 0,
            insert: "，Windows".to_owned(),
        }
    );
}

#[test]
fn rewrites_an_arbitrary_tail() {
    assert_eq!(
        plan_transition("正在输入旧内容", "正在输入新文本"),
        Transition {
            backspaces: 3,
            insert: "新文本".to_owned(),
        }
    );
}

#[test]
fn deletes_one_emoji_grapheme() {
    assert_eq!(
        plan_transition("家庭👨‍👩‍👧‍👦", "家庭"),
        Transition {
            backspaces: 1,
            insert: String::new(),
        }
    );
}

#[test]
fn preserves_combining_marks() {
    assert_eq!(
        plan_transition("Cafe\u{301}", "Cafe\u{301} 好"),
        Transition {
            backspaces: 0,
            insert: " 好".to_owned(),
        }
    );
}

#[test]
fn identical_snapshots_need_no_edit() {
    assert_eq!(
        plan_transition("同样的文本", "同样的文本"),
        Transition {
            backspaces: 0,
            insert: String::new(),
        }
    );
}

#[test]
fn starting_from_nothing_types_everything() {
    assert_eq!(
        plan_transition("", "第一行\n第二行"),
        Transition {
            backspaces: 0,
            insert: "第一行\n第二行".to_owned(),
        }
    );
}

#[test]
fn clusters_after_the_common_prefix_are_replaced() {
    let previous = vec!["a".to_string(), "é".to_string(), "c".to_string()];
    let current = vec!["a".to_string(), "🙂".to_string()];
    assert_eq!(
        transition_of_clusters(&previous, &current),
        Transition { backspaces: 2, insert: "🙂".to_string() }
    );
    assert_eq!(
        transition_of_clusters(&current, &current),
        Transition { backspaces: 0, insert: String::new() }
    );
}
