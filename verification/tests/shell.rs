use flowtype::i18n::Language;
use flowtype::shell::{
    ball_color, ball_position, ball_tooltip, command_for_id, leaving_cancels_pairing,
    page_refresh, phone_row_status, progress_per_mille, selected_navigation, status_labels,
    tray_tip, unpair_prompt, update_button_step, update_status_line, BallColor, Page,
    PageRefresh, UiCommand, UpdateButtonStep,
};
use flowtype::status::RuntimeStatus;
use flowtype::update_panel::{download_percent, downloading_snapshot, UpdateAction};

#[test]
fn control_ids_map_to_commands() {
    assert_eq!(command_for_id(100), Some(UiCommand::Navigate(Page::Status)));
    assert_eq!(command_for_id(4001), Some(UiCommand::Navigate(Page::Status)));
    assert_eq!(command_for_id(4002), Some(UiCommand::Pair));
    assert_eq!(command_for_id(4003), Some(UiCommand::Exit));
    assert_eq!(command_for_id(3000), Some(UiCommand::Unpair(0)));
    assert_eq!(command_for_id(3999), Some(UiCommand::Unpair(999)));
    assert_eq!(command_for_id(4000), None);
    assert_eq!(command_for_id(122), None);
}

#[test]
fn pairing_is_shown_under_phones() {
    assert_eq!(selected_navigation(Page::Pairing), Page::Phones);
    assert_eq!(selected_navigation(Page::Settings), Page::Settings);
    assert!(leaving_cancels_pairing(Page::Pairing, Page::Status));
    assert!(!leaving_cancels_pairing(Page::Pairing, Page::Pairing));
    assert!(!leaving_cancels_pairing(Page::Status, Page::Phones));
}

#[test]
fn pages_follow_the_state() {
    assert_eq!(page_refresh(Page::Pairing, false, 0, 0), PageRefresh::ShowStatus);
    assert_eq!(page_refresh(Page::Pairing, true, 0, 0), PageRefresh::UpdateLabels);
    assert_eq!(page_refresh(Page::Phones, true, 1, 2), PageRefresh::Rebuild);
    assert_eq!(page_refresh(Page::Phones, true, 2, 2), PageRefresh::UpdateLabels);
}

#[test]
fn labels_fill_in_placeholders() {
    let status = RuntimeStatus::waiting(Language::English);
    let labels = status_labels(Language::English, &status);
    assert_eq!(labels.summary, "Waiting for phone");
    assert_eq!(labels.phone, "Not connected");
    assert_eq!(labels.target, "Not selected");
    assert_eq!(labels.error, "");
    assert_eq!(phone_row_status(Language::English, true, true), "Connected");
    assert_eq!(
        phone_row_status(Language::Chinese, false, true),
        "未连接 · 最近连接过"
    );
    assert_eq!(phone_row_status(Language::English, false, false), "Offline · Never connected");
}

#[test]
fn update_controls_wait_for_the_input() {
    assert_eq!(
        update_status_line(Language::English, "更新 1.2.0 已下载", UpdateAction::Install, true),
        "Available after input ends"
    );
    assert_eq!(
        update_status_line(Language::English, "更新 1.2.0 已下载", UpdateAction::Install, false),
        "更新 1.2.0 已下载"
    );
    assert_eq!(update_button_step(UpdateAction::Install, true), UpdateButtonStep::ShowInstallBlocked);
    assert_eq!(update_button_step(UpdateAction::Install, false), UpdateButtonStep::Install);
    assert_eq!(
        update_button_step(UpdateAction::Check, true),
        UpdateButtonStep::Perform(UpdateAction::Check)
    );
}

#[test]
fn progress_is_scaled_and_capped() {
    assert_eq!(progress_per_mille(5, 0), 0);
    assert_eq!(progress_per_mille(1, 4), 250);
    assert_eq!(progress_per_mille(9, 4), 1000);
    assert_eq!(progress_per_mille(u64::MAX, u64::MAX), 1);
    assert_eq!(download_percent(1, 3), 33);
    assert_eq!(download_percent(u64::MAX, u64::MAX), 1);
    let snapshot = downloading_snapshot("1.2.0", 1, 3, "正在下载 33%".to_string());
    assert_eq!(snapshot.action, UpdateAction::Cancel);
    assert_eq!(snapshot.action_label, "取消");
    assert_eq!(snapshot.progress, Some((1, 3)));
    assert_eq!(snapshot.version.as_deref(), Some("1.2.0"));
}

#[test]
fn prompts_name_the_phone() {
    assert_eq!(
        unpair_prompt(Language::English, Some("Pixel")),
        "Unpair \"Pixel\"? You will need to scan the QR code again."
    );
    assert_eq!(
        unpair_prompt(Language::Chinese, None),
        "解绑“这部手机”？解绑后需要重新扫描二维码。"
    );
    assert_eq!(tray_tip(Language::English, "Connected: Pixel"), "FlowType · Connected: Pixel");
}

#[test]
fn the_ball_shows_the_connection() {
    assert_eq!(ball_color(false, true), BallColor::Black);
    assert_eq!(ball_color(true, true), BallColor::Teal);
    assert_eq!(ball_color(true, false), BallColor::Orange);
    assert_eq!(ball_tooltip(false, None), "说写\n尚未绑定手机\n双击打开主页面");
    assert_eq!(
        ball_tooltip(true, Some("Pixel")),
        "说写\n已连接：Pixel\n单击切换到此电脑\n双击打开主页面"
    );
    assert_eq!(ball_tooltip(true, None), "说写\n手机连接已断开\n双击打开主页面");
    assert_eq!(ball_position(1920, 1040, 56), (1840, 960));
}
