//! The decisions of the main window, the tray and the floating ball that do
//! not depend on Windows itself: which command a control stands for, what
//! the labels say, and when a page is built again.
use vstd::prelude::*;

use crate::i18n::{product_name, tr, Language};
use crate::status::{localized, RuntimeStatus};
use crate::text::concat;
use crate::update_panel::UpdateAction;

verus! {

broadcast use vstd::string::group_string_axioms;

pub const ID_NAV_STATUS: usize = 100;
pub const ID_NAV_PHONES: usize = 101;
pub const ID_NAV_SETTINGS: usize = 102;
pub const ID_PAIR: usize = 110;
pub const ID_SAVE_SETTINGS: usize = 120;
pub const ID_REPAIR: usize = 121;
pub const ID_NAME: usize = 122;
pub const ID_AUTO_START: usize = 123;
pub const ID_SHOW_FLOATING: usize = 124;
/// The unpair button of row `i` has the id `ID_UNPAIR_BASE + i`.
pub const ID_UNPAIR_BASE: usize = 3000;
/// How many unpair buttons the ids leave room for.
pub const UNPAIR_ID_COUNT: usize = 1000;
pub const ID_TRAY_OPEN: usize = 4001;
pub const ID_TRAY_PAIR: usize = 4002;
pub const ID_TRAY_EXIT: usize = 4003;

/// The distance of the floating ball from the corner of the work area.
pub const BALL_MARGIN: i32 = 24;

/// A page of the main window.
#[derive(Debug, Clone, Copy, PartialEq, Eq, Structural)]
pub enum Page {
    Status,
    Phones,
    Settings,
    Pairing,
}

/// What a button or a menu entry asks for.
#[derive(Debug, Clone, Copy, PartialEq, Eq, Structural)]
pub enum UiCommand {
    Navigate(Page),
    Pair,
    SaveSettings,
    ToggleAutoStart,
    ToggleFloating,
    RepairInjector,
    Exit,
    /// Unpair the phone of this row.
    Unpair(usize),
}

pub open spec fn command_of(id: usize) -> Option<UiCommand> {
    if id == ID_NAV_STATUS || id == ID_TRAY_OPEN {
        Some(UiCommand::Navigate(Page::Status))
    } else if id == ID_NAV_PHONES {
        Some(UiCommand::Navigate(Page::Phones))
    } else if id == ID_NAV_SETTINGS {
        Some(UiCommand::Navigate(Page::Settings))
    } else if id == ID_PAIR || id == ID_TRAY_PAIR {
        Some(UiCommand::Pair)
    } else if id == ID_SAVE_SETTINGS {
        Some(UiCommand::SaveSettings)
    } else if id == ID_AUTO_START {
        Some(UiCommand::ToggleAutoStart)
    } else if id == ID_SHOW_FLOATING {
        Some(UiCommand::ToggleFloating)
    } else if id == ID_REPAIR {
        Some(UiCommand::RepairInjector)
    } else if id == ID_TRAY_EXIT {
        Some(UiCommand::Exit)
    } else if ID_UNPAIR_BASE <= id < ID_UNPAIR_BASE + UNPAIR_ID_COUNT {
        Some(UiCommand::Unpair((id - ID_UNPAIR_BASE) as usize))
    } else {
        None
    }
}

/// The command of a control or menu id; `None` for ids that stand for none.
pub fn command_for_id(id: usize) -> (command: Option<UiCommand>)
    ensures
        command == command_of(id),
{
    if id == ID_NAV_STATUS || id == ID_TRAY_OPEN {
        Some(UiCommand::Navigate(Page::Status))
    } else if id == ID_NAV_PHONES {
        Some(UiCommand::Navigate(Page::Phones))
    } else if id == ID_NAV_SETTINGS {
        Some(UiCommand::Navigate(Page::Settings))
    } else if id == ID_PAIR || id == ID_TRAY_PAIR {
        Some(UiCommand::Pair)
    } else if id == ID_SAVE_SETTINGS {
        Some(UiCommand::SaveSettings)
    } else if id == ID_AUTO_START {
        Some(UiCommand::ToggleAutoStart)
    } else if id == ID_SHOW_FLOATING {
        Some(UiCommand::ToggleFloating)
    } else if id == ID_REPAIR {
        Some(UiCommand::RepairInjector)
    } else if id == ID_TRAY_EXIT {
        Some(UiCommand::Exit)
    } else if ID_UNPAIR_BASE <= id && id < ID_UNPAIR_BASE + UNPAIR_ID_COUNT {
        Some(UiCommand::Unpair(id - ID_UNPAIR_BASE))
    } else {
        None
    }
}

/// Every row's unpair button is read back as the command for that row.
pub proof fn law_unpair_ids_round_trip(row: usize)
    requires
        row < UNPAIR_ID_COUNT,
    ensures
        command_of((ID_UNPAIR_BASE + row) as usize) == Some(UiCommand::Unpair(row)),
{
}

/// The navigation entry shown as selected: pairing belongs to the phones.
pub fn selected_navigation(page: Page) -> (selected: Page)
    ensures
        selected == (if page == Page::Pairing { Page::Phones } else { page }),
{
    match page {
        Page::Pairing => Page::Phones,
        other => other,
    }
}

/// Leaving the pairing page for another page cancels the pairing.
pub fn leaving_cancels_pairing(current: Page, next: Page) -> (cancels: bool)
    ensures
        cancels == (current == Page::Pairing && next != Page::Pairing),
{
    current == Page::Pairing && next != Page::Pairing
}

/// What a change of the shared state does to the open page.
#[derive(Debug, Clone, Copy, PartialEq, Eq, Structural)]
pub enum PageRefresh {
    /// The pairing ended: the status page is shown instead.
    ShowStatus,
    /// The rows no longer match the phones: the page is built again.
    Rebuild,
    /// The labels of the page are set again in place.
    UpdateLabels,
}

pub open spec fn page_refresh_of(page: Page, pairing_open: bool, shown_rows: usize, phone_count: usize) -> PageRefresh {
    if page == Page::Pairing && !pairing_open {
        PageRefresh::ShowStatus
    } else if page == Page::Phones && shown_rows != phone_count {
        PageRefresh::Rebuild
    } else {
        PageRefresh::UpdateLabels
    }
}

/// How the open page follows the state: `pairing_open` tells whether a
/// pairing offer is still shown, `shown_rows` how many phone rows the page
/// has and `phone_count` how many phones are paired.
pub fn page_refresh(page: Page, pairing_open: bool, shown_rows: usize, phone_count: usize) -> (refresh: PageRefresh)
    ensures
        refresh == page_refresh_of(page, pairing_open, shown_rows, phone_count),
{
    if page == Page::Pairing && !pairing_open {
        PageRefresh::ShowStatus
    } else if page == Page::Phones && shown_rows != phone_count {
        PageRefresh::Rebuild
    } else {
        PageRefresh::UpdateLabels
    }
}

/// The texts of the status page.
#[derive(Debug, Clone, PartialEq, Eq)]
pub struct StatusLabels {
    pub summary: String,
    pub phone: String,
    pub target: String,
    pub error: String,
}

pub open spec fn or_else(value: Option<String>, fallback: Seq<char>) -> Seq<char> {
    match value {
        Some(s) => s@,
        None => fallback,
    }
}

fn text_or(value: &Option<String>, fallback: &str) -> (text: String)
    ensures
        text@ == or_else(*value, fallback@),
{
    match value {
        Some(s) => s.clone(),
        None => fallback.to_owned(),
    }
}

/// The status page's labels: placeholders stand where nothing is known.
pub fn status_labels(language: Language, status: &RuntimeStatus) -> (labels: StatusLabels)
    ensures
        labels.summary@ == status.summary@,
        labels.phone@ == or_else(status.connected_phone, localized(language, "尚未连接"@, "Not connected"@)),
        labels.target@ == or_else(status.target_name, localized(language, "尚未选择"@, "Not selected"@)),
        labels.error@ == or_else(status.last_error, ""@),
{
    StatusLabels {
        summary: status.summary.clone(),
        phone: text_or(&status.connected_phone, tr(language, "尚未连接", "Not connected")),
        target: text_or(&status.target_name, tr(language, "尚未选择", "Not selected")),
        error: text_or(&status.last_error, ""),
    }
}

/// The state of a paired phone on the phones page.
pub open spec fn phone_row_status_of(language: Language, connected: bool, connected_before: bool) -> Seq<char> {
    if connected {
        localized(language, "已连接"@, "Connected"@)
    } else if connected_before {
        localized(language, "未连接 · 最近连接过"@, "Offline · Connected previously"@)
    } else {
        localized(language, "未连接 · 尚未连接过"@, "Offline · Never connected"@)
    }
}

/// The status of one row of the phones page: connected now, seen before,
/// or never connected.
pub fn phone_row_status(language: Language, connected: bool, connected_before: bool) -> (label: String)
    ensures
        label@ == phone_row_status_of(language, connected, connected_before),
{
    if connected {
        tr(language, "已连接", "Connected").to_owned()
    } else if connected_before {
        tr(language, "未连接 · 最近连接过", "Offline · Connected previously").to_owned()
    } else {
        tr(language, "未连接 · 尚未连接过", "Offline · Never connected").to_owned()
    }
}

/// The state of the input service on the settings page.
pub fn service_status(language: Language, injector_ready: bool) -> (label: &'static str)
    ensures
        label@ == if injector_ready {
            localized(language, "正常运行"@, "Running"@)
        } else {
            localized(language, "输入服务不可用"@, "Input unavailable"@)
        },
{
    if injector_ready {
        tr(language, "正常运行", "Running")
    } else {
        tr(language, "输入服务不可用", "Input unavailable")
    }
}

/// The update line of the settings page: an update that waits for the
/// input to end says so, any other shows the panel's message.
pub fn update_status_line(language: Language, message: &str, action: UpdateAction, install_blocked: bool) -> (line: String)
    ensures
        line@ == if action == UpdateAction::Install && install_blocked {
            localized(language, "输入结束后可安装"@, "Available after input ends"@)
        } else {
            message@
        },
{
    if action == UpdateAction::Install && install_blocked {
        tr(language, "输入结束后可安装", "Available after input ends").to_owned()
    } else {
        message.to_owned()
    }
}

/// The position of the progress bar, in thousandths of the download.
pub open spec fn per_mille_of(transferred: u64, total: u64) -> u64 {
    if total == 0 {
        0
    } else {
        let scaled: u64 = if transferred * 1000 > u64::MAX { u64::MAX } else { (transferred * 1000) as u64 };
        if scaled / total > 1000 { 1000 } else { scaled / total }
    }
}

/// The progress bar's position: 0 when the size is unknown, at most 1000.
pub fn progress_per_mille(transferred: u64, total: u64) -> (position: u64)
    ensures
        position == per_mille_of(transferred, total),
        position <= 1000,
{
    if total == 0 {
        0
    } else {
        let scaled: u64 = if transferred > u64::MAX / 1000 { u64::MAX } else { transferred * 1000 };
        let position = scaled / total;
        if position > 1000 { 1000 } else { position }
    }
}

/// What the update button does when pressed.
#[derive(Debug, Clone, Copy, PartialEq, Eq, Structural)]
pub enum UpdateButtonStep {
    /// An input runs: installing waits, and a notice says so.
    ShowInstallBlocked,
    /// The installer starts and the window closes.
    Install,
    /// The action goes to the update worker.
    Perform(UpdateAction),
}

/// The step for a press of the update button.
pub fn update_button_step(action: UpdateAction, install_blocked: bool) -> (step: UpdateButtonStep)
    ensures
        step == if action == UpdateAction::Install {
            if install_blocked {
                UpdateButtonStep::ShowInstallBlocked
            } else {
                UpdateButtonStep::Install
            }
        } else {
            UpdateButtonStep::Perform(action)
        },
{
    if action == UpdateAction::Install {
        if install_blocked {
            UpdateButtonStep::ShowInstallBlocked
        } else {
            UpdateButtonStep::Install
        }
    } else {
        UpdateButtonStep::Perform(action)
    }
}

/// The notice shown after the settings were saved, or could not be.
pub fn save_notice_text(language: Language, saved: bool) -> (text: &'static str)
    ensures
        text@ == if saved {
            localized(language, "设置已保存"@, "Settings saved"@)
        } else {
            localized(language, "设置保存失败，请检查电脑名称"@, "Could not save settings. Check the computer name."@)
        },
{
    if saved {
        tr(language, "设置已保存", "Settings saved")
    } else {
        tr(language, "设置保存失败，请检查电脑名称", "Could not save settings. Check the computer name.")
    }
}

/// The message after a repair of the input service.
pub fn repair_message(language: Language, repaired: bool) -> (text: &'static str)
    ensures
        text@ == if repaired {
            localized(language, "输入服务已恢复"@, "Input service repaired"@)
        } else {
            localized(
                language,
                "无法启动输入服务，请重新运行安装程序"@,
                "Could not start the input service. Run the installer again."@,
            )
        },
{
    if repaired {
        tr(language, "输入服务已恢复", "Input service repaired")
    } else {
        tr(language, "无法启动输入服务，请重新运行安装程序", "Could not start the input service. Run the installer again.")
    }
}

pub open spec fn unpair_prompt_of(language: Language, name: Seq<char>) -> Seq<char> {
    match language {
        Language::Chinese => "解绑“"@ + name + "”？解绑后需要重新扫描二维码。"@,
        Language::English => "Unpair \""@ + name + "\"? You will need to scan the QR code again."@,
    }
}

/// The question asked before a phone is unpaired; a phone whose name is
/// not known is called "this phone".
pub fn unpair_prompt(language: Language, phone_name: Option<&str>) -> (prompt: String)
    ensures
        prompt@ == unpair_prompt_of(
            language,
            match phone_name {
                Some(name) => name@,
                None => localized(language, "这部手机"@, "this phone"@),
            },
        ),
{
    let name = match phone_name {
        Some(name) => name,
        None => tr(language, "这部手机", "this phone"),
    };
    match language {
        Language::Chinese => {
            let head = concat("解绑“", name);
            concat(head.as_str(), "”？解绑后需要重新扫描二维码。")
        },
        Language::English => {
            let head = concat("Unpair \"", name);
            concat(head.as_str(), "\"? You will need to scan the QR code again.")
        },
    }
}

/// The tray icon's tip: the product and the status summary.
pub fn tray_tip(language: Language, summary: &str) -> (tip: String)
    ensures
        tip@ == localized(language, "说写"@, "FlowType"@) + " · "@ + summary@,
{
    let head = concat(product_name(language), " · ");
    concat(head.as_str(), summary)
}

/// The colour of the floating ball.
#[derive(Debug, Clone, Copy, PartialEq, Eq, Structural)]
pub enum BallColor {
    /// No phone is paired.
    Black,
    /// A phone is connected.
    Teal,
    /// Phones are paired, none is connected.
    Orange,
}

/// The ball's colour for the paired and connected phones.
pub fn ball_color(has_phones: bool, connected: bool) -> (color: BallColor)
    ensures
        color == if !has_phones {
            BallColor::Black
        } else if connected {
            BallColor::Teal
        } else {
            BallColor::Orange
        },
{
    if !has_phones {
        BallColor::Black
    } else if connected {
        BallColor::Teal
    } else {
        BallColor::Orange
    }
}

pub open spec fn ball_tooltip_of(has_phones: bool, connected_phone: Option<Seq<char>>) -> Seq<char> {
    if !has_phones {
        "说写\n尚未绑定手机\n双击打开主页面"@
    } else {
        match connected_phone {
            Some(phone) => "说写\n已连接："@ + phone + "\n单击切换到此电脑\n双击打开主页面"@,
            None => "说写\n手机连接已断开\n双击打开主页面"@,
        }
    }
}

/// The tooltip of the floating ball.
pub fn ball_tooltip(has_phones: bool, connected_phone: Option<&str>) -> (tip: String)
    ensures
        tip@ == ball_tooltip_of(
            has_phones,
            match connected_phone {
                Some(phone) => Some(phone@),
                None => None,
            },
        ),
{
    if !has_phones {
        "说写\n尚未绑定手机\n双击打开主页面".to_owned()
    } else {
        match connected_phone {
            Some(phone) => {
                let head = concat("说写\n已连接：", phone);
                concat(head.as_str(), "\n单击切换到此电脑\n双击打开主页面")
            },
            None => "说写\n手机连接已断开\n双击打开主页面".to_owned(),
        }
    }
}

/// The ball's first position: the bottom right corner of the work area,
/// `BALL_MARGIN` away from both edges.
pub fn ball_position(work_right: i32, work_bottom: i32, size: i32) -> (position: (i32, i32))
    requires
        i32::MIN <= work_right - size - BALL_MARGIN,
        i32::MIN <= work_bottom - size - BALL_MARGIN,
        work_right - size - BALL_MARGIN <= i32::MAX,
        work_bottom - size - BALL_MARGIN <= i32::MAX,
        i32::MIN <= work_right - size <= i32::MAX,
        i32::MIN <= work_bottom - size <= i32::MAX,
    ensures
        position.0 == work_right - size - BALL_MARGIN,
        position.1 == work_bottom - size - BALL_MARGIN,
{
    (work_right - size - BALL_MARGIN, work_bottom - size - BALL_MARGIN)
}

} // verus!
