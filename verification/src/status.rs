//! The status line of the computer: what it says after each event, in the
//! interface language.
use vstd::prelude::*;

use crate::i18n::{tr, Language};
use crate::presence::SwitchNote;
use crate::server::StatusNote;
use crate::text::concat;

verus! {

broadcast use vstd::string::group_string_axioms;

/// The status the window and the tray show.
#[derive(Debug, Clone, PartialEq, Eq)]
pub struct RuntimeStatus {
    pub summary: String,
    pub connected_phone: Option<String>,
    pub target_name: Option<String>,
    pub last_error: Option<String>,
}

/// A text in the interface language.
pub open spec fn localized(language: Language, chinese: Seq<char>, english: Seq<char>) -> Seq<char> {
    match language {
        Language::Chinese => chinese,
        Language::English => english,
    }
}

pub open spec fn text_of(value: Option<String>) -> Option<Seq<char>> {
    match value {
        Some(s) => Some(s@),
        None => None,
    }
}

/// "Connected: <phone>".
pub open spec fn connected_summary(language: Language, phone: Seq<char>) -> Seq<char> {
    localized(language, "已连接："@, "Connected: "@) + phone
}

pub open spec fn waiting_summary(language: Language) -> Seq<char> {
    localized(language, "等待手机连接"@, "Waiting for phone"@)
}

/// The summary when no input runs: the connected phone, or waiting.
pub open spec fn idle_summary(language: Language, connected: Option<String>) -> Seq<char> {
    match connected {
        Some(phone) => connected_summary(language, phone@),
        None => waiting_summary(language),
    }
}

/// The summary for a note on a switch request.
pub open spec fn switch_note_text(language: Language, note: SwitchNote) -> Seq<char> {
    match note {
        SwitchNote::PhoneNotConnected => localized(language, "手机未连接"@, "Phone is not connected"@),
        SwitchNote::AlreadyPending => localized(language, "切换请求正在处理中"@, "Switch request is already pending"@),
        SwitchNote::PhoneDidNotRespond => localized(language, "手机未响应"@, "Phone did not respond"@),
        SwitchNote::RequestSent => localized(language, "已发送切换请求"@, "Switch request sent"@),
        SwitchNote::Switching => localized(language, "正在切换手机输入"@, "Switching phone input"@),
        SwitchNote::Switched => localized(language, "已切换到此电脑"@, "Switched to this computer"@),
        SwitchNote::NotPairedOnPhone => localized(language, "手机未找到这台电脑"@, "Computer is not paired on the phone"@),
    }
}

fn localized_text(language: Language, chinese: &'static str, english: &'static str) -> (text: String)
    ensures
        text@ == localized(language, chinese@, english@),
{
    tr(language, chinese, english).to_owned()
}

fn connected_text(language: Language, phone: &str) -> (text: String)
    ensures
        text@ == connected_summary(language, phone@),
{
    concat(tr(language, "已连接：", "Connected: "), phone)
}

fn idle_text(language: Language, connected: &Option<String>) -> (text: String)
    ensures
        text@ == idle_summary(language, *connected),
{
    match connected {
        Some(phone) => connected_text(language, phone.as_str()),
        None => localized_text(language, "等待手机连接", "Waiting for phone"),
    }
}

impl RuntimeStatus {
    /// The status at start: waiting for a phone.
    pub fn waiting(language: Language) -> (status: Self)
        ensures
            status.summary@ == waiting_summary(language),
            status.connected_phone is None,
            status.target_name is None,
            status.last_error is None,
    {
        RuntimeStatus {
            summary: localized_text(language, "等待手机连接", "Waiting for phone"),
            connected_phone: None,
            target_name: None,
            last_error: None,
        }
    }

    /// The status shown when the real one cannot be read.
    pub fn unavailable(language: Language) -> (status: Self)
        ensures
            status.summary@ == localized(language, "状态不可用"@, "Status unavailable"@),
            status.connected_phone is None,
            status.target_name is None,
            text_of(status.last_error) == Some(localized(language, "内部状态不可用"@, "Internal status unavailable"@)),
    {
        RuntimeStatus {
            summary: localized_text(language, "状态不可用", "Status unavailable"),
            connected_phone: None,
            target_name: None,
            last_error: Some(localized_text(language, "内部状态不可用", "Internal status unavailable")),
        }
    }

    /// The input session is over: the target is forgotten and the summary
    /// returns to the connected phone.
    pub fn mark_input_finished(&mut self, language: Language)
        ensures
            final(self).target_name is None,
            final(self).summary@ == idle_summary(language, old(self).connected_phone),
            final(self).connected_phone == old(self).connected_phone,
            final(self).last_error == old(self).last_error,
    {
        self.target_name = None;
        self.summary = idle_text(language, &self.connected_phone);
    }

    /// A connection took the input.
    pub fn phone_connected(&mut self, language: Language, phone_name: &str)
        ensures
            final(self).summary@ == connected_summary(language, phone_name@),
            text_of(final(self).connected_phone) == Some(phone_name@),
            final(self).target_name is None,
            final(self).last_error is None,
    {
        self.summary = connected_text(language, phone_name);
        self.connected_phone = Some(phone_name.to_owned());
        self.target_name = None;
        self.last_error = None;
    }

    /// The connection holding the input ended.
    pub fn connection_released(&mut self, language: Language)
        ensures
            final(self).summary@ == idle_summary(language, old(self).connected_phone),
            final(self).target_name is None,
            final(self).connected_phone == old(self).connected_phone,
            final(self).last_error == old(self).last_error,
    {
        self.summary = idle_text(language, &self.connected_phone);
        self.target_name = None;
    }

    /// Shows the phone chosen among the online connections, or none.
    pub fn show_online(&mut self, language: Language, phone_name: Option<&str>)
        ensures
            match phone_name {
                Some(name) => final(self).summary@ == connected_summary(language, name@) && text_of(
                    final(self).connected_phone,
                ) == Some(name@) && final(self).last_error is None && final(self).target_name
                    == old(self).target_name,
                None => final(self).summary@ == waiting_summary(language) && final(self).connected_phone is None
                    && final(self).target_name is None && final(self).last_error == old(self).last_error,
            },
    {
        match phone_name {
            Some(name) => {
                self.connected_phone = Some(name.to_owned());
                self.summary = connected_text(language, name);
                self.last_error = None;
            },
            None => {
                self.connected_phone = None;
                self.target_name = None;
                self.summary = localized_text(language, "等待手机连接", "Waiting for phone");
            },
        }
    }

    /// The input service was repaired.
    pub fn injector_repaired(&mut self, language: Language)
        ensures
            final(self).last_error is None,
            old(self).connected_phone is None ==> final(self).summary@ == waiting_summary(language),
            old(self).connected_phone is Some ==> final(self).summary == old(self).summary,
            final(self).connected_phone == old(self).connected_phone,
            final(self).target_name == old(self).target_name,
    {
        self.last_error = None;
        if self.connected_phone.is_none() {
            self.summary = localized_text(language, "等待手机连接", "Waiting for phone");
        }
    }

    /// The interface language changed: the summary is said again in it, and
    /// the last error (in the old language) is dropped.
    pub fn language_changed(&mut self, language: Language)
        ensures
            final(self).summary@ == idle_summary(language, old(self).connected_phone),
            final(self).last_error is None,
            final(self).connected_phone == old(self).connected_phone,
            final(self).target_name == old(self).target_name,
    {
        self.summary = idle_text(language, &self.connected_phone);
        self.last_error = None;
    }

    /// An image from the phone was put on the clipboard, or could not be.
    pub fn image_stored(&mut self, language: Language, stored: bool)
        ensures
            stored ==> final(self).summary@ == localized(language, "图片已保存到剪贴板"@, "Image copied to clipboard"@)
                && final(self).last_error is None,
            !stored ==> final(self).summary == old(self).summary && text_of(final(self).last_error) == Some(
                localized(language, "无法写入 Windows 剪贴板"@, "Could not copy the image to the Windows clipboard"@),
            ),
            final(self).connected_phone == old(self).connected_phone,
            final(self).target_name == old(self).target_name,
    {
        if stored {
            self.summary = localized_text(language, "图片已保存到剪贴板", "Image copied to clipboard");
            self.last_error = None;
        } else {
            self.last_error = Some(
                localized_text(language, "无法写入 Windows 剪贴板", "Could not copy the image to the Windows clipboard"),
            );
        }
    }

    /// Says how a request to switch the phone's input to this computer went.
    pub fn switch_noted(&mut self, language: Language, note: SwitchNote)
        ensures
            final(self).summary@ == switch_note_text(language, note),
            final(self).connected_phone == old(self).connected_phone,
            final(self).target_name == old(self).target_name,
            final(self).last_error == old(self).last_error,
    {
        self.summary = match note {
            SwitchNote::PhoneNotConnected => localized_text(language, "手机未连接", "Phone is not connected"),
            SwitchNote::AlreadyPending => localized_text(language, "切换请求正在处理中", "Switch request is already pending"),
            SwitchNote::PhoneDidNotRespond => localized_text(language, "手机未响应", "Phone did not respond"),
            SwitchNote::RequestSent => localized_text(language, "已发送切换请求", "Switch request sent"),
            SwitchNote::Switching => localized_text(language, "正在切换手机输入", "Switching phone input"),
            SwitchNote::Switched => localized_text(language, "已切换到此电脑", "Switched to this computer"),
            SwitchNote::NotPairedOnPhone => localized_text(language, "手机未找到这台电脑", "Computer is not paired on the phone"),
        };
    }

    /// Applies what a step of a phone connection reports.
    pub fn apply(&mut self, language: Language, note: &StatusNote)
        ensures
            match *note {
                StatusNote::Unchanged => *final(self) == *old(self),
                StatusNote::ErrorCleared => *final(self) == (RuntimeStatus { last_error: None, ..*old(self) }),
                StatusNote::TypingIn(t) => final(self).summary@ == localized(language, "正在输入到："@, "Typing in: "@)
                    + t@ && text_of(final(self).target_name) == Some(t@) && final(self).last_error is None
                    && final(self).connected_phone == old(self).connected_phone,
                StatusNote::ReturnTo(t) => final(self).summary@ == localized(language, "请回到："@, "Return to: "@)
                    + t@ && text_of(final(self).target_name) == Some(t@) && final(self).last_error
                    == old(self).last_error && final(self).connected_phone == old(self).connected_phone,
                StatusNote::InputWindowClosed => final(self).summary@ == localized(
                    language,
                    "原输入窗口已关闭"@,
                    "The input window was closed"@,
                ) && final(self).target_name is None && text_of(final(self).last_error) == Some(
                    localized(
                        language,
                        "请在电脑上重新放置光标，再从手机同步全文"@,
                        "Place the cursor again, then sync from your phone"@,
                    ),
                ) && final(self).connected_phone == old(self).connected_phone,
                StatusNote::EditedOnComputer => final(self).summary@ == localized(
                    language,
                    "电脑端已编辑"@,
                    "Text edited on the computer"@,
                ) && text_of(final(self).last_error) == Some(
                    localized(language, "本次同步已停止，手机正文仍保留"@, "Syncing stopped. The text remains on your phone."@),
                ) && final(self).target_name == old(self).target_name && final(self).connected_phone
                    == old(self).connected_phone,
                StatusNote::InputSubmitted => final(self).summary@ == idle_summary(language, old(self).connected_phone)
                    && final(self).target_name is None && final(self).last_error is None
                    && final(self).connected_phone == old(self).connected_phone,
                StatusNote::AppUnsupported => final(self).summary@ == localized(
                    language,
                    "当前应用不支持实时输入"@,
                    "This app does not support live input"@,
                ) && final(self).target_name is None && text_of(final(self).last_error) == Some(
                    localized(
                        language,
                        "请将光标移到其他输入框后重试"@,
                        "Move the cursor to another text field and try again"@,
                    ),
                ) && final(self).connected_phone == old(self).connected_phone,
                StatusNote::InjectorUnavailable => final(self).summary@ == localized(
                    language,
                    "Windows 输入服务不可用"@,
                    "Windows input is unavailable"@,
                ) && final(self).target_name is None && text_of(final(self).last_error) == Some(
                    localized(language, "请在设置中修复输入服务"@, "Repair input from Settings"@),
                ) && final(self).connected_phone == old(self).connected_phone,
                StatusNote::InputRecovered => final(self).summary@ == localized(
                    language,
                    "输入服务已恢复"@,
                    "Input service recovered"@,
                ) && final(self).target_name is None && text_of(final(self).last_error) == Some(
                    localized(
                        language,
                        "Windows 无法确认中断前的输入结果，请在手机上同步全文"@,
                        "Windows could not confirm the interrupted input. Sync the full text from your phone."@,
                    ),
                ) && final(self).connected_phone == old(self).connected_phone,
                StatusNote::InputStopped { outcome_unknown } => final(self).summary@ == localized(
                    language,
                    "输入已停止"@,
                    "Input stopped"@,
                ) && text_of(final(self).last_error) == Some(
                    if outcome_unknown {
                        localized(language, "Windows 无法确认本次输入结果"@, "Windows could not confirm this input"@)
                    } else {
                        localized(language, "输入状态不一致"@, "Input state mismatch"@)
                    },
                ) && final(self).target_name == old(self).target_name && final(self).connected_phone
                    == old(self).connected_phone,
                StatusNote::InputFinished => final(self).summary@ == idle_summary(language, old(self).connected_phone)
                    && final(self).target_name is None && final(self).last_error == old(self).last_error
                    && final(self).connected_phone == old(self).connected_phone,
            },
    {
        match note {
            StatusNote::Unchanged => {},
            StatusNote::ErrorCleared => {
                self.last_error = None;
            },
            StatusNote::TypingIn(target) => {
                self.summary = concat(tr(language, "正在输入到：", "Typing in: "), target.as_str());
                self.target_name = Some(target.clone());
                self.last_error = None;
            },
            StatusNote::ReturnTo(target) => {
                self.summary = concat(tr(language, "请回到：", "Return to: "), target.as_str());
                self.target_name = Some(target.clone());
            },
            StatusNote::InputWindowClosed => {
                self.summary = localized_text(language, "原输入窗口已关闭", "The input window was closed");
                self.target_name = None;
                self.last_error = Some(
                    localized_text(
                        language,
                        "请在电脑上重新放置光标，再从手机同步全文",
                        "Place the cursor again, then sync from your phone",
                    ),
                );
            },
            StatusNote::EditedOnComputer => {
                self.summary = localized_text(language, "电脑端已编辑", "Text edited on the computer");
                self.last_error = Some(
                    localized_text(language, "本次同步已停止，手机正文仍保留", "Syncing stopped. The text remains on your phone."),
                );
            },
            StatusNote::InputSubmitted => {
                self.summary = localized_text(language, "输入已提交", "Input submitted");
                self.target_name = None;
                self.last_error = None;
                self.mark_input_finished(language);
            },
            StatusNote::AppUnsupported => {
                self.summary = localized_text(language, "当前应用不支持实时输入", "This app does not support live input");
                self.target_name = None;
                self.last_error = Some(
                    localized_text(language, "请将光标移到其他输入框后重试", "Move the cursor to another text field and try again"),
                );
            },
            StatusNote::InjectorUnavailable => {
                self.summary = localized_text(language, "Windows 输入服务不可用", "Windows input is unavailable");
                self.target_name = None;
                self.last_error = Some(localized_text(language, "请在设置中修复输入服务", "Repair input from Settings"));
            },
            StatusNote::InputRecovered => {
                self.summary = localized_text(language, "输入服务已恢复", "Input service recovered");
                self.target_name = None;
                self.last_error = Some(
                    localized_text(
                        language,
                        "Windows 无法确认中断前的输入结果，请在手机上同步全文",
                        "Windows could not confirm the interrupted input. Sync the full text from your phone.",
                    ),
                );
            },
            StatusNote::InputStopped { outcome_unknown } => {
                self.summary = localized_text(language, "输入已停止", "Input stopped");
                self.last_error = Some(
                    if *outcome_unknown {
                        localized_text(language, "Windows 无法确认本次输入结果", "Windows could not confirm this input")
                    } else {
                        localized_text(language, "输入状态不一致", "Input state mismatch")
                    },
                );
            },
            StatusNote::InputFinished => {
                self.mark_input_finished(language);
            },
        }
    }
}

} // verus!
