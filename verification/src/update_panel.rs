//! What the update panel and the tray menu show, and the small decisions
//! of the update worker.
use vstd::prelude::*;

use crate::text::{chars_of, concat, str_equal, string_from_chars};
use crate::update::CHECK_INTERVAL_SECONDS;

verus! {

broadcast use vstd::string::group_string_axioms;

/// The action the update button offers.
#[derive(Debug, Clone, Copy, PartialEq, Eq, Structural)]
pub enum UpdateAction {
    /// No button is offered.
    NoAction,
    Check,
    Download,
    Cancel,
    Install,
}

/// What the update panel shows.
#[derive(Debug, Clone, PartialEq, Eq)]
pub struct UpdateSnapshot {
    pub message: String,
    pub action: UpdateAction,
    pub action_label: String,
    /// Bytes done and bytes in all, while downloading.
    pub progress: Option<(u64, u64)>,
    pub version: Option<String>,
}

/// A command for the update worker.
#[derive(Debug, Clone, Copy, PartialEq, Eq, Structural)]
pub enum UpdateCommand {
    Check,
    Download,
    Cancel,
}

/// The worker command a button press stands for; installing runs on the
/// interface thread and offers no command.
pub fn command_for(action: UpdateAction) -> (command: Option<UpdateCommand>)
    ensures
        command == match action {
            UpdateAction::Check => Some(UpdateCommand::Check),
            UpdateAction::Download => Some(UpdateCommand::Download),
            UpdateAction::Cancel => Some(UpdateCommand::Cancel),
            _ => None,
        },
{
    match action {
        UpdateAction::Check => Some(UpdateCommand::Check),
        UpdateAction::Download => Some(UpdateCommand::Download),
        UpdateAction::Cancel => Some(UpdateCommand::Cancel),
        _ => None,
    }
}

pub open spec fn view_of(value: Option<String>) -> Option<Seq<char>> {
    match value {
        Some(s) => Some(s@),
        None => None,
    }
}

impl UpdateSnapshot {
    /// The panel before any check: a check can be started.
    pub fn idle() -> (snapshot: Self)
        ensures
            snapshot.message@ == "可检查更新"@,
            snapshot.action == UpdateAction::Check,
            snapshot.action_label@ == "检查更新"@,
            snapshot.progress is None,
            snapshot.version is None,
    {
        UpdateSnapshot {
            message: "可检查更新".to_owned(),
            action: UpdateAction::Check,
            action_label: "检查更新".to_owned(),
            progress: None,
            version: None,
        }
    }

    /// The tray menu entry for the update: the version to update to while a
    /// download is offered, the progress while downloading, a note once
    /// downloaded, nothing otherwise.
    pub fn tray_label(&self) -> (label: Option<String>)
        ensures
            view_of(label) == match self.action {
                UpdateAction::Download => match self.version {
                    Some(v) => Some("更新到 "@ + v@ + "..."@),
                    None => None,
                },
                UpdateAction::Cancel => Some(self.message@),
                UpdateAction::Install => Some("更新已下载..."@),
                _ => None,
            },
    {
        match self.action {
            UpdateAction::Download => match &self.version {
                Some(v) => {
                    let head = concat("更新到 ", v.as_str());
                    Some(concat(head.as_str(), "..."))
                },
                None => None,
            },
            UpdateAction::Cancel => Some(self.message.clone()),
            UpdateAction::Install => Some("更新已下载...".to_owned()),
            _ => None,
        }
    }
}

/// The panel while a check runs.
pub fn checking_snapshot() -> (snapshot: UpdateSnapshot)
    ensures
        snapshot.message@ == "正在检查更新…"@,
        snapshot.action == UpdateAction::NoAction,
        snapshot.action_label@.len() == 0,
        snapshot.progress is None,
        snapshot.version is None,
{
    UpdateSnapshot {
        message: "正在检查更新…".to_owned(),
        action: UpdateAction::NoAction,
        action_label: String::new(),
        progress: None,
        version: None,
    }
}

/// The panel when the running version is the newest.
pub fn up_to_date_snapshot() -> (snapshot: UpdateSnapshot)
    ensures
        snapshot.message@ == "已是最新版本"@,
        snapshot.action == UpdateAction::Check,
        snapshot.action_label@ == "再次检查"@,
        snapshot.progress is None,
        snapshot.version is None,
{
    UpdateSnapshot {
        message: "已是最新版本".to_owned(),
        action: UpdateAction::Check,
        action_label: "再次检查".to_owned(),
        progress: None,
        version: None,
    }
}

/// The panel when a newer version can be downloaded.
pub fn available_snapshot(version: &str) -> (snapshot: UpdateSnapshot)
    ensures
        snapshot.message@ == "发现新版本 "@ + version@,
        snapshot.action == UpdateAction::Download,
        snapshot.action_label@ == "下载更新"@,
        snapshot.progress is None,
        view_of(snapshot.version) == Some(version@),
{
    UpdateSnapshot {
        message: concat("发现新版本 ", version),
        action: UpdateAction::Download,
        action_label: "下载更新".to_owned(),
        progress: None,
        version: Some(version.to_owned()),
    }
}

/// The panel when the installer is downloaded and verified.
pub fn ready_snapshot(version: &str, size: u64) -> (snapshot: UpdateSnapshot)
    ensures
        snapshot.message@ == "更新 "@ + version@ + " 已下载"@,
        snapshot.action == UpdateAction::Install,
        snapshot.action_label@ == "安装更新"@,
        snapshot.progress == Some((size, size)),
        view_of(snapshot.version) == Some(version@),
{
    let head = concat("更新 ", version);
    UpdateSnapshot {
        message: concat(head.as_str(), " 已下载"),
        action: UpdateAction::Install,
        action_label: "安装更新".to_owned(),
        progress: Some((size, size)),
        version: Some(version.to_owned()),
    }
}

/// The share of the download done, in percent of `total`; the product with
/// 100 saturates, as a size beyond `u64::MAX / 100` bytes cannot be scaled.
pub fn download_percent(transferred: u64, total: u64) -> (percent: u64)
    requires
        total > 0,
    ensures
        percent == (if transferred * 100 > u64::MAX { u64::MAX } else { (transferred * 100) as u64 }) / total,
{
    let scaled: u64 = if transferred > u64::MAX / 100 { u64::MAX } else { transferred * 100 };
    scaled / total
}

/// The panel while the installer downloads; `message` is the progress line
/// the window shows, and the download can be cancelled.
pub fn downloading_snapshot(version: &str, transferred: u64, total: u64, message: String) -> (snapshot: UpdateSnapshot)
    ensures
        snapshot.message@ == message@,
        snapshot.action == UpdateAction::Cancel,
        snapshot.action_label@ == "取消"@,
        snapshot.progress == Some((transferred, total)),
        view_of(snapshot.version) == Some(version@),
{
    UpdateSnapshot {
        message,
        action: UpdateAction::Cancel,
        action_label: "取消".to_owned(),
        progress: Some((transferred, total)),
        version: Some(version.to_owned()),
    }
}

/// The panel after a failed check or installation: the check can be retried.
pub fn failure_snapshot(message: &str) -> (snapshot: UpdateSnapshot)
    ensures
        snapshot.message@ == message@,
        snapshot.action == UpdateAction::Check,
        snapshot.action_label@ == "重试检查更新"@,
        snapshot.progress is None,
        snapshot.version is None,
{
    UpdateSnapshot {
        message: message.to_owned(),
        action: UpdateAction::Check,
        action_label: "重试检查更新".to_owned(),
        progress: None,
        version: None,
    }
}

/// The panel after a failed download: the download can be retried.
pub fn download_failure_snapshot(version: &str, message: &str) -> (snapshot: UpdateSnapshot)
    ensures
        snapshot.message@ == message@,
        snapshot.action == UpdateAction::Download,
        snapshot.action_label@ == "重试下载"@,
        snapshot.progress is None,
        view_of(snapshot.version) == Some(version@),
{
    UpdateSnapshot {
        message: message.to_owned(),
        action: UpdateAction::Download,
        action_label: "重试下载".to_owned(),
        progress: None,
        version: Some(version.to_owned()),
    }
}

/// Whether `pattern` occurs in `text`.
pub open spec fn contains_text(text: Seq<char>, pattern: Seq<char>) -> bool {
    exists|i: int| 0 <= i <= text.len() - pattern.len() && #[trigger] text.subrange(i, i + pattern.len()) == pattern
}

fn occurs_at(t: &Vec<char>, p: &Vec<char>, start: usize) -> (found: bool)
    requires
        start + p@.len() <= t@.len(),
        t@.len() <= usize::MAX,
    ensures
        found == (t@.subrange(start as int, start + p@.len()) == p@),
{
    let mut k: usize = 0;
    while k < p.len()
        invariant
            start + p@.len() <= t@.len(),
            t@.len() <= usize::MAX,
            k <= p@.len(),
            forall|j: int| 0 <= j < k ==> t@[start + j] == p@[j],
        decreases p.len() - k,
    {
        if t[start + k] != p[k] {
            proof {
                assert(t@.subrange(start as int, start + p@.len())[k as int] != p@[k as int]);
            }
            return false;
        }
        k += 1;
    }
    proof {
        assert(t@.subrange(start as int, start + p@.len()) =~= p@);
    }
    true
}

/// `str::contains` with a text pattern.
pub fn contains(text: &str, pattern: &str) -> (found: bool)
    ensures
        found == contains_text(text@, pattern@),
{
    let t = chars_of(text);
    let p = chars_of(pattern);
    if p.len() > t.len() {
        return false;
    }
    if p.len() == 0 {
        proof {
            assert(t@.subrange(0, 0int + p@.len()) =~= p@);
        }
        return true;
    }
    let mut start: usize = 0;
    let total = t.len();
    while start <= t.len() - p.len()
        invariant
            total == t@.len(),
            p@.len() > 0,
            t@ == text@,
            p@ == pattern@,
            p@.len() <= t@.len(),
            start <= t@.len() - p@.len() + 1,
            forall|i: int| 0 <= i < start ==> #[trigger] t@.subrange(i, i + p@.len()) != p@,
        decreases t.len() - p.len() + 1 - start,
    {
        if occurs_at(&t, &p, start) {
            return true;
        }
        start += 1;
    }
    false
}

/// A friendlier message for the WinHTTP errors of an update check: timeout
/// (12002), unresolved name (12007) and failed connection (12029, 12030);
/// any other error is shown as it is.
pub fn friendly_update_error(error: &str) -> (message: String)
    ensures
        message@ == if contains_text(error@, "12002"@) {
            "连接 GitHub 超时，请检查网络后重试"@
        } else if contains_text(error@, "12007"@) {
            "无法解析 GitHub 地址，请检查网络后重试"@
        } else if contains_text(error@, "12029"@) || contains_text(error@, "12030"@) {
            "无法连接 GitHub，请检查网络后重试"@
        } else {
            error@
        },
{
    if contains(error, "12002") {
        "连接 GitHub 超时，请检查网络后重试".to_owned()
    } else if contains(error, "12007") {
        "无法解析 GitHub 地址，请检查网络后重试".to_owned()
    } else if contains(error, "12029") || contains(error, "12030") {
        "无法连接 GitHub，请检查网络后重试".to_owned()
    } else {
        error.to_owned()
    }
}

/// Whether a day has passed since the last successful check.
pub fn should_auto_check(now: u64, last_successful_check: u64) -> (due: bool)
    ensures
        due == (now >= last_successful_check && now - last_successful_check >= CHECK_INTERVAL_SECONDS),
{
    let elapsed = if now >= last_successful_check {
        now - last_successful_check
    } else {
        0
    };
    elapsed >= CHECK_INTERVAL_SECONDS
}

/// The installer's file name: what follows the last `/` of its URL, which
/// must be non-empty and hold neither `/` nor `\`.
pub open spec fn download_file_name_of(url: Seq<char>) -> Option<Seq<char>> {
    if exists|i: int| 0 <= i < url.len() && url[i] == '/' {
        let cut = choose|i: int|
            0 <= i < url.len() && url[i] == '/' && forall|j: int| i < j < url.len() ==> url[j] != '/';
        let name = url.subrange(cut + 1, url.len() as int);
        if name.len() > 0 && forall|j: int| 0 <= j < name.len() ==> name[j] != '\\' {
            Some(name)
        } else {
            None
        }
    } else {
        None
    }
}

fn free_of_backslash(name: &Vec<char>) -> (free: bool)
    ensures
        free == forall|j: int| 0 <= j < name@.len() ==> name@[j] != '\\',
{
    let mut k: usize = 0;
    while k < name.len()
        invariant
            k <= name@.len(),
            forall|j: int| 0 <= j < k ==> name@[j] != '\\',
        decreases name.len() - k,
    {
        if name[k] == '\\' {
            return false;
        }
        k += 1;
    }
    true
}

/// The file name the installer is saved under.
pub fn download_file_name(url: &str) -> (name: Option<String>)
    ensures
        view_of(name) == download_file_name_of(url@),
{
    let chars = chars_of(url);
    let mut index: usize = chars.len();
    while index > 0 && chars[index - 1] != '/'
        invariant
            chars@ == url@,
            index <= chars@.len(),
            forall|j: int| index <= j < chars@.len() ==> chars@[j] != '/',
        decreases index,
    {
        index -= 1;
    }
    if index == 0 {
        return None;
    }
    let cut = index - 1;
    let name = crate::text::copy_range(&chars, index, chars.len());
    proof {
        assert(chars@[cut as int] == '/');
        let c = choose|i: int|
            0 <= i < url@.len() && url@[i] == '/' && forall|j: int| i < j < url@.len() ==> url@[j] != '/';
        if c < cut {
            assert(url@[cut as int] == '/');
        }
        if c > cut {
            assert(url@[c] == '/');
        }
        assert(c == cut as int);
        assert(download_file_name_of(url@) == if name@.len() > 0 && forall|j: int| 0 <= j < name@.len() ==> name@[j] != '\\' {
            Some(name@)
        } else {
            None
        });
    }
    if name.len() == 0 {
        return None;
    }
    if !free_of_backslash(&name) {
        return None;
    }
    Some(string_from_chars(name.as_slice()))
}

} // verus!
