//! Decisions of the elevated injector: turning snapshots into keystrokes,
//! tracking physical input, and driving one text-service session.
use vstd::prelude::*;

use crate::diff::{common_prefix_len, is_longest_common_prefix, lemma_common_prefix_unique, lemma_common_prefix_len};
use crate::ipc::{InjectorRequest, InjectorResponse};
use crate::text::{ascii_lowercase, chars_of, copy_range, eq_ignore_ascii_case, str_equal, string_from_chars};
use crate::tip::TipResponse;
use crate::broker::{begin_precheck, begin_precheck_spec, BeginStep};

verus! {

/// Length of the longest common suffix of two sequences.
pub open spec fn common_suffix_len<A>(a: Seq<A>, b: Seq<A>) -> nat {
    common_prefix_len(a.reverse(), b.reverse())
}

/// The edit that turns `previous` into `next` at the end of the text, when
/// the change does not reach into the middle: delete the characters of
/// `previous` after the common prefix and type the rest of `next`. `None`
/// when the changed parts still share a suffix, i.e. the edit was in the
/// middle of the text.
pub open spec fn tail_edit(previous: Seq<char>, next: Seq<char>) -> Option<(nat, Seq<char>)> {
    let p = common_prefix_len(previous, next) as int;
    let previous_tail = previous.skip(p);
    let next_tail = next.skip(p);
    if common_suffix_len(previous_tail, next_tail) == 0 {
        Some((previous_tail.len(), next_tail))
    } else {
        None
    }
}

/// Finds the tail edit from `previous` to `next`: how many characters to
/// delete and what to type, or `None` for an edit in the middle.
pub fn tail_replacement(previous: &str, next: &str) -> (edit: Option<(usize, String)>)
    ensures
        match (edit, tail_edit(previous@, next@)) {
            (Some((count, text)), Some((spec_count, spec_text))) => count == spec_count && text@
                == spec_text,
            (None, None) => true,
            _ => false,
        },
{
    let previous_chars = chars_of(previous);
    let next_chars = chars_of(next);
    let mut prefix: usize = 0;
    while prefix < previous_chars.len() && prefix < next_chars.len() && previous_chars[prefix]
        == next_chars[prefix]
        invariant
            previous_chars@ == previous@,
            next_chars@ == next@,
            prefix <= previous_chars@.len(),
            prefix <= next_chars@.len(),
            forall|i: int| 0 <= i < prefix ==> previous@[i] == next@[i],
        decreases previous_chars.len() - prefix,
    {
        prefix += 1;
    }
    proof {
        lemma_common_prefix_unique(previous@, next@, prefix as int);
    }
    let ghost pt = previous@.skip(prefix as int);
    let ghost nt = next@.skip(prefix as int);
    let previous_tail_len = previous_chars.len() - prefix;
    let next_tail_len = next_chars.len() - prefix;
    // The tails share a suffix exactly when their last characters agree.
    let shares_suffix = previous_tail_len > 0 && next_tail_len > 0
        && previous_chars[previous_chars.len() - 1] == next_chars[next_chars.len() - 1];
    proof {
        let rp = pt.reverse();
        let rn = nt.reverse();
        lemma_common_prefix_len(rp, rn);
        if shares_suffix {
            assert(rp[0] == pt[pt.len() - 1]);
            assert(rn[0] == nt[nt.len() - 1]);
            assert(rp[0] == rn[0]);
            assert(common_prefix_len(rp, rn) != 0);
        } else {
            if rp.len() > 0 && rn.len() > 0 {
                assert(rp[0] == pt[pt.len() - 1]);
                assert(rn[0] == nt[nt.len() - 1]);
            }
            assert(is_longest_common_prefix(rp, rn, 0));
            lemma_common_prefix_unique(rp, rn, 0);
        }
    }
    if shares_suffix {
        None
    } else {
        let typed = copy_range(&next_chars, prefix, next_chars.len());
        proof {
            assert(typed@ =~= nt);
        }
        Some((previous_tail_len, string_from_chars(typed.as_slice())))
    }
}

/// Keystrokes for one snapshot change, as the injector sends them.
#[derive(Debug, Clone, PartialEq, Eq)]
pub struct KeystrokePlan {
    pub backspaces: usize,
    pub insert: String,
}

/// `replace_text` falls back to retyping everything when the change is in
/// the middle of the text.
pub open spec fn replacement(previous: Seq<char>, next: Seq<char>) -> (nat, Seq<char>) {
    match tail_edit(previous, next) {
        Some(edit) => edit,
        None => (previous.len(), next),
    }
}

/// Plans the keystrokes `replace_text` sends: the tail edit when the change
/// is at the end of the text, otherwise deleting all of `previous` and
/// typing all of `next`.
pub fn replace_text(previous: &str, next: &str) -> (plan: KeystrokePlan)
    ensures
        (plan.backspaces as nat, plan.insert@) == replacement(previous@, next@),
        previous@.take(previous@.len() - plan.backspaces) + plan.insert@ == next@,
{
    proof {
        lemma_tail_edit_reaches_next(previous@, next@);
    }
    match tail_replacement(previous, next) {
        Some((backspaces, insert)) => KeystrokePlan { backspaces, insert },
        None => {
            let count = chars_of(previous).len();
            proof {
                assert(previous@.take(0) =~= Seq::<char>::empty());
            }
            KeystrokePlan { backspaces: count, insert: next.to_owned() }
        },
    }
}

proof fn lemma_tail_edit_reaches_next(previous: Seq<char>, next: Seq<char>)
    ensures
        tail_edit(previous, next) matches Some((count, text)) ==> count <= previous.len()
            && previous.take(previous.len() - count) + text == next,
{
    let p = common_prefix_len(previous, next) as int;
    lemma_common_prefix_len(previous, next);
    if tail_edit(previous, next) is Some {
        assert(previous.take(p) =~= next.take(p));
        assert(next.take(p) + next.skip(p) =~= next);
    }
}

/// Applying the planned keystrokes to `previous` always yields `next`.
pub proof fn law_replacement_reaches_next(previous: Seq<char>, next: Seq<char>)
    ensures
        replacement(previous, next).0 <= previous.len(),
        previous.take(previous.len() - replacement(previous, next).0) + replacement(
            previous,
            next,
        ).1 == next,
{
    lemma_tail_edit_reaches_next(previous, next);
    assert(previous.take(0) =~= Seq::<char>::empty());
}

/// A change at the end of the text never retypes the unchanged prefix.
pub proof fn law_appending_only_types_the_new_tail(previous: Seq<char>, appended: Seq<char>)
    ensures
        tail_edit(previous, previous + appended) == Some((0nat, appended)),
{
    let next = previous + appended;
    lemma_common_prefix_len(previous, next);
    assert forall|i: int| 0 <= i < previous.len() implies previous[i] == next[i] by {}
    assert(is_longest_common_prefix(previous, next, previous.len() as int));
    lemma_common_prefix_unique(previous, next, previous.len() as int);
    let empty = Seq::<char>::empty();
    assert(previous.skip(previous.len() as int) =~= empty);
    assert(next.skip(previous.len() as int) =~= appended);
    lemma_common_prefix_len(empty.reverse(), appended.reverse());
}

/// A snapshot counts as submitted by the user when it ends with a newline
/// and the last physical input since the session began was a Return key.
pub open spec fn submitted(full_text: Seq<char>, session_epoch: u64, current_epoch: u64, last_event_was_return: bool) -> bool {
    &&& full_text.len() > 0
    &&& full_text.last() == '\n'
    &&& current_epoch != session_epoch
    &&& last_event_was_return
}

pub fn is_submitted_candidate(
    full_text: &str,
    session_input_epoch: u64,
    current_input_epoch: u64,
    last_event_was_return: bool,
) -> (candidate: bool)
    ensures
        candidate == submitted(full_text@, session_input_epoch, current_input_epoch, last_event_was_return),
{
    let chars = chars_of(full_text);
    chars.len() > 0 && chars[chars.len() - 1] == '\n' && current_input_epoch != session_input_epoch
        && last_event_was_return
}

/// A session the injector finished, kept to answer replays.
#[derive(Debug, Clone, PartialEq, Eq)]
pub struct CompletedSession {
    pub id: String,
    pub sequence: i64,
    pub text: String,
}

pub open spec fn completed_apply(
    completed: Option<CompletedSession>,
    session_id: Seq<char>,
    sequence: i64,
    full_text: Seq<char>,
) -> Option<InjectorResponse> {
    match completed {
        Some(finished) => if finished.id@ != session_id {
            None
        } else if finished.sequence == sequence && finished.text@ == full_text {
            Some(InjectorResponse::Finished { sequence })
        } else {
            Some(InjectorResponse::InvalidRequest)
        },
        None => None,
    }
}

/// Answers an `ApplyState` for a session the injector already finished: the
/// exact final snapshot is acknowledged as finished, anything else refused.
pub fn completed_apply_response(
    completed: Option<&CompletedSession>,
    session_id: &str,
    sequence: i64,
    full_text: &str,
) -> (response: Option<InjectorResponse>)
    ensures
        response == completed_apply(
            match completed {
                Some(c) => Some(*c),
                None => None,
            },
            session_id@,
            sequence,
            full_text@,
        ),
{
    match completed {
        Some(finished) => {
            if !str_equal(finished.id.as_str(), session_id) {
                None
            } else if finished.sequence == sequence && str_equal(finished.text.as_str(), full_text) {
                Some(InjectorResponse::Finished { sequence })
            } else {
                Some(InjectorResponse::InvalidRequest)
            }
        },
        None => None,
    }
}

#[derive(Debug, Clone, Copy, PartialEq, Eq, Structural)]
pub enum SessionReplacement {
    Start,
    Replace,
    Reject,
}

pub open spec fn session_replacement(active: Option<Seq<char>>, replaces: Option<Seq<char>>) -> SessionReplacement {
    match active {
        None => SessionReplacement::Start,
        Some(id) => if replaces == Some(id) {
            SessionReplacement::Replace
        } else {
            SessionReplacement::Reject
        },
    }
}

/// A new session may start when none is active, may replace the active one
/// only by naming it, and is refused otherwise.
pub fn classify_session_replacement(
    active_session_id: Option<&str>,
    replaces_session_id: Option<&str>,
) -> (decision: SessionReplacement)
    ensures
        decision == session_replacement(
            match active_session_id {
                Some(s) => Some(s@),
                None => None,
            },
            match replaces_session_id {
                Some(s) => Some(s@),
                None => None,
            },
        ),
{
    match active_session_id {
        None => SessionReplacement::Start,
        Some(active) => match replaces_session_id {
            Some(replaces) => if str_equal(replaces, active) {
                SessionReplacement::Replace
            } else {
                SessionReplacement::Reject
            },
            None => SessionReplacement::Reject,
        },
    }
}

/// Remote desktop clients host another machine's input; they are no text
/// target.
pub open spec fn is_remote_desktop_name(name: Seq<char>) -> bool {
    let lower = ascii_lowercase(name);
    ||| lower == ascii_lowercase("mstsc.exe"@)
    ||| lower == ascii_lowercase("msrdc.exe"@)
    ||| lower == ascii_lowercase("rdclient.exe"@)
    ||| lower == ascii_lowercase("windows365.exe"@)
}

pub fn is_remote_desktop_process_name(name: &str) -> (remote: bool)
    ensures
        remote == is_remote_desktop_name(name@),
{
    eq_ignore_ascii_case(name, "mstsc.exe") || eq_ignore_ascii_case(name, "msrdc.exe")
        || eq_ignore_ascii_case(name, "rdclient.exe") || eq_ignore_ascii_case(name, "windows365.exe")
}

} // verus!

verus! {

pub const WM_KEYDOWN: u32 = 0x0100;
pub const WM_SYSKEYDOWN: u32 = 0x0104;
pub const WM_MOUSEMOVE: u32 = 0x0200;
pub const WM_LBUTTONDOWN: u32 = 0x0201;
pub const WM_LBUTTONDBLCLK: u32 = 0x0203;
pub const WM_RBUTTONDOWN: u32 = 0x0204;
pub const WM_RBUTTONDBLCLK: u32 = 0x0206;
pub const WM_MBUTTONDOWN: u32 = 0x0207;
pub const WM_MBUTTONDBLCLK: u32 = 0x0209;
pub const WM_MOUSEWHEEL: u32 = 0x020A;
pub const WM_XBUTTONDOWN: u32 = 0x020B;
pub const WM_XBUTTONDBLCLK: u32 = 0x020D;
pub const WM_MOUSEHWHEEL: u32 = 0x020E;
/// `LLKHF_INJECTED`: the keyboard event was synthesised.
pub const LLKHF_INJECTED: u32 = 0x10;
/// `LLMHF_INJECTED`: the mouse event was synthesised.
pub const LLMHF_INJECTED: u32 = 0x01;
pub const VK_RETURN: u32 = 0x0d;

pub open spec fn physical_keyboard(message: u32, flags: u32) -> bool {
    (message == WM_KEYDOWN || message == WM_SYSKEYDOWN) && flags & LLKHF_INJECTED == 0
}

pub open spec fn is_mouse_action(message: u32) -> bool {
    ||| message == WM_LBUTTONDOWN
    ||| message == WM_LBUTTONDBLCLK
    ||| message == WM_RBUTTONDOWN
    ||| message == WM_RBUTTONDBLCLK
    ||| message == WM_MBUTTONDOWN
    ||| message == WM_MBUTTONDBLCLK
    ||| message == WM_XBUTTONDOWN
    ||| message == WM_XBUTTONDBLCLK
    ||| message == WM_MOUSEWHEEL
    ||| message == WM_MOUSEHWHEEL
}

pub open spec fn physical_mouse(message: u32, flags: u32) -> bool {
    is_mouse_action(message) && flags & LLMHF_INJECTED == 0
}

/// A key press the user made, not one an application synthesised.
pub fn is_physical_keyboard_event(message: u32, flags: u32) -> (physical: bool)
    ensures
        physical == physical_keyboard(message, flags),
{
    (message == WM_KEYDOWN || message == WM_SYSKEYDOWN) && flags & LLKHF_INJECTED == 0
}

/// A click or wheel turn the user made; pointer movement does not count.
pub fn is_physical_mouse_event(message: u32, flags: u32) -> (physical: bool)
    ensures
        physical == physical_mouse(message, flags),
{
    (message == WM_LBUTTONDOWN || message == WM_LBUTTONDBLCLK || message == WM_RBUTTONDOWN
        || message == WM_RBUTTONDBLCLK || message == WM_MBUTTONDOWN || message
        == WM_MBUTTONDBLCLK || message == WM_XBUTTONDOWN || message == WM_XBUTTONDBLCLK
        || message == WM_MOUSEWHEEL || message == WM_MOUSEHWHEEL) && flags & LLMHF_INJECTED
        == 0
}

/// Counts the user's physical input while a session is active: every
/// physical key press or click moves the epoch; the last-Return mark holds
/// the epoch of a Return key press, or 0 after any other input.
#[derive(Debug, Clone, Copy, PartialEq, Eq, Structural)]
pub struct InputClock {
    pub epoch: u64,
    pub last_return_epoch: u64,
}

pub open spec fn next_epoch(epoch: u64) -> u64 {
    if epoch == u64::MAX {
        0
    } else {
        (epoch + 1) as u64
    }
}

pub open spec fn keyboard_step(clock: InputClock, message: u32, flags: u32, virtual_key: u32) -> InputClock {
    if physical_keyboard(message, flags) {
        InputClock {
            epoch: next_epoch(clock.epoch),
            last_return_epoch: if virtual_key == VK_RETURN {
                next_epoch(clock.epoch)
            } else {
                0
            },
        }
    } else {
        clock
    }
}

pub open spec fn mouse_step(clock: InputClock, message: u32, flags: u32) -> InputClock {
    if physical_mouse(message, flags) {
        InputClock { epoch: next_epoch(clock.epoch), last_return_epoch: 0 }
    } else {
        clock
    }
}

pub open spec fn was_return(clock: InputClock) -> bool {
    clock.last_return_epoch == clock.epoch && clock.last_return_epoch != 0
}

impl InputClock {
    pub fn new() -> (clock: Self)
        ensures
            clock.epoch == 0,
            clock.last_return_epoch == 0,
    {
        InputClock { epoch: 0, last_return_epoch: 0 }
    }

    /// Records a keyboard hook event.
    pub fn record_keyboard(&mut self, message: u32, flags: u32, virtual_key: u32)
        ensures
            *final(self) == keyboard_step(*old(self), message, flags, virtual_key),
    {
        if is_physical_keyboard_event(message, flags) {
            let epoch = self.epoch.wrapping_add(1);
            self.epoch = epoch;
            self.last_return_epoch = if virtual_key == VK_RETURN {
                epoch
            } else {
                0
            };
        }
    }

    /// Records a mouse hook event.
    pub fn record_mouse(&mut self, message: u32, flags: u32)
        ensures
            *final(self) == mouse_step(*old(self), message, flags),
    {
        if is_physical_mouse_event(message, flags) {
            self.epoch = self.epoch.wrapping_add(1);
            self.last_return_epoch = 0;
        }
    }

    pub fn epoch(&self) -> (epoch: u64)
        ensures
            epoch == self.epoch,
    {
        self.epoch
    }

    /// Whether the latest physical input was a Return key press.
    pub fn last_event_was_return(&self) -> (returned: bool)
        ensures
            returned == was_return(*self),
    {
        self.last_return_epoch == self.epoch && self.last_return_epoch != 0
    }
}

/// A physical Return key press is reported as the last event, and any later
/// physical click or other key press clears that report; injected input
/// changes nothing.
pub proof fn law_return_is_the_last_event(
    clock: InputClock,
    key_flags: u32,
    other_key: u32,
    click: u32,
    click_flags: u32,
    injected_message: u32,
)
    requires
        clock.epoch < u64::MAX - 1,
        physical_keyboard(WM_KEYDOWN, key_flags),
        other_key != VK_RETURN,
        physical_mouse(click, click_flags),
    ensures
        was_return(keyboard_step(clock, WM_KEYDOWN, key_flags, VK_RETURN)),
        !was_return(mouse_step(keyboard_step(clock, WM_KEYDOWN, key_flags, VK_RETURN), click, click_flags)),
        !was_return(keyboard_step(keyboard_step(clock, WM_KEYDOWN, key_flags, VK_RETURN), WM_KEYDOWN, key_flags, other_key)),
        keyboard_step(clock, injected_message, LLKHF_INJECTED, VK_RETURN) == clock,
        mouse_step(clock, injected_message, LLMHF_INJECTED) == clock,
{
    assert(LLKHF_INJECTED & LLKHF_INJECTED != 0) by (bit_vector);
    assert(LLMHF_INJECTED & LLMHF_INJECTED != 0) by (bit_vector);
}

/// The session the injector currently drives.
#[derive(Debug, Clone, PartialEq, Eq)]
pub struct ActiveSession {
    pub id: String,
    pub sequence: i64,
    pub text: String,
    pub input_epoch: u64,
}

/// What the injector does with an `ApplyState` before asking the text
/// service.
#[derive(Debug, Clone, PartialEq, Eq)]
pub enum ApplyStep {
    /// Answer at once; the session stays.
    Respond(InjectorResponse),
    /// End the session (cancelling its composition), then answer.
    EndSessionAndRespond(InjectorResponse),
    /// The target lost the foreground; answer with its title.
    TargetNotForeground,
    /// Send the snapshot to the text service.
    SendUpdate,
}

pub open spec fn apply_precheck_spec(
    active: Option<ActiveSession>,
    session_id: Seq<char>,
    sequence: i64,
    full_text: Seq<char>,
    target_valid: bool,
    current_epoch: u64,
    target_foreground: bool,
) -> ApplyStep {
    match active {
        Some(a) => if a.id@ != session_id {
            ApplyStep::Respond(InjectorResponse::InvalidRequest)
        } else if !target_valid {
            ApplyStep::Respond(InjectorResponse::TargetInvalid)
        } else if a.input_epoch != current_epoch {
            ApplyStep::EndSessionAndRespond(InjectorResponse::TargetModified)
        } else if !target_foreground {
            ApplyStep::TargetNotForeground
        } else if sequence < a.sequence {
            ApplyStep::Respond(InjectorResponse::Applied { sequence: a.sequence })
        } else if sequence == a.sequence {
            if full_text == a.text@ {
                ApplyStep::Respond(InjectorResponse::Applied { sequence })
            } else {
                ApplyStep::EndSessionAndRespond(InjectorResponse::InvalidRequest)
            }
        } else {
            ApplyStep::SendUpdate
        },
        None => ApplyStep::Respond(InjectorResponse::InvalidRequest),
    }
}

/// Decides an `ApplyState` for the active session from what the injector
/// observes of the target: whether its window is still valid, the current
/// physical-input epoch, and whether it is in the foreground.
pub fn apply_precheck(
    active: Option<&ActiveSession>,
    session_id: &str,
    sequence: i64,
    full_text: &str,
    target_valid: bool,
    current_epoch: u64,
    target_foreground: bool,
) -> (step: ApplyStep)
    ensures
        step == apply_precheck_spec(
            match active {
                Some(a) => Some(*a),
                None => None,
            },
            session_id@,
            sequence,
            full_text@,
            target_valid,
            current_epoch,
            target_foreground,
        ),
{
    let active = match active {
        Some(a) => a,
        None => return ApplyStep::Respond(InjectorResponse::InvalidRequest),
    };
    if !str_equal(active.id.as_str(), session_id) {
        return ApplyStep::Respond(InjectorResponse::InvalidRequest);
    }
    if !target_valid {
        return ApplyStep::Respond(InjectorResponse::TargetInvalid);
    }
    if active.input_epoch != current_epoch {
        return ApplyStep::EndSessionAndRespond(InjectorResponse::TargetModified);
    }
    if !target_foreground {
        return ApplyStep::TargetNotForeground;
    }
    if sequence < active.sequence {
        return ApplyStep::Respond(InjectorResponse::Applied { sequence: active.sequence });
    }
    if sequence == active.sequence {
        return if str_equal(full_text, active.text.as_str()) {
            ApplyStep::Respond(InjectorResponse::Applied { sequence })
        } else {
            ApplyStep::EndSessionAndRespond(InjectorResponse::InvalidRequest)
        };
    }
    ApplyStep::SendUpdate
}

/// How an update ended once the text service answered.
#[derive(Debug, Clone, PartialEq, Eq)]
pub enum ApplyOutcome {
    /// The text service applied `sequence`; when `record` holds, it is the
    /// requested snapshot and becomes the session's applied state.
    Applied { sequence: i64, record: bool },
    /// The target has no text focus; answer with its title.
    TargetNotForeground,
    EndSessionAndRespond(InjectorResponse),
}

pub open spec fn apply_outcome_spec(session_id: Seq<char>, sequence: i64, response: Option<TipResponse>) -> ApplyOutcome {
    match response {
        Some(TipResponse::Applied { session_id: applied, sequence: applied_sequence }) => if applied@
            == session_id {
            ApplyOutcome::Applied { sequence: applied_sequence, record: applied_sequence == sequence }
        } else {
            ApplyOutcome::EndSessionAndRespond(InjectorResponse::InjectionUnknown)
        },
        Some(TipResponse::NoFocus) => ApplyOutcome::TargetNotForeground,
        Some(TipResponse::CompositionTerminated) => ApplyOutcome::EndSessionAndRespond(
            InjectorResponse::TargetModified,
        ),
        Some(TipResponse::SessionMismatch) => ApplyOutcome::EndSessionAndRespond(
            InjectorResponse::InvalidRequest,
        ),
        Some(TipResponse::SequenceConflict) => ApplyOutcome::EndSessionAndRespond(
            InjectorResponse::InvalidRequest,
        ),
        _ => ApplyOutcome::EndSessionAndRespond(InjectorResponse::InjectionUnknown),
    }
}

/// Interprets the text service's answer to an update; `None` stands for a
/// pipe failure or timeout.
pub fn apply_outcome(session_id: &str, sequence: i64, response: Option<&TipResponse>) -> (outcome: ApplyOutcome)
    ensures
        outcome == apply_outcome_spec(
            session_id@,
            sequence,
            match response {
                Some(r) => Some(*r),
                None => None,
            },
        ),
{
    match response {
        Some(TipResponse::Applied { session_id: applied, sequence: applied_sequence }) => {
            if str_equal(applied.as_str(), session_id) {
                ApplyOutcome::Applied {
                    sequence: *applied_sequence,
                    record: *applied_sequence == sequence,
                }
            } else {
                ApplyOutcome::EndSessionAndRespond(InjectorResponse::InjectionUnknown)
            }
        },
        Some(TipResponse::NoFocus) => ApplyOutcome::TargetNotForeground,
        Some(TipResponse::CompositionTerminated) => ApplyOutcome::EndSessionAndRespond(
            InjectorResponse::TargetModified,
        ),
        Some(TipResponse::SessionMismatch) => ApplyOutcome::EndSessionAndRespond(
            InjectorResponse::InvalidRequest,
        ),
        Some(TipResponse::SequenceConflict) => ApplyOutcome::EndSessionAndRespond(
            InjectorResponse::InvalidRequest,
        ),
        _ => ApplyOutcome::EndSessionAndRespond(InjectorResponse::InjectionUnknown),
    }
}

pub open spec fn finish_allowed(active: Option<ActiveSession>, session_id: Seq<char>, sequence: i64) -> bool {
    match active {
        Some(a) => a.id@ == session_id && a.sequence == sequence,
        None => false,
    }
}

/// A session is finished only at its applied sequence; otherwise the
/// request is invalid.
pub fn finish_precheck(active: Option<&ActiveSession>, session_id: &str, sequence: i64) -> (allowed: bool)
    ensures
        allowed == finish_allowed(
            match active {
                Some(a) => Some(*a),
                None => None,
            },
            session_id@,
            sequence,
        ),
{
    match active {
        Some(a) => str_equal(a.id.as_str(), session_id) && a.sequence == sequence,
        None => false,
    }
}

pub open spec fn finish_outcome_spec(session_id: Seq<char>, sequence: i64, response: Option<TipResponse>) -> InjectorResponse {
    match response {
        Some(TipResponse::Finished { session_id: finished, sequence: finished_sequence }) => if finished@
            == session_id && finished_sequence == sequence {
            InjectorResponse::Finished { sequence }
        } else {
            InjectorResponse::InjectionUnknown
        },
        Some(TipResponse::SessionMismatch) => InjectorResponse::InvalidRequest,
        Some(TipResponse::SequenceConflict) => InjectorResponse::InvalidRequest,
        _ => InjectorResponse::InjectionUnknown,
    }
}

/// Interprets the text service's answer to finishing; only `Finished` keeps
/// the result as a completed session, every other answer ends the session
/// as failed.
pub fn finish_outcome(session_id: &str, sequence: i64, response: Option<&TipResponse>) -> (reply: InjectorResponse)
    ensures
        reply == finish_outcome_spec(
            session_id@,
            sequence,
            match response {
                Some(r) => Some(*r),
                None => None,
            },
        ),
{
    match response {
        Some(TipResponse::Finished { session_id: finished, sequence: finished_sequence }) => {
            if str_equal(finished.as_str(), session_id) && *finished_sequence == sequence {
                InjectorResponse::Finished { sequence }
            } else {
                InjectorResponse::InjectionUnknown
            }
        },
        Some(TipResponse::SessionMismatch) => InjectorResponse::InvalidRequest,
        Some(TipResponse::SequenceConflict) => InjectorResponse::InvalidRequest,
        _ => InjectorResponse::InjectionUnknown,
    }
}

/// The reply to a session whose target was changed by the user: submitted
/// when the last snapshot ended with a newline and the user then pressed
/// Return, modified otherwise.
pub open spec fn ended_by_user(full_text: Seq<char>, session_epoch: u64, current_epoch: u64, last_event_was_return: bool) -> InjectorResponse {
    if submitted(full_text, session_epoch, current_epoch, last_event_was_return) {
        InjectorResponse::TargetSubmitted
    } else {
        InjectorResponse::TargetModified
    }
}

pub fn user_ended_response(
    full_text: &str,
    session_epoch: u64,
    current_epoch: u64,
    last_event_was_return: bool,
) -> (reply: InjectorResponse)
    ensures
        reply == ended_by_user(full_text@, session_epoch, current_epoch, last_event_was_return),
{
    if is_submitted_candidate(full_text, session_epoch, current_epoch, last_event_was_return) {
        InjectorResponse::TargetSubmitted
    } else {
        InjectorResponse::TargetModified
    }
}

/// What a session query concludes.
#[derive(Debug, Clone, PartialEq, Eq)]
pub enum QueryOutcome {
    /// The session is still live; answer with its applied snapshot.
    StillActive,
    /// End the session, then answer.
    EndSessionAndRespond(InjectorResponse),
}

pub open spec fn query_precheck_spec(
    full_text: Seq<char>,
    session_epoch: u64,
    current_epoch: u64,
    last_event_was_return: bool,
) -> Option<QueryOutcome> {
    if session_epoch != current_epoch {
        Some(
            QueryOutcome::EndSessionAndRespond(
                ended_by_user(full_text, session_epoch, current_epoch, last_event_was_return),
            ),
        )
    } else {
        None
    }
}

/// Before asking the text service: physical input since the session began
/// ends it. `None` means the session is untouched so far.
pub fn query_precheck(
    full_text: &str,
    session_epoch: u64,
    current_epoch: u64,
    last_event_was_return: bool,
) -> (outcome: Option<QueryOutcome>)
    ensures
        outcome == query_precheck_spec(full_text@, session_epoch, current_epoch, last_event_was_return),
{
    if session_epoch != current_epoch {
        Some(
            QueryOutcome::EndSessionAndRespond(
                user_ended_response(full_text, session_epoch, current_epoch, last_event_was_return),
            ),
        )
    } else {
        None
    }
}

pub open spec fn query_outcome_spec(
    full_text: Seq<char>,
    session_epoch: u64,
    current_epoch: u64,
    last_event_was_return: bool,
    response: Option<TipResponse>,
) -> QueryOutcome {
    match response {
        Some(TipResponse::SessionActive { .. }) => QueryOutcome::StillActive,
        Some(TipResponse::CompositionTerminated) => QueryOutcome::EndSessionAndRespond(
            ended_by_user(full_text, session_epoch, current_epoch, last_event_was_return),
        ),
        _ => QueryOutcome::EndSessionAndRespond(InjectorResponse::TargetModified),
    }
}

/// Interprets the text service's answer to a session query.
pub fn query_outcome(
    full_text: &str,
    session_epoch: u64,
    current_epoch: u64,
    last_event_was_return: bool,
    response: Option<&TipResponse>,
) -> (outcome: QueryOutcome)
    ensures
        outcome == query_outcome_spec(
            full_text@,
            session_epoch,
            current_epoch,
            last_event_was_return,
            match response {
                Some(r) => Some(*r),
                None => None,
            },
        ),
{
    match response {
        Some(TipResponse::SessionActive { .. }) => QueryOutcome::StillActive,
        Some(TipResponse::CompositionTerminated) => QueryOutcome::EndSessionAndRespond(
            user_ended_response(full_text, session_epoch, current_epoch, last_event_was_return),
        ),
        _ => QueryOutcome::EndSessionAndRespond(InjectorResponse::TargetModified),
    }
}

/// What the injector keeps between requests: the session it drives, and
/// the last session it finished (kept to answer replays).
#[derive(Debug, Clone, PartialEq, Eq)]
pub struct InjectorSessions {
    pub active: Option<ActiveSession>,
    pub completed: Option<CompletedSession>,
}

pub open spec fn is_active_id(active: Option<ActiveSession>, session_id: Seq<char>) -> bool {
    active matches Some(a) && a.id@ == session_id
}

/// The answer to a query of a session that is not the active one: the
/// final snapshot of the completed session of that id, or `SessionMissing`.
pub open spec fn is_inactive_reply(reply: InjectorResponse, completed: Option<CompletedSession>, session_id: Seq<char>) -> bool {
    match completed {
        Some(c) => if c.id@ == session_id {
            reply matches InjectorResponse::SessionFinished { session_id: id, sequence, full_text } && id@
                == session_id && sequence == c.sequence && full_text@ == c.text@
        } else {
            reply == InjectorResponse::SessionMissing
        },
        None => reply == InjectorResponse::SessionMissing,
    }
}

pub open spec fn active_id_of(active: Option<ActiveSession>) -> Option<Seq<char>> {
    match active {
        Some(a) => Some(a.id@),
        None => None,
    }
}

/// What the injector does with a request, decided from the sessions it
/// keeps, before it looks at the target or asks the text service.
#[derive(Debug, Clone, PartialEq, Eq)]
pub enum Dispatch {
    /// Answer with the injector's handshake.
    Hello,
    /// Answer at once.
    Respond(InjectorResponse),
    /// Begin a session as the step says.
    Begin(BeginStep),
    /// Apply the snapshot to the active session (`apply_precheck` next).
    ApplyToActive,
    /// Ask the text service to finish the active session.
    FinishActive,
    /// Ask about the active session (`query_precheck` next).
    QueryActive,
    /// Look at the foreground target.
    ProbeTarget,
    /// Tell the text service to cancel this session's composition, then
    /// answer `Cancelled`.
    CancelComposition(ActiveSession),
}

impl InjectorSessions {
    /// No session yet.
    pub fn new() -> (sessions: Self)
        ensures
            sessions.active is None,
            sessions.completed is None,
    {
        InjectorSessions { active: None, completed: None }
    }

    /// A session the text service began becomes the active one, and the
    /// finished session is forgotten.
    pub fn begin_accepted(&mut self, session: ActiveSession)
        ensures
            final(self).active == Some(session),
            final(self).completed is None,
    {
        self.completed = None;
        self.active = Some(session);
    }

    /// Ends the active session (a failed or a replaced one) and gives it
    /// back, so that its composition can be cancelled.
    pub fn end_active(&mut self) -> (ended: Option<ActiveSession>)
        ensures
            ended == old(self).active,
            final(self).active is None,
            final(self).completed == old(self).completed,
    {
        self.active.take()
    }

    /// Records how a `FinishSession` ended, given the reply it got. When the
    /// active session matched the request, the text service was asked and
    /// the session ends; a `Finished` reply keeps it as the completed
    /// session with its last text. Otherwise nothing changes.
    pub fn finish_answered(&mut self, session_id: &str, sequence: i64, reply: &InjectorResponse)
        ensures
            !finish_allowed(old(self).active, session_id@, sequence) ==> *final(self) == *old(self),
            finish_allowed(old(self).active, session_id@, sequence) ==> {
                &&& final(self).active is None
                &&& match *reply {
                    InjectorResponse::Finished { sequence: s } => final(self).completed matches Some(c) && c.id@
                        == session_id@ && c.sequence == s && c.text@ == old(self).active->Some_0.text@,
                    _ => final(self).completed == old(self).completed,
                }
            },
    {
        let allowed = finish_precheck(self.active.as_ref(), session_id, sequence);
        if !allowed {
            return;
        }
        let ended = self.active.take();
        if let InjectorResponse::Finished { sequence: finished } = reply {
            if let Some(session) = ended {
                self.completed = Some(CompletedSession { id: session_id.to_owned(), sequence: *finished, text: session.text });
            }
        }
    }

    /// `CancelInvalidSession`: the active session of that id is dropped and
    /// given back, so that its composition can be cancelled; the reply is
    /// always `Cancelled`.
    pub fn cancel_invalid(&mut self, session_id: &str) -> (result: (InjectorResponse, Option<ActiveSession>))
        ensures
            result.0 == InjectorResponse::Cancelled,
            is_active_id(old(self).active, session_id@) ==> result.1 == old(self).active && final(self).active is None,
            !is_active_id(old(self).active, session_id@) ==> result.1 is None && final(self).active == old(self).active,
            final(self).completed == old(self).completed,
    {
        let matches = match &self.active {
            Some(active) => str_equal(active.id.as_str(), session_id),
            None => false,
        };
        if matches {
            (InjectorResponse::Cancelled, self.active.take())
        } else {
            (InjectorResponse::Cancelled, None)
        }
    }

    /// `QuerySession` for a session that is not the active one: the final
    /// snapshot of the completed session of that id, or `SessionMissing`.
    /// `None` when the session is the active one, which the text service is
    /// asked about.
    pub fn query_inactive(&self, session_id: &str) -> (reply: Option<InjectorResponse>)
        ensures
            is_active_id(self.active, session_id@) ==> reply is None,
            !is_active_id(self.active, session_id@) ==> (reply matches Some(r) && is_inactive_reply(
                r,
                self.completed,
                session_id@,
            )),
    {
        if let Some(active) = &self.active {
            if str_equal(active.id.as_str(), session_id) {
                return None;
            }
        }
        match &self.completed {
            Some(finished) => {
                if str_equal(finished.id.as_str(), session_id) {
                    Some(
                        InjectorResponse::SessionFinished {
                            session_id: session_id.to_owned(),
                            sequence: finished.sequence,
                            full_text: finished.text.clone(),
                        },
                    )
                } else {
                    Some(InjectorResponse::SessionMissing)
                }
            },
            None => Some(InjectorResponse::SessionMissing),
        }
    }

    /// Decides a request. A finished session is consulted before the
    /// active one for `ApplyState`, so a replay of the final snapshot is
    /// acknowledged; `CancelInvalidSession` drops the matching active
    /// session. No other request changes the sessions here.
    pub fn dispatch(&mut self, request: &InjectorRequest) -> (action: Dispatch)
        ensures
            match *request {
                InjectorRequest::Hello => action == Dispatch::Hello && *final(self) == *old(self),
                InjectorRequest::BeginSession { session_id } => action == Dispatch::Begin(
                    begin_precheck_spec(active_id_of(old(self).active), old(self).completed, session_id@, None),
                ) && *final(self) == *old(self),
                InjectorRequest::ApplyState { session_id, sequence, full_text } => *final(self) == *old(self)
                    && match completed_apply(old(self).completed, session_id@, sequence, full_text@) {
                    Some(r) => action == Dispatch::Respond(r),
                    None => action == Dispatch::ApplyToActive,
                },
                InjectorRequest::FinishSession { session_id, sequence } => *final(self) == *old(self) && action
                    == if finish_allowed(old(self).active, session_id@, sequence) {
                    Dispatch::FinishActive
                } else {
                    Dispatch::Respond(InjectorResponse::InvalidRequest)
                },
                InjectorRequest::QuerySession { session_id } => *final(self) == *old(self) && if is_active_id(
                    old(self).active,
                    session_id@,
                ) {
                    action == Dispatch::QueryActive
                } else {
                    (action matches Dispatch::Respond(r) && is_inactive_reply(r, old(self).completed, session_id@))
                },
                InjectorRequest::ProbeTarget => action == Dispatch::ProbeTarget && *final(self) == *old(self),
                InjectorRequest::CancelInvalidSession { session_id } => final(self).completed == old(
                    self,
                ).completed && if is_active_id(old(self).active, session_id@) {
                    action == Dispatch::CancelComposition(old(self).active->Some_0) && final(self).active is None
                } else {
                    action == Dispatch::Respond(InjectorResponse::Cancelled) && final(self).active == old(
                        self,
                    ).active
                },
            },
    {
        match request {
            InjectorRequest::Hello => Dispatch::Hello,
            InjectorRequest::BeginSession { session_id } => {
                let active_id = match &self.active {
                    Some(active) => Some(active.id.as_str()),
                    None => None,
                };
                Dispatch::Begin(begin_precheck(active_id, self.completed.as_ref(), session_id.as_str(), None))
            },
            InjectorRequest::ApplyState { session_id, sequence, full_text } => {
                match completed_apply_response(self.completed.as_ref(), session_id.as_str(), *sequence, full_text.as_str()) {
                    Some(reply) => Dispatch::Respond(reply),
                    None => Dispatch::ApplyToActive,
                }
            },
            InjectorRequest::FinishSession { session_id, sequence } => {
                if finish_precheck(self.active.as_ref(), session_id.as_str(), *sequence) {
                    Dispatch::FinishActive
                } else {
                    Dispatch::Respond(InjectorResponse::InvalidRequest)
                }
            },
            InjectorRequest::QuerySession { session_id } => {
                match self.query_inactive(session_id.as_str()) {
                    Some(reply) => Dispatch::Respond(reply),
                    None => Dispatch::QueryActive,
                }
            },
            InjectorRequest::ProbeTarget => Dispatch::ProbeTarget,
            InjectorRequest::CancelInvalidSession { session_id } => {
                let (reply, dropped) = self.cancel_invalid(session_id.as_str());
                match dropped {
                    Some(session) => Dispatch::CancelComposition(session),
                    None => Dispatch::Respond(reply),
                }
            },
        }
    }
}

/// Only a strictly newer snapshot of the active session is sent to the text
/// service. For the active session with a valid foreground target and no
/// physical input since it began, an older snapshot is answered `Applied`
/// with the session's own sequence, and `SendUpdate` comes exactly when the
/// snapshot is newer.
pub proof fn law_only_newer_snapshots_are_sent(
    active: Option<ActiveSession>,
    session_id: Seq<char>,
    sequence: i64,
    full_text: Seq<char>,
    target_valid: bool,
    current_epoch: u64,
    target_foreground: bool,
)
    ensures
        apply_precheck_spec(active, session_id, sequence, full_text, target_valid, current_epoch, target_foreground)
            == ApplyStep::SendUpdate ==> (active matches Some(a) && a.id@ == session_id && sequence > a.sequence
            && target_valid && target_foreground && a.input_epoch == current_epoch),
        (active matches Some(a) && a.id@ == session_id && a.input_epoch == current_epoch && target_valid
            && target_foreground) ==> {
            &&& (apply_precheck_spec(active, session_id, sequence, full_text, true, current_epoch, true)
                == ApplyStep::SendUpdate <==> sequence > active->Some_0.sequence)
            &&& (sequence < active->Some_0.sequence ==> apply_precheck_spec(
                active,
                session_id,
                sequence,
                full_text,
                true,
                current_epoch,
                true,
            ) == ApplyStep::Respond(InjectorResponse::Applied { sequence: active->Some_0.sequence }))
        },
{
}

} // verus!
