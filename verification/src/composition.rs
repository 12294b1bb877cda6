//! The text service's view of its composition: which edits it made itself,
//! when the user's own edits end syncing, how an existing suffix is matched
//! so a composition can take it over, and when the module may unload.
use vstd::prelude::*;

use crate::tip::TipResponse;

verus! {

/// An edit the text service performs in an edit session.
#[derive(Debug, Clone, PartialEq, Eq)]
pub enum EditAction {
    /// Start a composition, holding `initial_text`; with `attach_existing`
    /// the text may already stand before the caret and is taken over.
    Begin { initial_text: String, attach_existing: bool },
    /// Replace the composition's text.
    Update(String),
    /// End the composition at the phone's request.
    Finish,
    /// End the composition after an edit on the computer.
    ForceFinish,
}

/// Why a composition is ended.
#[derive(Debug, Clone, Copy, PartialEq, Eq, Structural)]
pub enum FinishCause {
    Phone,
    Forced,
}

impl FinishCause {
    /// Only the phone's finish checks that the target still holds exactly the
    /// synced text; a forced finish ends a composition that no longer does.
    pub fn validates_snapshot(self) -> (validates: bool)
        ensures
            validates == (self == FinishCause::Phone),
    {
        self == FinishCause::Phone
    }
}

/// The edit action a finish cause is carried out by.
pub fn finish_action(cause: FinishCause) -> (action: EditAction)
    ensures
        action == match cause {
            FinishCause::Phone => EditAction::Finish,
            FinishCause::Forced => EditAction::ForceFinish,
        },
{
    match cause {
        FinishCause::Phone => EditAction::Finish,
        FinishCause::Forced => EditAction::ForceFinish,
    }
}

/// Whether the first `actual_len` units read back from the target are
/// exactly the expected text.
pub open spec fn utf16_matches(expected: Seq<u16>, actual: Seq<u16>, actual_len: int) -> bool {
    actual_len == expected.len() && actual_len <= actual.len() && actual.subrange(0, actual_len) == expected
}

pub fn utf16_text_matches(expected: &[u16], actual: &[u16], actual_len: usize) -> (matches: bool)
    ensures
        matches == utf16_matches(expected@, actual@, actual_len as int),
{
    if actual_len != expected.len() || actual_len > actual.len() {
        return false;
    }
    let mut index: usize = 0;
    while index < actual_len
        invariant
            actual_len == expected@.len(),
            actual_len <= actual@.len(),
            index <= actual_len,
            forall|i: int| 0 <= i < index ==> actual@[i] == expected@[i],
        decreases actual_len - index,
    {
        if actual[index] != expected[index] {
            proof {
                assert(actual@.subrange(0, actual_len as int)[index as int] != expected@[index as int]);
            }
            return false;
        }
        index += 1;
    }
    proof {
        assert(actual@.subrange(0, actual_len as int) =~= expected@);
    }
    true
}

/// The UTF-16 code units of one character.
pub open spec fn utf16_units(c: char) -> Seq<u16> {
    let v = (c as u32) as int;
    if v < 0x10000 {
        seq![v as u16]
    } else {
        seq![(0xD800 + (v - 0x10000) / 1024) as u16, (0xDC00 + (v - 0x10000) % 1024) as u16]
    }
}

/// The UTF-16 encoding of a text, as `str::encode_utf16` yields it.
pub open spec fn utf16_of(text: Seq<char>) -> Seq<u16>
    decreases text.len(),
{
    if text.len() == 0 {
        Seq::empty()
    } else {
        utf16_of(text.drop_last()) + utf16_units(text.last())
    }
}

/// `char::encode_utf16`: the one or two units of a character.
pub fn encode_char_utf16(c: char) -> (units: Vec<u16>)
    ensures
        units@ == utf16_units(c),
{
    let v = c as u32;
    proof {
        vstd::utf8::char_is_scalar(c);
    }
    let mut units: Vec<u16> = Vec::new();
    if v < 0x10000 {
        units.push(v as u16);
        proof {
            assert(units@ =~= seq![((c as u32) as int) as u16]);
        }
    } else {
        let w = v - 0x10000;
        let high = (0xD800 + w / 1024) as u16;
        let low = (0xDC00 + w % 1024) as u16;
        units.push(high);
        units.push(low);
        proof {
            assert(units@ =~= seq![high, low]);
        }
    }
    units
}

/// `str::encode_utf16`, collected.
pub fn encode_utf16(text: &str) -> (units: Vec<u16>)
    ensures
        units@ == utf16_of(text@),
{
    let chars = crate::text::chars_of(text);
    let mut units: Vec<u16> = Vec::new();
    let mut index: usize = 0;
    while index < chars.len()
        invariant
            chars@ == text@,
            index <= chars@.len(),
            units@ == utf16_of(chars@.take(index as int)),
        decreases chars.len() - index,
    {
        let c = chars[index];
        let mut encoded = encode_char_utf16(c);
        units.append(&mut encoded);
        proof {
            assert(chars@.take(index + 1).drop_last() =~= chars@.take(index as int));
            assert(chars@.take(index + 1).last() == c);
            assert(units@ =~= utf16_of(chars@.take(index as int)) + utf16_units(c));
        }
        index += 1;
    }
    proof {
        assert(chars@.take(chars@.len() as int) =~= chars@);
    }
    units
}

/// The byte a Scintilla `SCI_GETCHARAT` result stands for: its low eight
/// bits, so that a sign-extended byte compares as the byte it is.
pub fn scintilla_byte(result: isize) -> (byte: u8)
    ensures
        byte as int == result % 256,
{
    let byte = result as u8;
    assert(byte as int == result % 256) by (bit_vector)
        requires
            byte == result as u8,
    ;
    byte
}

/// Where the text before the caret begins when the caret is collapsed and
/// has at least `length` bytes before it.
pub fn suffix_start(length: usize, caret: usize, anchor: usize) -> (start: Option<usize>)
    ensures
        start == if caret != anchor || caret < length {
            None
        } else {
            Some((caret - length) as usize)
        },
{
    if caret != anchor || caret < length {
        None
    } else {
        Some(caret - length)
    }
}

/// Whether the editor's characters are exactly the expected bytes.
pub fn scintilla_bytes_match(expected: &[u8], actual: &[isize]) -> (matches: bool)
    ensures
        matches == (expected@.len() == actual@.len() && forall|i: int|
            0 <= i < expected@.len() ==> expected@[i] as int == actual@[i] % 256),
{
    if expected.len() != actual.len() {
        return false;
    }
    let mut index: usize = 0;
    while index < expected.len()
        invariant
            expected@.len() == actual@.len(),
            index <= expected@.len(),
            forall|i: int| 0 <= i < index ==> expected@[i] as int == actual@[i] % 256,
        decreases expected.len() - index,
    {
        if scintilla_byte(actual[index]) != expected[index] {
            return false;
        }
        index += 1;
    }
    true
}

/// The range a text of `units` UTF-16 units takes when it ends at the
/// collapsed selection at `anchor`, as start and length; `None` for an
/// empty or oversized text, or one longer than what precedes the anchor.
pub fn suffix_extent(units: usize, anchor: i32) -> (extent: Option<(i32, i32)>)
    ensures
        extent == if units == 0 || units > i32::MAX || (anchor as int) < units {
            None
        } else {
            Some(((anchor - units) as i32, units as i32))
        },
{
    if units == 0 || units > 2147483647 {
        return None;
    }
    let length = units as i32;
    if anchor < length {
        None
    } else {
        Some((anchor - length, length))
    }
}

/// The state of the text service's composition, apart from the COM objects
/// it holds.
#[derive(Debug, Clone, PartialEq, Eq)]
pub struct CompositionTracker {
    pub session_id: Option<String>,
    pub sequence: i64,
    pub text: String,
    /// Whether a composition object is held.
    pub has_composition_object: bool,
    /// Whether an edit session of the service itself is running.
    pub applying_remote_edit: bool,
    pub terminated: bool,
    /// Whether the text was edited on the computer.
    pub target_modified: bool,
}

impl CompositionTracker {
    /// A tracker with no session.
    pub fn new() -> (tracker: Self)
        ensures
            tracker.session_id is None,
            tracker.sequence == 0,
            tracker.text@.len() == 0,
            !tracker.has_composition_object,
            !tracker.applying_remote_edit,
            !tracker.terminated,
            !tracker.target_modified,
    {
        CompositionTracker {
            session_id: None,
            sequence: 0,
            text: String::new(),
            has_composition_object: false,
            applying_remote_edit: false,
            terminated: false,
            target_modified: false,
        }
    }

    /// Starts tracking a session: nothing applied yet, no edit seen.
    pub fn start_session(&mut self, session_id: String)
        ensures
            final(self).session_id == Some(session_id),
            final(self).sequence == 0,
            final(self).text@.len() == 0,
            !final(self).target_modified,
            final(self).has_composition_object == old(self).has_composition_object,
            final(self).applying_remote_edit == old(self).applying_remote_edit,
            final(self).terminated == old(self).terminated,
    {
        self.session_id = Some(session_id);
        self.sequence = 0;
        self.text = String::new();
        self.target_modified = false;
    }

    /// Records the snapshot the composition now shows.
    pub fn applied(&mut self, sequence: i64, text: String)
        ensures
            *final(self) == (CompositionTracker { sequence, text, ..*old(self) }),
    {
        self.sequence = sequence;
        self.text = text;
    }

    /// Forgets everything.
    pub fn clear(&mut self)
        ensures
            final(self).session_id is None,
            final(self).sequence == 0,
            final(self).text@.len() == 0,
            !final(self).has_composition_object,
            !final(self).applying_remote_edit,
            !final(self).terminated,
            !final(self).target_modified,
    {
        *self = CompositionTracker::new();
    }

    /// Whether the composition shows exactly this text.
    pub fn text_matches(&self, text: &str) -> (matches: bool)
        ensures
            matches == (self.text@ == text@),
    {
        crate::text::str_equal(self.text.as_str(), text)
    }

    /// A composition object was started.
    pub fn set_composition(&mut self)
        ensures
            *final(self) == (CompositionTracker { has_composition_object: true, terminated: false, ..*old(self) }),
    {
        self.has_composition_object = true;
        self.terminated = false;
    }

    /// Whether a live composition is held.
    pub fn has_composition(&self) -> (has: bool)
        ensures
            has == (!self.terminated && self.has_composition_object),
    {
        !self.terminated && self.has_composition_object
    }

    /// An edit session of the service begins or ends.
    pub fn set_applying_remote_edit(&mut self, applying: bool)
        ensures
            *final(self) == (CompositionTracker { applying_remote_edit: applying, ..*old(self) }),
    {
        self.applying_remote_edit = applying;
    }

    /// The text was edited on the computer.
    pub fn mark_external_edit(&mut self)
        ensures
            *final(self) == (CompositionTracker { target_modified: true, ..*old(self) }),
    {
        self.target_modified = true;
    }

    /// The composition ended; its object is released.
    pub fn mark_terminated(&mut self)
        ensures
            *final(self) == (CompositionTracker { terminated: true, has_composition_object: false, ..*old(self) }),
    {
        self.terminated = true;
        self.has_composition_object = false;
    }

    /// The composition was terminated by someone: unless the service itself
    /// was editing, that was an edit on the computer.
    pub fn composition_terminated(&mut self)
        ensures
            *final(self) == (CompositionTracker {
                terminated: true,
                has_composition_object: false,
                target_modified: old(self).target_modified || !old(self).applying_remote_edit,
                ..*old(self)
            }),
    {
        if !self.applying_remote_edit {
            self.mark_external_edit();
        }
        self.mark_terminated();
    }

    /// Whether an edit reported by the context has to be checked against the
    /// composition: only in a session, outside the service's own edits, and
    /// while the composition is neither over nor already modified.
    pub fn needs_edit_check(&self) -> (check: bool)
        ensures
            check == (self.session_id is Some && !self.applying_remote_edit && !self.terminated
                && !self.target_modified),
    {
        self.session_id.is_some() && !self.applying_remote_edit && !self.terminated && !self.target_modified
    }

    /// After an edit check: a text that no longer matches is an edit on the
    /// computer, and a live composition is then ended. Reports whether to
    /// force the finish.
    pub fn after_edit_check(&mut self, still_matches: bool) -> (force_finish: bool)
        ensures
            still_matches ==> *final(self) == *old(self) && !force_finish,
            !still_matches ==> *final(self) == (CompositionTracker { target_modified: true, ..*old(self) })
                && force_finish == (!old(self).terminated && old(self).has_composition_object),
    {
        if still_matches {
            return false;
        }
        self.mark_external_edit();
        self.has_composition()
    }
}

/// Counts that keep the text service's module loaded: live objects and
/// server locks.
#[derive(Debug, Clone, Copy, PartialEq, Eq, Structural)]
pub struct ModuleLifetime {
    pub objects: u32,
    pub locks: u32,
}

impl ModuleLifetime {
    pub fn new() -> (lifetime: Self)
        ensures
            lifetime.objects == 0 && lifetime.locks == 0,
    {
        ModuleLifetime { objects: 0, locks: 0 }
    }

    /// `IClassFactory::LockServer`: a lock is added, or one is released
    /// (never below zero).
    pub fn set_server_lock(&mut self, locked: bool)
        ensures
            final(self).objects == old(self).objects,
            final(self).locks == if locked {
                if old(self).locks == u32::MAX { 0 } else { (old(self).locks + 1) as u32 }
            } else {
                if old(self).locks == 0 { 0 } else { (old(self).locks - 1) as u32 }
            },
    {
        if locked {
            self.locks = if self.locks == 4294967295 { 0 } else { self.locks + 1 };
        } else if self.locks > 0 {
            self.locks = self.locks - 1;
        }
    }

    /// A COM object of the module was created (`ObjectGuard::new`).
    pub fn object_created(&mut self)
        ensures
            final(self).locks == old(self).locks,
            final(self).objects == if old(self).objects == u32::MAX { 0 } else { (old(self).objects + 1) as u32 },
    {
        self.objects = if self.objects == 4294967295 { 0 } else { self.objects + 1 };
    }

    /// A COM object of the module was released (the guard's drop).
    pub fn object_released(&mut self)
        ensures
            final(self).locks == old(self).locks,
            final(self).objects == if old(self).objects == 0 { u32::MAX } else { (old(self).objects - 1) as u32 },
    {
        self.objects = if self.objects == 0 { 4294967295 } else { self.objects - 1 };
    }

    /// Whether `DllCanUnloadNow` may let the module go.
    pub fn can_unload(&self) -> (unload: bool)
        ensures
            unload == (self.objects == 0 && self.locks == 0),
    {
        self.objects == 0 && self.locks == 0
    }
}

pub open spec fn holds_session(tracker: CompositionTracker, session_id: Seq<char>) -> bool {
    tracker.session_id matches Some(id) && id@ == session_id
}

/// How the text service answers `Begin` before it looks for a focused
/// context: the same session again is confirmed (or reported as ended by
/// an edit on the computer); another session still open is refused, since
/// taking a new insertion point would type its text a second time.
pub fn begin_answer(tracker: &CompositionTracker, session_id: &str) -> (answer: Option<TipResponse>)
    ensures
        holds_session(*tracker, session_id@) ==> (if tracker.target_modified {
            answer == Some(TipResponse::CompositionTerminated)
        } else {
            answer matches Some(TipResponse::Begun { session_id: s }) && s@ == session_id@
        }),
        !holds_session(*tracker, session_id@) && tracker.session_id is Some ==> answer == Some(
            TipResponse::RebindRejected,
        ),
        tracker.session_id is None ==> answer is None,
{
    match &tracker.session_id {
        Some(id) => {
            if crate::text::str_equal(id.as_str(), session_id) {
                if tracker.target_modified {
                    Some(TipResponse::CompositionTerminated)
                } else {
                    Some(TipResponse::Begun { session_id: session_id.to_owned() })
                }
            } else {
                Some(TipResponse::RebindRejected)
            }
        },
        None => None,
    }
}

/// How the text service answers `Update` before it edits: another session
/// is a mismatch, an edited target is terminated, an older snapshot is
/// answered with the current sequence, the current one is idempotent when
/// its text matches and a conflict otherwise; `None` means "edit".
pub fn update_answer(tracker: &CompositionTracker, session_id: &str, sequence: i64, full_text: &str) -> (answer: Option<TipResponse>)
    ensures
        !holds_session(*tracker, session_id@) ==> answer == Some(TipResponse::SessionMismatch),
        holds_session(*tracker, session_id@) && tracker.target_modified ==> answer == Some(
            TipResponse::CompositionTerminated,
        ),
        holds_session(*tracker, session_id@) && !tracker.target_modified ==> (if sequence < tracker.sequence {
            answer matches Some(TipResponse::Applied { session_id: s, sequence: q }) && s@ == session_id@ && q
                == tracker.sequence
        } else if sequence == tracker.sequence {
            if tracker.text@ == full_text@ {
                answer matches Some(TipResponse::Applied { session_id: s, sequence: q }) && s@ == session_id@
                    && q == sequence
            } else {
                answer == Some(TipResponse::SequenceConflict)
            }
        } else {
            answer is None
        }),
{
    let matches = match &tracker.session_id {
        Some(id) => crate::text::str_equal(id.as_str(), session_id),
        None => false,
    };
    if !matches {
        return Some(TipResponse::SessionMismatch);
    }
    if tracker.target_modified {
        return Some(TipResponse::CompositionTerminated);
    }
    if sequence < tracker.sequence {
        return Some(TipResponse::Applied { session_id: session_id.to_owned(), sequence: tracker.sequence });
    }
    if sequence == tracker.sequence {
        return if tracker.text_matches(full_text) {
            Some(TipResponse::Applied { session_id: session_id.to_owned(), sequence })
        } else {
            Some(TipResponse::SequenceConflict)
        };
    }
    None
}

/// The answer once the edit of an `Update` ran: the new snapshot is
/// recorded when the edit succeeded; a failed edit is reported as a
/// terminated composition when the target was edited meanwhile.
pub fn update_after_edit(tracker: &mut CompositionTracker, edited: bool, session_id: &str, sequence: i64, full_text: String) -> (answer: TipResponse)
    ensures
        edited ==> (answer matches TipResponse::Applied { session_id: s, sequence: q } && s@ == session_id@ && q
            == sequence) && *final(tracker) == (CompositionTracker { sequence, text: full_text, ..*old(tracker) }),
        !edited ==> answer == (if old(tracker).target_modified {
            TipResponse::CompositionTerminated
        } else {
            TipResponse::EditRejected
        }) && *final(tracker) == *old(tracker),
{
    if !edited {
        return if tracker.target_modified {
            TipResponse::CompositionTerminated
        } else {
            TipResponse::EditRejected
        };
    }
    tracker.applied(sequence, full_text);
    TipResponse::Applied { session_id: session_id.to_owned(), sequence }
}

/// How the text service answers `Finish` before it ends the composition:
/// only the current session at its current sequence may finish, and not
/// after an edit on the computer; `None` means "end the composition".
pub fn finish_answer(tracker: &CompositionTracker, session_id: &str, sequence: i64) -> (answer: Option<TipResponse>)
    ensures
        !holds_session(*tracker, session_id@) || tracker.sequence != sequence ==> answer == Some(
            TipResponse::SessionMismatch,
        ),
        holds_session(*tracker, session_id@) && tracker.sequence == sequence ==> answer == (if tracker.target_modified {
            Some(TipResponse::CompositionTerminated)
        } else {
            None::<TipResponse>
        }),
{
    let matches = match &tracker.session_id {
        Some(id) => crate::text::str_equal(id.as_str(), session_id),
        None => false,
    };
    if !matches || tracker.sequence != sequence {
        return Some(TipResponse::SessionMismatch);
    }
    if tracker.target_modified {
        return Some(TipResponse::CompositionTerminated);
    }
    None
}

/// How the text service answers `Query`.
pub fn query_answer(tracker: &CompositionTracker, session_id: &str) -> (answer: TipResponse)
    ensures
        !holds_session(*tracker, session_id@) ==> answer == TipResponse::SessionMismatch,
        holds_session(*tracker, session_id@) ==> (if tracker.target_modified {
            answer == TipResponse::CompositionTerminated
        } else {
            answer matches TipResponse::SessionActive { session_id: s, sequence: q } && s@ == session_id@ && q
                == tracker.sequence
        }),
{
    let matches = match &tracker.session_id {
        Some(id) => crate::text::str_equal(id.as_str(), session_id),
        None => false,
    };
    if !matches {
        TipResponse::SessionMismatch
    } else if tracker.target_modified {
        TipResponse::CompositionTerminated
    } else {
        TipResponse::SessionActive { session_id: session_id.to_owned(), sequence: tracker.sequence }
    }
}

/// Cancels the current session: a live composition is force-finished
/// first (reported), and the tracker is cleared; another session is a
/// mismatch and changes nothing.
pub fn cancel_session(tracker: &mut CompositionTracker, session_id: &str) -> (result: (TipResponse, bool))
    ensures
        !holds_session(*old(tracker), session_id@) ==> result == (TipResponse::SessionMismatch, false)
            && *final(tracker) == *old(tracker),
        holds_session(*old(tracker), session_id@) ==> (result.0 matches TipResponse::Cancelled { session_id: s }
            && s@ == session_id@) && result.1 == (!old(tracker).terminated && old(tracker).has_composition_object)
            && final(tracker).session_id is None && !final(tracker).has_composition_object,
{
    let matches = match &tracker.session_id {
        Some(id) => crate::text::str_equal(id.as_str(), session_id),
        None => false,
    };
    if !matches {
        return (TipResponse::SessionMismatch, false);
    }
    let force = tracker.has_composition();
    tracker.clear();
    (TipResponse::Cancelled { session_id: session_id.to_owned() }, force)
}

} // verus!
