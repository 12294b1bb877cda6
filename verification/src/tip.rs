//! The injector <-> text service protocol and the text service's session
//! model.
use vstd::prelude::*;

use crate::text::{option_holds, str_equal};
use crate::TIP_IPC_VERSION;

verus! {

pub const CLSID_FLOWTYPE_TIP_VALUE: u128 = 0x9a50b266_9e86_4ff4_871b_8d47ad8c658b;

pub const GUID_FLOWTYPE_PROFILE_VALUE: u128 = 0x567ab276_3af1_4874_8e2c_d47c31d5e46e;

pub const FLOWTYPE_LANG_ID: u16 = 0x0804;

/// First message a text service sends to the injector.
#[derive(Debug, Clone, PartialEq, Eq)]
pub struct TipHello {
    pub ipc_version: u16,
    pub component_version: String,
    pub process_id: u32,
    pub thread_id: u32,
}

#[derive(Debug, Clone, PartialEq, Eq)]
pub enum TipCommand {
    Begin { session_id: String, sequence: i64, full_text: String, attach_existing: bool },
    Update { session_id: String, sequence: i64, full_text: String },
    Finish { session_id: String, sequence: i64 },
    Cancel { session_id: String },
    Query { session_id: String },
    Ping,
}

#[derive(Debug, Clone, PartialEq, Eq)]
pub enum TipResponse {
    Ready,
    Begun { session_id: String },
    Applied { session_id: String, sequence: i64 },
    Finished { session_id: String, sequence: i64 },
    Cancelled { session_id: String },
    NoFocus,
    SessionMismatch,
    SequenceConflict,
    CompositionTerminated,
    SessionActive { session_id: String, sequence: i64 },
    RebindRejected,
    EditRejected,
}

/// A text service is accepted when it speaks the current protocol; its
/// component version is only informative.
pub fn hello_is_compatible(hello: &TipHello) -> (compatible: bool)
    ensures
        compatible == (hello.ipc_version == TIP_IPC_VERSION),
{
    hello.ipc_version == TIP_IPC_VERSION
}

/// The composition a text service owns for one session.
#[derive(Debug)]
pub struct TipSessionModel {
    session_id: Option<String>,
    sequence: i64,
    text: String,
    composition_ended: bool,
    target_modified: bool,
}

/// Abstract state of a `TipSessionModel`.
pub struct TipSessionView {
    pub session_id: Option<Seq<char>>,
    pub sequence: i64,
    pub text: Seq<char>,
    pub composition_ended: bool,
    pub target_modified: bool,
}

pub open spec fn idle_session() -> TipSessionView {
    TipSessionView {
        session_id: None,
        sequence: 0,
        text: Seq::empty(),
        composition_ended: false,
        target_modified: false,
    }
}

pub open spec fn owns(m: TipSessionView, session_id: Seq<char>) -> bool {
    m.session_id == Some(session_id)
}

/// State and reply after `begin`.
pub open spec fn begin_step(
    m: TipSessionView,
    session_id: Seq<char>,
    sequence: i64,
    full_text: Seq<char>,
) -> (TipSessionView, Result<(), TipResponse>) {
    if owns(m, session_id) {
        if m.target_modified {
            (m, Err(TipResponse::CompositionTerminated))
        } else {
            (m, Ok(()))
        }
    } else if m.session_id is Some {
        (m, Err(TipResponse::SessionMismatch))
    } else {
        (
            TipSessionView {
                session_id: Some(session_id),
                sequence,
                text: full_text,
                composition_ended: false,
                target_modified: false,
            },
            Ok(()),
        )
    }
}

/// State and reply after `update`; `Ok(true)` means the text changed.
pub open spec fn update_step(
    m: TipSessionView,
    session_id: Seq<char>,
    sequence: i64,
    full_text: Seq<char>,
) -> (TipSessionView, Result<bool, TipResponse>) {
    if !owns(m, session_id) {
        (m, Err(TipResponse::SessionMismatch))
    } else if m.target_modified {
        (m, Err(TipResponse::CompositionTerminated))
    } else if sequence < m.sequence {
        (m, Ok(false))
    } else if sequence == m.sequence {
        if m.text == full_text {
            (m, Ok(false))
        } else {
            (m, Err(TipResponse::SequenceConflict))
        }
    } else {
        (TipSessionView { sequence, text: full_text, ..m }, Ok(true))
    }
}

pub open spec fn finish_step(m: TipSessionView, session_id: Seq<char>, sequence: i64) -> (
    TipSessionView,
    Result<(), TipResponse>,
) {
    if !owns(m, session_id) || m.sequence != sequence {
        (m, Err(TipResponse::SessionMismatch))
    } else if m.target_modified {
        (m, Err(TipResponse::CompositionTerminated))
    } else {
        (idle_session(), Ok(()))
    }
}

pub open spec fn cancel_step(m: TipSessionView, session_id: Seq<char>) -> (
    TipSessionView,
    Result<(), TipResponse>,
) {
    if !owns(m, session_id) {
        (m, Err(TipResponse::SessionMismatch))
    } else {
        (idle_session(), Ok(()))
    }
}

impl View for TipSessionModel {
    type V = TipSessionView;

    closed spec fn view(&self) -> TipSessionView {
        TipSessionView {
            session_id: match self.session_id {
                Some(id) => Some(id@),
                None => None,
            },
            sequence: self.sequence,
            text: self.text@,
            composition_ended: self.composition_ended,
            target_modified: self.target_modified,
        }
    }
}

impl Default for TipSessionModel {
    fn default() -> (model: Self)
        ensures
            model@ == idle_session(),
    {
        TipSessionModel {
            session_id: None,
            sequence: 0,
            text: String::new(),
            composition_ended: false,
            target_modified: false,
        }
    }
}

impl TipSessionModel {
    /// Starts owning `session_id` with its first snapshot. The owner of a
    /// session may begin it again without losing its composition; another
    /// session is refused until this one is finished or cancelled.
    pub fn begin(&mut self, session_id: &str, sequence: i64, full_text: &str) -> (result: Result<
        (),
        TipResponse,
    >)
        ensures
            (final(self)@, result) == begin_step(old(self)@, session_id@, sequence, full_text@),
    {
        if option_holds(&self.session_id, session_id) {
            return if self.target_modified {
                Err(TipResponse::CompositionTerminated)
            } else {
                Ok(())
            };
        }
        if self.session_id.is_some() {
            return Err(TipResponse::SessionMismatch);
        }
        self.session_id = Some(session_id.to_owned());
        self.sequence = sequence;
        self.text = full_text.to_owned();
        self.composition_ended = false;
        self.target_modified = false;
        Ok(())
    }

    /// Replaces the composition with a newer full snapshot.
    pub fn update(&mut self, session_id: &str, sequence: i64, full_text: &str) -> (result: Result<
        bool,
        TipResponse,
    >)
        ensures
            (final(self)@, result) == update_step(old(self)@, session_id@, sequence, full_text@),
    {
        if !option_holds(&self.session_id, session_id) {
            return Err(TipResponse::SessionMismatch);
        }
        if self.target_modified {
            return Err(TipResponse::CompositionTerminated);
        }
        if sequence < self.sequence {
            return Ok(false);
        }
        if sequence == self.sequence {
            return if str_equal(self.text.as_str(), full_text) {
                Ok(false)
            } else {
                Err(TipResponse::SequenceConflict)
            };
        }
        self.sequence = sequence;
        self.text = full_text.to_owned();
        Ok(true)
    }

    /// Records that the target edited or ended the composition itself.
    pub fn terminate(&mut self)
        ensures
            final(self)@ == (TipSessionView { target_modified: true, ..old(self)@ }),
    {
        self.target_modified = true;
    }

    /// Records that the composition range was closed by the host.
    pub fn end_composition(&mut self)
        ensures
            final(self)@ == (TipSessionView { composition_ended: true, ..old(self)@ }),
    {
        self.composition_ended = true;
    }

    pub fn finish(&mut self, session_id: &str, sequence: i64) -> (result: Result<(), TipResponse>)
        ensures
            (final(self)@, result) == finish_step(old(self)@, session_id@, sequence),
    {
        if !option_holds(&self.session_id, session_id) || self.sequence != sequence {
            return Err(TipResponse::SessionMismatch);
        }
        if self.target_modified {
            return Err(TipResponse::CompositionTerminated);
        }
        self.clear();
        Ok(())
    }

    pub fn cancel(&mut self, session_id: &str) -> (result: Result<(), TipResponse>)
        ensures
            (final(self)@, result) == cancel_step(old(self)@, session_id@),
    {
        if !option_holds(&self.session_id, session_id) {
            return Err(TipResponse::SessionMismatch);
        }
        self.clear();
        Ok(())
    }

    fn clear(&mut self)
        ensures
            final(self)@ == idle_session(),
    {
        self.session_id = None;
        self.sequence = 0;
        self.text = String::new();
        self.composition_ended = false;
        self.target_modified = false;
    }
}

/// Beginning the session one already owns keeps its composition.
pub proof fn law_repeated_begin_keeps_composition(
    m: TipSessionView,
    session_id: Seq<char>,
    sequence: i64,
    full_text: Seq<char>,
    again_sequence: i64,
    again_text: Seq<char>,
)
    requires
        m.session_id is None,
    ensures
        ({
            let first = begin_step(m, session_id, sequence, full_text).0;
            begin_step(first, session_id, again_sequence, again_text) == (first, Ok::<
                (),
                TipResponse,
            >(()))
        }),
{
}

/// While a session owns the composition, no other session can begin.
pub proof fn law_other_session_cannot_replace_range(
    m: TipSessionView,
    session_id: Seq<char>,
    sequence: i64,
    full_text: Seq<char>,
)
    requires
        m.session_id is Some,
        m.session_id != Some(session_id),
    ensures
        begin_step(m, session_id, sequence, full_text) == (m, Err::<(), TipResponse>(
            TipResponse::SessionMismatch,
        )),
{
}

/// A newer snapshot replaces the text; sending it again changes nothing,
/// and a different text under the same sequence is a conflict.
pub proof fn law_snapshots_are_idempotent(
    m: TipSessionView,
    session_id: Seq<char>,
    sequence: i64,
    full_text: Seq<char>,
    other_text: Seq<char>,
)
    requires
        owns(m, session_id),
        !m.target_modified,
        sequence > m.sequence,
        other_text != full_text,
    ensures
        ({
            let (after, result) = update_step(m, session_id, sequence, full_text);
            &&& result == Ok::<bool, TipResponse>(true)
            &&& after.text == full_text
            &&& after.sequence == sequence
            &&& update_step(after, session_id, sequence, full_text) == (after, Ok::<
                bool,
                TipResponse,
            >(false))
            &&& update_step(after, session_id, sequence, other_text) == (after, Err::<
                bool,
                TipResponse,
            >(TipResponse::SequenceConflict))
        }),
{
}

/// Once the target changed the text, no update or finish is acknowledged
/// as applied; only cancelling releases the session.
pub proof fn law_termination_is_never_applied(
    m: TipSessionView,
    session_id: Seq<char>,
    sequence: i64,
    full_text: Seq<char>,
)
    requires
        owns(m, session_id),
        m.target_modified,
    ensures
        update_step(m, session_id, sequence, full_text).1 == Err::<bool, TipResponse>(
            TipResponse::CompositionTerminated,
        ),
        finish_step(m, session_id, m.sequence).1 == Err::<(), TipResponse>(
            TipResponse::CompositionTerminated,
        ),
        begin_step(m, session_id, sequence, full_text).1 == Err::<(), TipResponse>(
            TipResponse::CompositionTerminated,
        ),
        cancel_step(m, session_id) == (idle_session(), Ok::<(), TipResponse>(())),
{
}

/// Finishing at the applied sequence frees the model for the next session.
pub proof fn law_finish_frees_the_model(
    m: TipSessionView,
    session_id: Seq<char>,
    next_session: Seq<char>,
    sequence: i64,
    full_text: Seq<char>,
)
    requires
        owns(m, session_id),
        !m.target_modified,
    ensures
        finish_step(m, session_id, m.sequence) == (idle_session(), Ok::<(), TipResponse>(())),
        begin_step(idle_session(), next_session, sequence, full_text).1 == Ok::<
            (),
            TipResponse,
        >(()),
{
}

/// A request the text service's session model takes.
pub enum TipCall {
    Begin { session_id: Seq<char>, sequence: i64, full_text: Seq<char> },
    Update { session_id: Seq<char>, sequence: i64, full_text: Seq<char> },
    Finish { session_id: Seq<char>, sequence: i64 },
    Cancel { session_id: Seq<char> },
}

/// The reply to a `TipCall`: `Updated` for an update, `Done` for the others.
pub enum TipReply {
    Done(Result<(), TipResponse>),
    Updated(Result<bool, TipResponse>),
}

/// State and reply after one call.
pub open spec fn call_step(m: TipSessionView, call: TipCall) -> (TipSessionView, TipReply) {
    match call {
        TipCall::Begin { session_id, sequence, full_text } => {
            let (n, r) = begin_step(m, session_id, sequence, full_text);
            (n, TipReply::Done(r))
        },
        TipCall::Update { session_id, sequence, full_text } => {
            let (n, r) = update_step(m, session_id, sequence, full_text);
            (n, TipReply::Updated(r))
        },
        TipCall::Finish { session_id, sequence } => {
            let (n, r) = finish_step(m, session_id, sequence);
            (n, TipReply::Done(r))
        },
        TipCall::Cancel { session_id } => {
            let (n, r) = cancel_step(m, session_id);
            (n, TipReply::Done(r))
        },
    }
}

/// The replies to a sequence of calls, in order.
pub open spec fn replies(m: TipSessionView, calls: Seq<TipCall>) -> Seq<TipReply>
    decreases calls.len(),
{
    if calls.len() == 0 {
        Seq::empty()
    } else {
        let (n, r) = call_step(m, calls[0]);
        seq![r] + replies(n, calls.drop_first())
    }
}

/// Two models that differ at most in whether the composition range ended.
pub open spec fn agree_but_ended(a: TipSessionView, b: TipSessionView) -> bool {
    a.session_id == b.session_id && a.sequence == b.sequence && a.text == b.text && a.target_modified
        == b.target_modified
}

proof fn lemma_ended_flag_is_ignored(a: TipSessionView, b: TipSessionView, calls: Seq<TipCall>)
    requires
        agree_but_ended(a, b),
    ensures
        replies(a, calls) == replies(b, calls),
    decreases calls.len(),
{
    if calls.len() > 0 {
        let (na, ra) = call_step(a, calls[0]);
        let (nb, rb) = call_step(b, calls[0]);
        assert(ra == rb && agree_but_ended(na, nb));
        lemma_ended_flag_is_ignored(na, nb, calls.drop_first());
    }
}

/// Ending the composition range only records it: whatever begin, update,
/// finish and cancel calls follow, they get the same replies as they would
/// have without it.
pub proof fn law_ending_composition_changes_no_reply(m: TipSessionView, calls: Seq<TipCall>)
    ensures
        replies(TipSessionView { composition_ended: true, ..m }, calls) == replies(m, calls),
{
    lemma_ended_flag_is_ignored(TipSessionView { composition_ended: true, ..m }, m, calls);
}

/// A snapshot older than the applied one is ignored: the owner of a live
/// session gets `Ok(false)` and keeps its applied sequence and text. No
/// update ever lowers the applied sequence, and an update reports a change
/// only when it moves to a strictly newer sequence with the new text.
pub proof fn law_stale_snapshot_is_ignored(m: TipSessionView, session_id: Seq<char>, sequence: i64, full_text: Seq<char>)
    ensures
        owns(m, session_id) && !m.target_modified && sequence < m.sequence ==> update_step(
            m,
            session_id,
            sequence,
            full_text,
        ) == (m, Ok::<bool, TipResponse>(false)),
        update_step(m, session_id, sequence, full_text).0.sequence >= m.sequence,
        update_step(m, session_id, sequence, full_text).1 == Ok::<bool, TipResponse>(true) ==> sequence
            > m.sequence && update_step(m, session_id, sequence, full_text).0.sequence == sequence
            && update_step(m, session_id, sequence, full_text).0.text == full_text,
{
}

} // verus!
