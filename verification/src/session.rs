//! Sequence bookkeeping for one input session.
use vstd::prelude::*;

use crate::text::str_equal;

verus! {

/// The last snapshot applied to the target.
#[derive(Debug, Clone, PartialEq, Eq)]
pub struct AppliedState {
    pub sequence: i64,
    pub text: String,
    pub finished: bool,
}

/// What to do with an incoming snapshot.
#[derive(Debug, Clone, Copy, PartialEq, Eq, Structural)]
pub enum IncomingDisposition {
    Apply,
    Duplicate,
    Stale,
    Conflict,
    Finished,
}

/// How a snapshot `(sequence, text)` relates to the applied state.
pub open spec fn disposition(
    applied_sequence: i64,
    applied_text: Seq<char>,
    finished: bool,
    sequence: i64,
    text: Seq<char>,
) -> IncomingDisposition {
    if finished {
        IncomingDisposition::Finished
    } else if sequence < applied_sequence {
        IncomingDisposition::Stale
    } else if sequence == applied_sequence {
        if text == applied_text {
            IncomingDisposition::Duplicate
        } else {
            IncomingDisposition::Conflict
        }
    } else {
        IncomingDisposition::Apply
    }
}

impl AppliedState {
    pub fn new(sequence: i64, text: &str) -> (state: Self)
        ensures
            state.sequence == sequence,
            state.text@ == text@,
            !state.finished,
    {
        AppliedState { sequence, text: text.to_owned(), finished: false }
    }

    pub fn classify(&self, sequence: i64, text: &str) -> (result: IncomingDisposition)
        ensures
            result == disposition(self.sequence, self.text@, self.finished, sequence, text@),
    {
        if self.finished {
            return IncomingDisposition::Finished;
        }
        if sequence < self.sequence {
            return IncomingDisposition::Stale;
        }
        if sequence == self.sequence {
            return if str_equal(text, self.text.as_str()) {
                IncomingDisposition::Duplicate
            } else {
                IncomingDisposition::Conflict
            };
        }
        IncomingDisposition::Apply
    }

    pub fn mark_applied(&mut self, sequence: i64, text: &str, finished: bool)
        ensures
            final(self).sequence == sequence,
            final(self).text@ == text@,
            final(self).finished == finished,
    {
        self.sequence = sequence;
        self.text = text.to_owned();
        self.finished = finished;
    }
}

/// Re-sending the snapshot that was just applied is recognised as a
/// duplicate, and nothing older than it is ever applied again.
pub proof fn law_applied_snapshot_is_duplicate(sequence: i64, text: Seq<char>, other: Seq<char>)
    ensures
        disposition(sequence, text, false, sequence, text) == IncomingDisposition::Duplicate,
        other != text ==> disposition(sequence, text, false, sequence, other)
            == IncomingDisposition::Conflict,
        forall|older: i64|
            older < sequence ==> disposition(sequence, text, false, older, other)
                == IncomingDisposition::Stale,
{
}

/// Only a strictly newer snapshot of an unfinished session is applied.
pub proof fn law_only_newer_snapshots_apply(
    applied_sequence: i64,
    applied_text: Seq<char>,
    finished: bool,
    sequence: i64,
    text: Seq<char>,
)
    ensures
        disposition(applied_sequence, applied_text, finished, sequence, text)
            == IncomingDisposition::Apply <==> (!finished && sequence > applied_sequence),
{
}

/// A finished session accepts no further change.
pub proof fn law_finished_session_is_closed(
    applied_sequence: i64,
    applied_text: Seq<char>,
    sequence: i64,
    text: Seq<char>,
)
    ensures
        disposition(applied_sequence, applied_text, true, sequence, text)
            == IncomingDisposition::Finished,
{
}

} // verus!
