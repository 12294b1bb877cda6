//! The injector's table of connected text services and the rules for
//! starting a session in one of them.
use vstd::prelude::*;

use crate::injector::CompletedSession;
use crate::ipc::InjectorResponse;
use crate::text::str_equal;
use crate::tip::TipResponse;

verus! {

/// One connection of a text service: the thread it serves and the
/// connection's generation, which tells a reconnect from the old pipe.
#[derive(Debug, Clone, Copy, PartialEq, Eq, Hash, Structural)]
pub struct TipKey {
    pub process_id: u32,
    pub thread_id: u32,
    pub generation: u64,
}

impl TipKey {
    pub fn new(process_id: u32, thread_id: u32, generation: u64) -> (key: Self)
        ensures
            key == (TipKey { process_id, thread_id, generation }),
    {
        TipKey { process_id, thread_id, generation }
    }
}

#[derive(Debug, Clone, Copy, PartialEq, Eq, Structural)]
pub enum TipBeginError {
    /// No compatible text service answered in time.
    Unavailable,
    /// A text service answered, but the target has no usable text focus.
    Unsupported,
    /// The text service still owns another session's range.
    RebindRejected,
}

/// The first snapshot of a session to start in a text service.
pub struct TipBegin<'a> {
    pub session_id: &'a str,
    pub sequence: i64,
    pub full_text: &'a str,
    pub attach_existing: bool,
}

/// A registered text-service connection and the handle used to reach it.
pub struct TipClient<S> {
    pub key: TipKey,
    pub sender: S,
}

/// The connected text services, at most one per (process, thread).
pub struct TipRegistry<S> {
    clients: Vec<TipClient<S>>,
    next_generation: u64,
}

pub open spec fn client_keys<S>(clients: Seq<TipClient<S>>) -> Seq<TipKey> {
    clients.map_values(|c: TipClient<S>| c.key)
}

/// Connections of the preferred thread of a process.
pub open spec fn in_thread(process_id: u32, thread_id: u32) -> spec_fn(TipKey) -> bool {
    |k: TipKey| k.process_id == process_id && k.thread_id == thread_id
}

/// Connections of the other threads of a process.
pub open spec fn in_other_threads(process_id: u32, thread_id: u32) -> spec_fn(TipKey) -> bool {
    |k: TipKey| k.process_id == process_id && k.thread_id != thread_id
}

/// Keys of other threads than `key`'s.
pub open spec fn other_thread(key: TipKey) -> spec_fn(TipKey) -> bool {
    |k: TipKey| !same_thread(k, key)
}

pub open spec fn same_thread(a: TipKey, b: TipKey) -> bool {
    a.process_id == b.process_id && a.thread_id == b.thread_id
}

pub open spec fn distinct_threads(keys: Seq<TipKey>) -> bool {
    forall|i: int, j: int|
        0 <= i < keys.len() && 0 <= j < keys.len() && i != j ==> !same_thread(
            #[trigger] keys[i],
            #[trigger] keys[j],
        )
}

impl<S> TipRegistry<S> {
    /// The keys of the registered connections, in table order.
    pub closed spec fn keys(&self) -> Seq<TipKey> {
        client_keys(self.clients@)
    }

    pub closed spec fn next_generation_spec(&self) -> u64 {
        self.next_generation
    }

    #[verifier::type_invariant]
    closed spec fn well_formed(&self) -> bool {
        distinct_threads(self.keys())
    }

    pub fn new() -> (registry: Self)
        ensures
            registry.keys() == Seq::<TipKey>::empty(),
            registry.next_generation_spec() == 1,
    {
        let registry = TipRegistry { clients: Vec::new(), next_generation: 1 };
        proof {
            assert(registry.keys() =~= Seq::<TipKey>::empty());
        }
        registry
    }

    /// Registers a connection for `(process_id, thread_id)` under a fresh
    /// generation, replacing any older connection of that thread.
    pub fn register(&mut self, process_id: u32, thread_id: u32, sender: S) -> (key: TipKey)
        ensures
            key.process_id == process_id,
            key.thread_id == thread_id,
            key.generation == old(self).next_generation_spec(),
            final(self).next_generation_spec() == next_generation(old(self).next_generation_spec()),
            final(self).keys() == old(self).keys().filter(other_thread(key)).push(
                key,
            ),
    {
        proof {
            use_type_invariant(&*self);
        }
        let key = TipKey { process_id, thread_id, generation: self.next_generation };
        let ghost old_keys = self.keys();
        let ghost pred = other_thread(key);
        let mut kept: Vec<TipClient<S>> = Vec::new();
        let mut taken: Vec<TipClient<S>> = Vec::new();
        std::mem::swap(&mut taken, &mut self.clients);
        let ghost all = taken@;
        let ghost index: int = 0;
        // Move the other threads' connections over, in order.
        while taken.len() > 0
            invariant
                0 <= index <= all.len(),
                taken@ == all.skip(index),
                old_keys == client_keys(all),
                pred == other_thread(key),
                key.process_id == process_id,
                key.thread_id == thread_id,
                client_keys(kept@) == old_keys.take(index).filter(pred),
            decreases taken.len(),
        {
            let client = taken.remove(0);
            proof {
                assert(all.skip(index).drop_first() =~= all.skip(index + 1));
                assert(old_keys.take(index + 1).drop_last() =~= old_keys.take(index));
                assert(old_keys.take(index + 1).last() == client.key);
                assert(old_keys.take(index + 1).filter(pred) == if pred(client.key) {
                    old_keys.take(index).filter(pred).push(client.key)
                } else {
                    old_keys.take(index).filter(pred)
                }) by {
                    reveal(Seq::filter);
                }
            }
            if !(client.key.process_id == process_id && client.key.thread_id == thread_id) {
                let ghost before = kept@;
                kept.push(client);
                proof {
                    assert(client_keys(kept@) =~= client_keys(before).push(client.key));
                }
            }
            proof {
                index = index + 1;
            }
        }
        proof {
            assert(old_keys.take(index) =~= old_keys);
        }
        let ghost before = kept@;
        kept.push(TipClient { key, sender });
        proof {
            assert(client_keys(kept@) =~= client_keys(before).push(key));
            lemma_filter_distinct(old_keys, pred);
            let filtered = old_keys.filter(pred);
            assert forall|i: int| 0 <= i < filtered.len() implies !same_thread(
                #[trigger] filtered[i],
                key,
            ) by {
                old_keys.lemma_filter_pred(pred, i);
            }
        }
        self.clients = kept;
        self.next_generation = self.next_generation.wrapping_add(1);
        key
    }

    /// The handles of the registered connections, in table order.
    pub closed spec fn senders(&self) -> Seq<S> {
        self.clients@.map_values(|c: TipClient<S>| c.sender)
    }

    /// The handle of the connection `key`, if that connection is still the
    /// registered one for its thread.
    pub fn lookup(&self, key: TipKey) -> (sender: Option<&S>)
        ensures
            match sender {
                Some(s) => exists|i: int|
                    0 <= i < self.keys().len() && self.keys()[i] == key && self.senders()[i] == *s,
                None => !self.keys().contains(key),
            },
    {
        let mut index: usize = 0;
        while index < self.clients.len()
            invariant
                index <= self.clients@.len(),
                forall|i: int| 0 <= i < index ==> self.keys()[i] != key,
            decreases self.clients.len() - index,
        {
            if self.clients[index].key == key {
                proof {
                    assert(self.keys()[index as int] == key);
                    assert(self.senders()[index as int] == self.clients@[index as int].sender);
                }
                return Some(&self.clients[index].sender);
            }
            index += 1;
        }
        None
    }

    /// Removes the connection `key` when it is still the registered one for
    /// its thread; a newer connection of the same thread stays.
    pub fn unregister(&mut self, key: TipKey)
        ensures
            !old(self).keys().contains(key) ==> final(self).keys() == old(self).keys(),
            old(self).keys().contains(key) ==> exists|i: int|
                0 <= i < old(self).keys().len() && old(self).keys()[i] == key && final(self).keys()
                    == old(self).keys().remove(i),
    {
        proof {
            use_type_invariant(&*self);
        }
        let ghost old_keys = self.keys();
        let mut index: usize = 0;
        while index < self.clients.len()
            invariant
                index <= self.clients@.len(),
                self.keys() == old_keys,
                old_keys == old(self).keys(),
                distinct_threads(old_keys),
                forall|i: int| 0 <= i < index ==> old_keys[i] != key,
            decreases self.clients.len() - index,
        {
            if self.clients[index].key == key {
                proof {
                    assert(old_keys[index as int] == key);
                }
                let mut taken: Vec<TipClient<S>> = Vec::new();
                std::mem::swap(&mut taken, &mut self.clients);
                let _removed = taken.remove(index);
                proof {
                    assert(client_keys(taken@) =~= old_keys.remove(index as int));
                    let rest = old_keys.remove(index as int);
                    assert forall|i: int, j: int|
                        0 <= i < rest.len() && 0 <= j < rest.len() && i != j implies !same_thread(
                        #[trigger] rest[i],
                        #[trigger] rest[j],
                    ) by {
                        let oi = if i < index { i } else { i + 1 };
                        let oj = if j < index { j } else { j + 1 };
                        assert(rest[i] == old_keys[oi]);
                        assert(rest[j] == old_keys[oj]);
                        assert(!same_thread(old_keys[oi], old_keys[oj]));
                    }
                }
                self.clients = taken;
                return;
            }
            index += 1;
        }
        proof {
            assert(!old_keys.contains(key));
        }
    }

    /// The connections of `process_id`, the preferred thread first; the
    /// order is otherwise the table's.
    pub fn candidates(&self, process_id: u32, preferred_thread_id: u32) -> (keys: Vec<TipKey>)
        ensures
            keys@ == self.keys().filter(in_thread(process_id, preferred_thread_id))
                + self.keys().filter(in_other_threads(process_id, preferred_thread_id)),
    {
        let ghost all = self.keys();
        let ghost first = in_thread(process_id, preferred_thread_id);
        let ghost second = in_other_threads(process_id, preferred_thread_id);
        let mut preferred: Vec<TipKey> = Vec::new();
        let mut others: Vec<TipKey> = Vec::new();
        let mut index: usize = 0;
        while index < self.clients.len()
            invariant
                all == self.keys(),
                first == in_thread(process_id, preferred_thread_id),
                second == in_other_threads(process_id, preferred_thread_id),
                index <= self.clients@.len(),
                preferred@ == all.take(index as int).filter(first),
                others@ == all.take(index as int).filter(second),
            decreases self.clients.len() - index,
        {
            let key = self.clients[index].key;
            proof {
                assert(all.take(index + 1).drop_last() =~= all.take(index as int));
                assert(all.take(index + 1).last() == key);
                assert(all.take(index + 1).filter(first) == if first(key) {
                    all.take(index as int).filter(first).push(key)
                } else {
                    all.take(index as int).filter(first)
                }) by {
                    reveal(Seq::filter);
                }
                assert(all.take(index + 1).filter(second) == if second(key) {
                    all.take(index as int).filter(second).push(key)
                } else {
                    all.take(index as int).filter(second)
                }) by {
                    reveal(Seq::filter);
                }
            }
            if key.process_id == process_id {
                if key.thread_id == preferred_thread_id {
                    preferred.push(key);
                } else {
                    others.push(key);
                }
            }
            index += 1;
        }
        proof {
            assert(all.take(index as int) =~= all);
        }
        let ghost head = preferred@;
        let mut keys = preferred;
        let mut position: usize = 0;
        while position < others.len()
            invariant
                position <= others@.len(),
                keys@ == head + others@.take(position as int),
            decreases others.len() - position,
        {
            proof {
                assert(others@.take(position + 1) =~= others@.take(position as int).push(
                    others@[position as int],
                ));
            }
            keys.push(others[position]);
            position += 1;
        }
        proof {
            assert(others@.take(position as int) =~= others@);
        }
        keys
    }

}

/// Keeping some keys of a table with distinct threads keeps them distinct,
/// and keeps only keys of the table.
proof fn lemma_filter_distinct(keys: Seq<TipKey>, pred: spec_fn(TipKey) -> bool)
    requires
        distinct_threads(keys),
    ensures
        distinct_threads(keys.filter(pred)),
        forall|i: int|
            0 <= i < keys.filter(pred).len() ==> keys.contains(#[trigger] keys.filter(pred)[i]),
    decreases keys.len(),
{
    reveal(Seq::filter);
    if keys.len() > 0 {
        let rest = keys.drop_last();
        assert(distinct_threads(rest)) by {
            assert forall|i: int, j: int|
                0 <= i < rest.len() && 0 <= j < rest.len() && i != j implies !same_thread(
                #[trigger] rest[i],
                #[trigger] rest[j],
            ) by {
                assert(rest[i] == keys[i]);
                assert(rest[j] == keys[j]);
            }
        }
        lemma_filter_distinct(rest, pred);
        let sub = rest.filter(pred);
        if pred(keys.last()) {
            let out = sub.push(keys.last());
            assert forall|i: int| 0 <= i < sub.len() implies !same_thread(
                #[trigger] sub[i],
                keys.last(),
            ) by {
                assert(rest.contains(sub[i]));
                let m = choose|m: int| 0 <= m < rest.len() && rest[m] == sub[i];
                assert(keys[m] == rest[m]);
                assert(!same_thread(keys[m], keys[keys.len() - 1]));
            }
            assert forall|i: int, j: int|
                0 <= i < out.len() && 0 <= j < out.len() && i != j implies !same_thread(
                #[trigger] out[i],
                #[trigger] out[j],
            ) by {
                if i < sub.len() && j < sub.len() {
                    assert(out[i] == sub[i]);
                    assert(out[j] == sub[j]);
                } else if i < sub.len() {
                    assert(out[i] == sub[i]);
                } else {
                    assert(out[j] == sub[j]);
                }
            }
            assert forall|i: int| 0 <= i < out.len() implies keys.contains(#[trigger] out[i]) by {
                if i < sub.len() {
                    assert(rest.contains(sub[i]));
                    let m = choose|m: int| 0 <= m < rest.len() && rest[m] == sub[i];
                    assert(keys[m] == rest[m]);
                } else {
                    assert(keys[keys.len() - 1] == out[i]);
                }
            }
        } else {
            assert forall|i: int| 0 <= i < sub.len() implies keys.contains(#[trigger] sub[i]) by {
                assert(rest.contains(sub[i]));
                let m = choose|m: int| 0 <= m < rest.len() && rest[m] == sub[i];
                assert(keys[m] == rest[m]);
            }
        }
    }
}

pub open spec fn next_generation(generation: u64) -> u64 {
    if generation == u64::MAX {
        0
    } else {
        (generation + 1) as u64
    }
}

/// A text service that reconnects replaces its old connection: after
/// registering the new connection, the old key is no longer found.
pub proof fn law_reconnect_supersedes_old_connection(
    keys: Seq<TipKey>,
    old_key: TipKey,
    new_key: TipKey,
)
    requires
        same_thread(old_key, new_key),
        old_key.generation != new_key.generation,
    ensures
        !keys.filter(other_thread(new_key)).push(new_key).contains(old_key),
{
    let kept = keys.filter(other_thread(new_key));
    let after = kept.push(new_key);
    if after.contains(old_key) {
        let i = choose|i: int| 0 <= i < after.len() && after[i] == old_key;
        if i < kept.len() {
            keys.lemma_filter_pred(other_thread(new_key), i);
            assert(after[i] == kept[i]);
        }
    }
}

/// What one text service's answer to `Begin` means for the search.
#[derive(Debug, Clone, Copy, PartialEq, Eq, Structural)]
pub enum BeginCandidateStep {
    /// This text service began the session.
    Accept,
    /// It is connected but its target cannot take the session; try the
    /// others, and report the target as unsupported if none accepts.
    TargetRejected,
    /// It still owns another session's range: give up.
    RebindRejected,
    /// Try the next text service.
    TryNext,
}

pub open spec fn begin_candidate_spec(session_id: Seq<char>, response: Option<TipResponse>) -> BeginCandidateStep {
    match response {
        Some(TipResponse::Begun { session_id: begun }) => if begun@ == session_id {
            BeginCandidateStep::Accept
        } else {
            BeginCandidateStep::TryNext
        },
        Some(TipResponse::NoFocus) => BeginCandidateStep::TargetRejected,
        Some(TipResponse::EditRejected) => BeginCandidateStep::TargetRejected,
        Some(TipResponse::RebindRejected) => BeginCandidateStep::RebindRejected,
        _ => BeginCandidateStep::TryNext,
    }
}

/// Interprets one text service's answer to `Begin`; `None` stands for a
/// pipe failure or timeout.
pub fn begin_candidate_step(session_id: &str, response: Option<&TipResponse>) -> (step: BeginCandidateStep)
    ensures
        step == begin_candidate_spec(
            session_id@,
            match response {
                Some(r) => Some(*r),
                None => None,
            },
        ),
{
    match response {
        Some(TipResponse::Begun { session_id: begun }) => {
            if str_equal(begun.as_str(), session_id) {
                BeginCandidateStep::Accept
            } else {
                BeginCandidateStep::TryNext
            }
        },
        Some(TipResponse::NoFocus) => BeginCandidateStep::TargetRejected,
        Some(TipResponse::EditRejected) => BeginCandidateStep::TargetRejected,
        Some(TipResponse::RebindRejected) => BeginCandidateStep::RebindRejected,
        _ => BeginCandidateStep::TryNext,
    }
}

/// The error when no text service began the session before the deadline.
pub fn begin_timeout_error(target_rejected: bool) -> (error: TipBeginError)
    ensures
        error == (if target_rejected {
            TipBeginError::Unsupported
        } else {
            TipBeginError::Unavailable
        }),
{
    if target_rejected {
        TipBeginError::Unsupported
    } else {
        TipBeginError::Unavailable
    }
}

pub open spec fn begin_error_reply(error: TipBeginError) -> InjectorResponse {
    match error {
        TipBeginError::Unsupported => InjectorResponse::TargetUnsupported,
        TipBeginError::RebindRejected => InjectorResponse::TargetModified,
        TipBeginError::Unavailable => InjectorResponse::TsfUnavailable,
    }
}

/// The injector's reply when a session could not begin in a text service.
pub fn begin_error_response(error: TipBeginError) -> (reply: InjectorResponse)
    ensures
        reply == begin_error_reply(error),
{
    match error {
        TipBeginError::Unsupported => InjectorResponse::TargetUnsupported,
        TipBeginError::RebindRejected => InjectorResponse::TargetModified,
        TipBeginError::Unavailable => InjectorResponse::TsfUnavailable,
    }
}

/// How a `BeginSession` request starts, before the target is looked at.
#[derive(Debug, Clone, PartialEq, Eq)]
pub enum BeginStep {
    /// The session is already active; answer `SessionBegun` with the
    /// target's title.
    AlreadyActive,
    /// The session already finished; answer with its final snapshot.
    Respond(InjectorResponse),
    /// Another session is active and was not named for replacement.
    Reject,
    /// End the active session, then start this one.
    ReplaceThenStart,
    /// Start this session.
    Start,
}

pub open spec fn begin_precheck_spec(
    active_id: Option<Seq<char>>,
    completed: Option<CompletedSession>,
    session_id: Seq<char>,
    replaces: Option<Seq<char>>,
) -> BeginStep {
    if active_id == Some(session_id) {
        BeginStep::AlreadyActive
    } else if completed is Some && completed->0.id@ == session_id {
        BeginStep::Respond(
            InjectorResponse::SessionFinished {
                session_id: completed->0.id,
                sequence: completed->0.sequence,
                full_text: completed->0.text,
            },
        )
    } else {
        match active_id {
            None => BeginStep::Start,
            Some(active) => if replaces == Some(active) {
                BeginStep::ReplaceThenStart
            } else {
                BeginStep::Reject
            },
        }
    }
}

/// Decides how a `BeginSession` for `session_id` starts, given the active
/// session, the last completed one, and the session the request replaces.
pub fn begin_precheck(
    active_id: Option<&str>,
    completed: Option<&CompletedSession>,
    session_id: &str,
    replaces: Option<&str>,
) -> (step: BeginStep)
    ensures
        step == begin_precheck_spec(
            match active_id {
                Some(s) => Some(s@),
                None => None,
            },
            match completed {
                Some(c) => Some(*c),
                None => None,
            },
            session_id@,
            match replaces {
                Some(s) => Some(s@),
                None => None,
            },
        ),
{
    if let Some(active) = active_id {
        if str_equal(active, session_id) {
            return BeginStep::AlreadyActive;
        }
    }
    if let Some(finished) = completed {
        if str_equal(finished.id.as_str(), session_id) {
            return BeginStep::Respond(
                InjectorResponse::SessionFinished {
                    session_id: finished.id.clone(),
                    sequence: finished.sequence,
                    full_text: finished.text.clone(),
                },
            );
        }
    }
    match active_id {
        None => BeginStep::Start,
        Some(active) => match replaces {
            Some(replaced) => if str_equal(replaced, active) {
                BeginStep::ReplaceThenStart
            } else {
                BeginStep::Reject
            },
            None => BeginStep::Reject,
        },
    }
}

/// The search for a text service that begins a session: the candidates are
/// asked in turn, pass after pass, until one begins it, one refuses to drop
/// another session, or the time is up.
#[derive(Debug, Clone, Copy, PartialEq, Eq, Structural)]
pub struct BeginSearch {
    /// Whether some text service was reached but its target had no usable focus.
    pub target_rejected: bool,
}

/// What a search does after one answer.
#[derive(Debug, Clone, Copy, PartialEq, Eq, Structural)]
pub enum SearchStep {
    /// Ask the next candidate.
    Continue,
    /// This candidate began the session.
    Found(TipKey),
    /// Give up with this error.
    Fail(TipBeginError),
}

impl BeginSearch {
    pub fn new() -> (search: Self)
        ensures
            !search.target_rejected,
    {
        BeginSearch { target_rejected: false }
    }

    /// Takes the answer of the candidate `key` to `Begin` (`None` for a
    /// failed or timed-out exchange).
    pub fn observe(&mut self, key: TipKey, session_id: &str, response: Option<&TipResponse>) -> (step: SearchStep)
        ensures
            match begin_candidate_spec(
                session_id@,
                match response {
                    Some(r) => Some(*r),
                    None => None,
                },
            ) {
                BeginCandidateStep::Accept => step == SearchStep::Found(key) && *final(self) == *old(self),
                BeginCandidateStep::RebindRejected => step == SearchStep::Fail(TipBeginError::RebindRejected)
                    && *final(self) == *old(self),
                BeginCandidateStep::TargetRejected => step == SearchStep::Continue && final(self).target_rejected,
                BeginCandidateStep::TryNext => step == SearchStep::Continue && *final(self) == *old(self),
            },
    {
        match begin_candidate_step(session_id, response) {
            BeginCandidateStep::Accept => SearchStep::Found(key),
            BeginCandidateStep::RebindRejected => SearchStep::Fail(TipBeginError::RebindRejected),
            BeginCandidateStep::TargetRejected => {
                self.target_rejected = true;
                SearchStep::Continue
            },
            BeginCandidateStep::TryNext => SearchStep::Continue,
        }
    }

    /// At the end of a pass: past the deadline the search fails, as
    /// unsupported when some target refused, as unavailable otherwise;
    /// before it, another pass follows.
    pub fn end_of_pass(&self, deadline_passed: bool) -> (failure: Option<TipBeginError>)
        ensures
            !deadline_passed ==> failure is None,
            deadline_passed ==> failure == Some(
                if self.target_rejected {
                    TipBeginError::Unsupported
                } else {
                    TipBeginError::Unavailable
                },
            ),
    {
        if deadline_passed {
            Some(begin_timeout_error(self.target_rejected))
        } else {
            None
        }
    }
}

} // verus!
