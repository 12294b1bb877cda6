//! Which phones are connected, which one the status line shows, and the
//! "switch to this computer" request sent to a phone.
use vstd::prelude::*;

use crate::protocol::SwitchAck;
use crate::text::str_equal;

verus! {

/// An authenticated connection of a phone.
#[derive(Debug, Clone, PartialEq, Eq)]
pub struct OnlineConnection {
    pub phone_id: String,
    pub phone_name: String,
    /// Whether the connection only probes targets.
    pub is_probe: bool,
}

/// The contents of an `OnlineConnection`.
pub struct OnlineRecord {
    pub phone_id: Seq<char>,
    pub phone_name: Seq<char>,
    pub is_probe: bool,
}

pub open spec fn online_record(c: OnlineConnection) -> OnlineRecord {
    OnlineRecord { phone_id: c.phone_id@, phone_name: c.phone_name@, is_probe: c.is_probe }
}

pub open spec fn online_view(entries: Seq<(u64, OnlineConnection)>) -> Seq<(u64, OnlineRecord)> {
    entries.map_values(|e: (u64, OnlineConnection)| (e.0, online_record(e.1)))
}

pub open spec fn distinct_connections(entries: Seq<(u64, OnlineRecord)>) -> bool {
    forall|i: int, j: int|
        0 <= i < entries.len() && 0 <= j < entries.len() && i != j ==> #[trigger] entries[i].0
            != #[trigger] entries[j].0
}

pub open spec fn has_connection(entries: Seq<(u64, OnlineRecord)>, id: u64) -> bool {
    exists|i: int| 0 <= i < entries.len() && #[trigger] entries[i].0 == id
}

pub open spec fn connection_record(entries: Seq<(u64, OnlineRecord)>, id: u64) -> Option<OnlineRecord> {
    if has_connection(entries, id) {
        Some(entries[choose|i: int| 0 <= i < entries.len() && #[trigger] entries[i].0 == id].1)
    } else {
        None
    }
}

/// The connections after storing `record` under `id`.
pub open spec fn with_connection(entries: Seq<(u64, OnlineRecord)>, id: u64, record: OnlineRecord) -> Seq<
    (u64, OnlineRecord),
> {
    if has_connection(entries, id) {
        entries.update(choose|i: int| 0 <= i < entries.len() && #[trigger] entries[i].0 == id, (id, record))
    } else {
        entries.push((id, record))
    }
}

pub open spec fn without_connection(entries: Seq<(u64, OnlineRecord)>, id: u64) -> Seq<(u64, OnlineRecord)> {
    if has_connection(entries, id) {
        entries.remove(choose|i: int| 0 <= i < entries.len() && #[trigger] entries[i].0 == id)
    } else {
        entries
    }
}

/// Entry `i` is the one the status line shows: the newest connection that
/// does not only probe, or, when all of them probe, the newest of all.
pub open spec fn is_shown(entries: Seq<(u64, OnlineRecord)>, i: int) -> bool {
    let any_real = exists|j: int| 0 <= j < entries.len() && !(#[trigger] entries[j]).1.is_probe;
    &&& 0 <= i < entries.len()
    &&& if any_real {
        &&& !entries[i].1.is_probe
        &&& forall|j: int| 0 <= j < entries.len() && !(#[trigger] entries[j]).1.is_probe ==> entries[j].0 <= entries[i].0
    } else {
        forall|j: int| 0 <= j < entries.len() ==> (#[trigger] entries[j]).0 <= entries[i].0
    }
}

/// The authenticated connections, by connection id.
pub struct OnlineConnections {
    entries: Vec<(u64, OnlineConnection)>,
}

impl View for OnlineConnections {
    type V = Seq<(u64, OnlineRecord)>;

    closed spec fn view(&self) -> Seq<(u64, OnlineRecord)> {
        online_view(self.entries@)
    }
}

proof fn lemma_connection_at(entries: Seq<(u64, OnlineRecord)>, i: int)
    requires
        distinct_connections(entries),
        0 <= i < entries.len(),
    ensures
        connection_record(entries, entries[i].0) == Some(entries[i].1),
        with_connection(entries, entries[i].0, entries[i].1) == entries,
        forall|r: OnlineRecord| with_connection(entries, entries[i].0, r) == entries.update(i, (entries[i].0, r)),
        without_connection(entries, entries[i].0) == entries.remove(i),
{
    let id = entries[i].0;
    assert(has_connection(entries, id));
    let j = choose|j: int| 0 <= j < entries.len() && #[trigger] entries[j].0 == id;
    if j != i {
        assert(entries[j].0 != entries[i].0);
    }
    assert(entries.update(i, (id, entries[i].1)) =~= entries);
}

fn find_connection(entries: &Vec<(u64, OnlineConnection)>, id: u64) -> (index: Option<usize>)
    ensures
        match index {
            Some(i) => i < entries@.len() && online_view(entries@)[i as int].0 == id,
            None => !has_connection(online_view(entries@), id),
        },
{
    let mut index: usize = 0;
    while index < entries.len()
        invariant
            index <= entries@.len(),
            forall|i: int| 0 <= i < index ==> online_view(entries@)[i].0 != id,
        decreases entries.len() - index,
    {
        if entries[index].0 == id {
            return Some(index);
        }
        index += 1;
    }
    None
}

impl OnlineConnections {
    #[verifier::type_invariant]
    spec fn well_formed(self) -> bool {
        distinct_connections(online_view(self.entries@))
    }

    pub fn new() -> (connections: Self)
        ensures
            connections@ == Seq::<(u64, OnlineRecord)>::empty(),
    {
        let connections = OnlineConnections { entries: Vec::new() };
        proof {
            assert(connections@ =~= Seq::<(u64, OnlineRecord)>::empty());
        }
        connections
    }

    fn position(&self, id: u64) -> (index: Option<usize>)
        ensures
            match index {
                Some(i) => i < self@.len() && self@[i as int].0 == id,
                None => !has_connection(self@, id),
            },
    {
        let mut index: usize = 0;
        while index < self.entries.len()
            invariant
                index <= self.entries@.len(),
                forall|i: int| 0 <= i < index ==> self@[i].0 != id,
            decreases self.entries.len() - index,
        {
            if self.entries[index].0 == id {
                return Some(index);
            }
            index += 1;
        }
        None
    }

    /// The connection with this id.
    pub fn get(&self, id: u64) -> (connection: Option<&OnlineConnection>)
        ensures
            match connection {
                Some(c) => connection_record(self@, id) == Some(online_record(*c)),
                None => connection_record(self@, id) is None,
            },
    {
        proof {
            use_type_invariant(self);
        }
        match self.position(id) {
            Some(index) => {
                proof {
                    lemma_connection_at(self@, index as int);
                }
                Some(&self.entries[index].1)
            },
            None => None,
        }
    }

    /// Records an authenticated connection that carries input.
    pub fn mark_online(&mut self, id: u64, phone_id: &str, phone_name: &str)
        ensures
            final(self)@ == with_connection(
                old(self)@,
                id,
                OnlineRecord { phone_id: phone_id@, phone_name: phone_name@, is_probe: false },
            ),
    {
        proof {
            use_type_invariant(&*self);
        }
        let record = OnlineConnection { phone_id: phone_id.to_owned(), phone_name: phone_name.to_owned(), is_probe: false };
        let mut entries: Vec<(u64, OnlineConnection)> = Vec::new();
        std::mem::swap(&mut entries, &mut self.entries);
        let ghost q = online_view(entries@);
        let found = find_connection(&entries, id);
        if let Some(index) = found {
            proof {
                lemma_connection_at(q, index as int);
            }
            entries.set(index, (id, record));
            proof {
                assert(online_view(entries@) =~= q.update(index as int, (id, online_record(record))));
                assert(distinct_connections(online_view(entries@)));
            }
        } else {
            entries.push((id, record));
            proof {
                assert(online_view(entries@) =~= q.push((id, online_record(record))));
                assert forall|a: int, b: int|
                    0 <= a < online_view(entries@).len() && 0 <= b < online_view(entries@).len() && a
                        != b implies #[trigger] online_view(entries@)[a].0 != #[trigger] online_view(
                    entries@,
                )[b].0 by {
                    if a == q.len() {
                        assert(online_view(entries@)[b] == q[b]);
                    } else if b == q.len() {
                        assert(online_view(entries@)[a] == q[a]);
                    } else {
                        assert(online_view(entries@)[a] == q[a]);
                        assert(online_view(entries@)[b] == q[b]);
                    }
                }
            }
        }
        self.entries = entries;
    }

    /// Marks a connection as one that only probes; reports whether that
    /// changed anything.
    pub fn mark_probe(&mut self, id: u64) -> (changed: bool)
        ensures
            changed == (connection_record(old(self)@, id) matches Some(r) && !r.is_probe),
            changed ==> final(self)@ == with_connection(
                old(self)@,
                id,
                OnlineRecord { is_probe: true, ..connection_record(old(self)@, id)->Some_0 },
            ),
            !changed ==> final(self)@ == old(self)@,
    {
        proof {
            use_type_invariant(&*self);
        }
        let index = match self.position(id) {
            Some(i) => i,
            None => return false,
        };
        if self.entries[index].1.is_probe {
            proof {
                lemma_connection_at(self@, index as int);
            }
            return false;
        }
        let mut entries: Vec<(u64, OnlineConnection)> = Vec::new();
        std::mem::swap(&mut entries, &mut self.entries);
        let ghost q = online_view(entries@);
        proof {
            lemma_connection_at(q, index as int);
        }
        let (key, old_connection) = entries.remove(index);
        let connection = OnlineConnection { is_probe: true, ..old_connection };
        entries.insert(index, (key, connection));
        proof {
            assert(online_view(entries@) =~= q.update(index as int, (id, online_record(connection))));
            assert(distinct_connections(online_view(entries@)));
        }
        self.entries = entries;
        true
    }

    /// Forgets a connection that ended; reports whether it was recorded.
    pub fn clear(&mut self, id: u64) -> (removed: bool)
        ensures
            removed == has_connection(old(self)@, id),
            final(self)@ == without_connection(old(self)@, id),
    {
        proof {
            use_type_invariant(&*self);
        }
        let index = match self.position(id) {
            Some(i) => i,
            None => return false,
        };
        let mut entries: Vec<(u64, OnlineConnection)> = Vec::new();
        std::mem::swap(&mut entries, &mut self.entries);
        let ghost q = online_view(entries@);
        proof {
            lemma_connection_at(q, index as int);
        }
        entries.remove(index);
        proof {
            assert(online_view(entries@) =~= q.remove(index as int));
            assert forall|a: int, b: int|
                0 <= a < online_view(entries@).len() && 0 <= b < online_view(entries@).len() && a
                    != b implies #[trigger] online_view(entries@)[a].0 != #[trigger] online_view(
                entries@,
            )[b].0 by {
                let a0 = if a < index { a } else { a + 1 };
                let b0 = if b < index { b } else { b + 1 };
                assert(online_view(entries@)[a] == q[a0]);
                assert(online_view(entries@)[b] == q[b0]);
            }
        }
        self.entries = entries;
        true
    }

    /// The phone the status line shows, as id and name: that of the newest
    /// connection that does not only probe, else of the newest connection.
    pub fn shown_phone(&self) -> (phone: Option<(String, String)>)
        ensures
            match phone {
                None => self@.len() == 0,
                Some((id, name)) => exists|i: int| is_shown(self@, i) && self@[i].1.phone_id == id@
                    && self@[i].1.phone_name == name@,
            },
    {
        let mut best_real: Option<usize> = None;
        let mut best_any: Option<usize> = None;
        let mut index: usize = 0;
        while index < self.entries.len()
            invariant
                index <= self@.len(),
                self@.len() == self.entries@.len(),
                match best_any {
                    None => index == 0,
                    Some(b) => b < index && forall|j: int| 0 <= j < index ==> self@[j].0 <= self@[b as int].0,
                },
                match best_real {
                    None => forall|j: int| 0 <= j < index ==> (#[trigger] self@[j]).1.is_probe,
                    Some(b) => b < index && !self@[b as int].1.is_probe && forall|j: int|
                        0 <= j < index && !(#[trigger] self@[j]).1.is_probe ==> self@[j].0 <= self@[b as int].0,
                },
            decreases self.entries.len() - index,
        {
            let id = self.entries[index].0;
            match best_any {
                Some(b) => {
                    if self.entries[b].0 < id {
                        best_any = Some(index);
                    }
                },
                None => {
                    best_any = Some(index);
                },
            }
            if !self.entries[index].1.is_probe {
                match best_real {
                    Some(b) => {
                        if self.entries[b].0 < id {
                            best_real = Some(index);
                        }
                    },
                    None => {
                        best_real = Some(index);
                    },
                }
            }
            index += 1;
        }
        let chosen = match best_real {
            Some(b) => b,
            None => match best_any {
                Some(b) => b,
                None => return None,
            },
        };
        proof {
            assert(is_shown(self@, chosen as int));
        }
        let connection = &self.entries[chosen].1;
        Some((connection.phone_id.clone(), connection.phone_name.clone()))
    }
}

/// A phone connection able to receive a switch request.
#[derive(Debug, Clone, Copy, PartialEq, Eq, Structural)]
pub struct SwitchChannel {
    pub connection_id: u64,
    /// Whether the connection is a control connection.
    pub is_control: bool,
    /// Whether the phone answers switch requests with an acknowledgement.
    pub supports_switch_ack: bool,
}

/// Whether a channel may carry a switch request: a control connection, or
/// one that carries input.
pub open spec fn eligible(channel: SwitchChannel, online: Seq<(u64, OnlineRecord)>) -> bool {
    channel.is_control || (connection_record(online, channel.connection_id) matches Some(r) && !r.is_probe)
}

/// The channel a switch request goes to: that of the connection holding the
/// input where it has one; otherwise the newest eligible channel.
pub open spec fn is_switch_target(
    target: Option<u64>,
    preferred: Option<u64>,
    channels: Seq<SwitchChannel>,
    online: Seq<(u64, OnlineRecord)>,
) -> bool {
    let has_preferred = preferred matches Some(p) && exists|i: int|
        0 <= i < channels.len() && (#[trigger] channels[i]).connection_id == p;
    if has_preferred {
        target == preferred
    } else {
        match target {
            None => forall|i: int| 0 <= i < channels.len() ==> !eligible(#[trigger] channels[i], online),
            Some(id) => exists|i: int|
                0 <= i < channels.len() && (#[trigger] channels[i]).connection_id == id && eligible(
                    channels[i],
                    online,
                ) && forall|j: int|
                    0 <= j < channels.len() && eligible(#[trigger] channels[j], online)
                        ==> channels[j].connection_id <= id,
        }
    }
}

/// Picks the connection a switch request is sent to.
pub fn switch_target(preferred: Option<u64>, channels: &Vec<SwitchChannel>, online: &OnlineConnections) -> (target: Option<u64>)
    ensures
        is_switch_target(target, preferred, channels@, online@),
{
    if let Some(p) = preferred {
        let mut i: usize = 0;
        while i < channels.len()
            invariant
                preferred == Some(p),
                i <= channels@.len(),
                forall|k: int| 0 <= k < i ==> channels@[k].connection_id != p,
            decreases channels.len() - i,
        {
            if channels[i].connection_id == p {
                proof {
                    assert(channels@[i as int].connection_id == p);
                }
                return Some(p);
            }
            i += 1;
        }
    }
    let mut best: Option<usize> = None;
    let mut i: usize = 0;
    while i < channels.len()
        invariant
            i <= channels@.len(),
            match best {
                None => forall|k: int| 0 <= k < i ==> !eligible(#[trigger] channels@[k], online@),
                Some(b) => b < i && eligible(channels@[b as int], online@) && forall|k: int|
                    0 <= k < i && eligible(#[trigger] channels@[k], online@) ==> channels@[k].connection_id
                        <= channels@[b as int].connection_id,
            },
        decreases channels.len() - i,
    {
        let channel = channels[i];
        let ok = channel.is_control || match online.get(channel.connection_id) {
            Some(c) => !c.is_probe,
            None => false,
        };
        if ok {
            match best {
                Some(b) => {
                    if channels[b].connection_id < channel.connection_id {
                        best = Some(i);
                    }
                },
                None => {
                    best = Some(i);
                },
            }
        }
        i += 1;
    }
    match best {
        Some(b) => Some(channels[b].connection_id),
        None => None,
    }
}

/// A switch request that waits for the phone's acknowledgement.
#[derive(Debug, Clone, PartialEq, Eq)]
pub struct PendingSwitch {
    pub pc_id: String,
    pub request_id: String,
}

/// How handing a switch request to the phone's connection went.
#[derive(Debug, Clone, Copy, PartialEq, Eq, Structural)]
pub enum SwitchDelivery {
    /// The request is queued on the connection.
    Sent,
    /// The connection already has requests queued.
    Full,
    /// The connection is gone.
    Closed,
}

/// What the status line says about a switch request.
#[derive(Debug, Clone, Copy, PartialEq, Eq, Structural)]
pub enum SwitchNote {
    PhoneNotConnected,
    AlreadyPending,
    PhoneDidNotRespond,
    RequestSent,
    Switching,
    Switched,
    NotPairedOnPhone,
}

/// After handing a request to a connection: a phone that acknowledges
/// switches has the request recorded as pending; the note follows the
/// delivery. Reports, with the note, whether the channel is to be dropped.
pub fn after_switch_delivery(
    delivery: SwitchDelivery,
    supports_switch_ack: bool,
    pc_id: &str,
    request_id: &str,
    pending: &mut Option<PendingSwitch>,
) -> (result: (SwitchNote, bool))
    ensures
        match delivery {
            SwitchDelivery::Full => result == (SwitchNote::AlreadyPending, false) && *final(pending)
                == *old(pending),
            SwitchDelivery::Closed => result == (SwitchNote::PhoneDidNotRespond, true) && *final(pending)
                == *old(pending),
            SwitchDelivery::Sent => if supports_switch_ack {
                result == (SwitchNote::Switching, false) && (*final(pending) matches Some(p) && p.pc_id@
                    == pc_id@ && p.request_id@ == request_id@)
            } else {
                result == (SwitchNote::RequestSent, false) && *final(pending) == *old(pending)
            },
        },
{
    match delivery {
        SwitchDelivery::Full => (SwitchNote::AlreadyPending, false),
        SwitchDelivery::Closed => (SwitchNote::PhoneDidNotRespond, true),
        SwitchDelivery::Sent => {
            if supports_switch_ack {
                *pending = Some(PendingSwitch { pc_id: pc_id.to_owned(), request_id: request_id.to_owned() });
                (SwitchNote::Switching, false)
            } else {
                (SwitchNote::RequestSent, false)
            }
        },
    }
}

pub open spec fn answers(pending: Option<PendingSwitch>, ack: SwitchAck) -> bool {
    pending matches Some(p) && p.request_id@ == ack.request_id@ && p.pc_id@ == ack.pc_id@
}

/// Matches a phone's acknowledgement against the pending request: when it
/// answers it, the request is no longer pending and the note says whether
/// the phone switched.
pub fn acknowledge_switch(pending: &mut Option<PendingSwitch>, ack: &SwitchAck) -> (note: Option<SwitchNote>)
    ensures
        answers(*old(pending), *ack) ==> *final(pending) is None && note == Some(
            if ack.accepted {
                SwitchNote::Switched
            } else {
                SwitchNote::NotPairedOnPhone
            },
        ),
        !answers(*old(pending), *ack) ==> *final(pending) == *old(pending) && note is None,
{
    let matched = match pending {
        Some(p) => str_equal(p.request_id.as_str(), ack.request_id.as_str()) && str_equal(
            p.pc_id.as_str(),
            ack.pc_id.as_str(),
        ),
        None => false,
    };
    if matched {
        *pending = None;
        Some(
            if ack.accepted {
                SwitchNote::Switched
            } else {
                SwitchNote::NotPairedOnPhone
            },
        )
    } else {
        None
    }
}

/// When the acknowledgement did not come in time: the request is dropped
/// if it is still the pending one. Reports whether it was.
pub fn expire_switch(pending: &mut Option<PendingSwitch>, request_id: &str) -> (expired: bool)
    ensures
        expired == (*old(pending) matches Some(p) && p.request_id@ == request_id@),
        expired ==> *final(pending) is None,
        !expired ==> *final(pending) == *old(pending),
{
    let matched = match pending {
        Some(p) => str_equal(p.request_id.as_str(), request_id),
        None => false,
    };
    if matched {
        *pending = None;
    }
    matched
}

} // verus!
