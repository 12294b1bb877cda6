//! Per-peer admission of new connections: at most eight open connections
//! and thirty attempts a minute from one address, in a table of at most
//! 1024 addresses.
use vstd::prelude::*;

verus! {

/// Open connections allowed from one address.
pub const MAX_CONNECTIONS_PER_IP: usize = 8;

/// Connection attempts allowed from one address within the rate window.
pub const MAX_CONNECTION_ATTEMPTS_PER_MINUTE: usize = 30;

/// Addresses the table keeps at most.
pub const MAX_PEER_LIMIT_ENTRIES: usize = 1024;

/// The rate window, in milliseconds.
pub const CONNECTION_RATE_WINDOW_MS: u64 = 60000;

/// A peer address: IPv4 addresses in the low 32 bits, IPv6 in all 128.
#[derive(Debug, Clone, Copy, PartialEq, Eq, Structural)]
pub struct PeerAddress {
    pub is_v6: bool,
    pub bits: u128,
}

/// What the table records of one address.
pub struct PeerConnectionState {
    /// Connections admitted and not yet released.
    pub active: usize,
    /// Times (ms) of admitted connections within the window, oldest first.
    pub attempts: Vec<u64>,
    /// Time (ms) of the last connection attempt.
    pub last_seen: u64,
}

/// The contents of a `PeerConnectionState`.
pub struct PeerRecord {
    pub active: nat,
    pub attempts: Seq<u64>,
    pub last_seen: u64,
}

pub open spec fn peer_record(state: PeerConnectionState) -> PeerRecord {
    PeerRecord { active: state.active as nat, attempts: state.attempts@, last_seen: state.last_seen }
}

pub open spec fn peers_view(peers: Seq<(PeerAddress, PeerConnectionState)>) -> Seq<(PeerAddress, PeerRecord)> {
    peers.map_values(|e: (PeerAddress, PeerConnectionState)| (e.0, peer_record(e.1)))
}

pub open spec fn distinct_peers(entries: Seq<(PeerAddress, PeerRecord)>) -> bool {
    forall|i: int, j: int|
        0 <= i < entries.len() && 0 <= j < entries.len() && i != j ==> #[trigger] entries[i].0
            != #[trigger] entries[j].0
}

/// Every address stays within its limits.
pub open spec fn within_limits(entries: Seq<(PeerAddress, PeerRecord)>) -> bool {
    &&& entries.len() <= MAX_PEER_LIMIT_ENTRIES
    &&& forall|i: int|
        0 <= i < entries.len() ==> (#[trigger] entries[i]).1.active <= MAX_CONNECTIONS_PER_IP
            && entries[i].1.attempts.len() <= MAX_CONNECTION_ATTEMPTS_PER_MINUTE
}

/// The admission table.
pub struct ConnectionLimiter {
    peers: Vec<(PeerAddress, PeerConnectionState)>,
}

impl View for ConnectionLimiter {
    type V = Seq<(PeerAddress, PeerRecord)>;

    closed spec fn view(&self) -> Seq<(PeerAddress, PeerRecord)> {
        peers_view(self.peers@)
    }
}

/// Milliseconds from `earlier` to `now`, or zero when `earlier` is later.
pub open spec fn elapsed(now: u64, earlier: u64) -> int {
    if now >= earlier {
        now - earlier
    } else {
        0
    }
}

/// An address worth keeping when the table is full: it has open
/// connections, or was seen within the window.
pub open spec fn worth_keeping(record: PeerRecord, now: u64) -> bool {
    record.active > 0 || elapsed(now, record.last_seen) < CONNECTION_RATE_WINDOW_MS
}

/// The entries worth keeping, in order.
pub open spec fn kept(entries: Seq<(PeerAddress, PeerRecord)>, now: u64) -> Seq<(PeerAddress, PeerRecord)>
    decreases entries.len(),
{
    if entries.len() == 0 {
        entries
    } else if worth_keeping(entries.last().1, now) {
        kept(entries.drop_last(), now).push(entries.last())
    } else {
        kept(entries.drop_last(), now)
    }
}

/// The attempts still within the window: expired ones are dropped from the
/// front until the oldest is recent.
pub open spec fn recent_attempts(attempts: Seq<u64>, now: u64) -> Seq<u64>
    decreases attempts.len(),
{
    if attempts.len() > 0 && elapsed(now, attempts[0]) >= CONNECTION_RATE_WINDOW_MS {
        recent_attempts(attempts.drop_first(), now)
    } else {
        attempts
    }
}

pub open spec fn has_peer(entries: Seq<(PeerAddress, PeerRecord)>, peer: PeerAddress) -> bool {
    exists|i: int| 0 <= i < entries.len() && #[trigger] entries[i].0 == peer
}

pub open spec fn record_at(entries: Seq<(PeerAddress, PeerRecord)>, peer: PeerAddress) -> Option<PeerRecord> {
    if has_peer(entries, peer) {
        Some(entries[choose|i: int| 0 <= i < entries.len() && #[trigger] entries[i].0 == peer].1)
    } else {
        None
    }
}

pub open spec fn put(entries: Seq<(PeerAddress, PeerRecord)>, peer: PeerAddress, record: PeerRecord) -> Seq<
    (PeerAddress, PeerRecord),
> {
    if has_peer(entries, peer) {
        entries.update(choose|i: int| 0 <= i < entries.len() && #[trigger] entries[i].0 == peer, (peer, record))
    } else {
        entries.push((peer, record))
    }
}

/// The table after the pruning that a full table gets.
pub open spec fn pruned(entries: Seq<(PeerAddress, PeerRecord)>, now: u64) -> Seq<(PeerAddress, PeerRecord)> {
    if entries.len() >= MAX_PEER_LIMIT_ENTRIES {
        kept(entries, now)
    } else {
        entries
    }
}

/// The record of `peer` after the window is advanced to `now`.
pub open spec fn refreshed(entries: Seq<(PeerAddress, PeerRecord)>, peer: PeerAddress, now: u64) -> PeerRecord {
    match record_at(entries, peer) {
        Some(r) => PeerRecord { active: r.active, attempts: recent_attempts(r.attempts, now), last_seen: now },
        None => PeerRecord { active: 0, attempts: Seq::empty(), last_seen: now },
    }
}

/// Whether `try_acquire(peer, now)` admits the connection.
pub open spec fn admits(entries: Seq<(PeerAddress, PeerRecord)>, peer: PeerAddress, now: u64) -> bool {
    let p = pruned(entries, now);
    let r = refreshed(p, peer, now);
    !(p.len() >= MAX_PEER_LIMIT_ENTRIES && !has_peer(p, peer)) && r.active < MAX_CONNECTIONS_PER_IP
        && r.attempts.len() < MAX_CONNECTION_ATTEMPTS_PER_MINUTE
}

/// The table after `try_acquire(peer, now)`.
pub open spec fn after_acquire(entries: Seq<(PeerAddress, PeerRecord)>, peer: PeerAddress, now: u64) -> Seq<
    (PeerAddress, PeerRecord),
> {
    let p = pruned(entries, now);
    let r = refreshed(p, peer, now);
    if p.len() >= MAX_PEER_LIMIT_ENTRIES && !has_peer(p, peer) {
        p
    } else if admits(entries, peer, now) {
        put(p, peer, PeerRecord { active: r.active + 1, attempts: r.attempts.push(now), last_seen: now })
    } else {
        put(p, peer, r)
    }
}

/// The table after the release of one connection of `peer`.
pub open spec fn after_release(entries: Seq<(PeerAddress, PeerRecord)>, peer: PeerAddress) -> Seq<
    (PeerAddress, PeerRecord),
> {
    match record_at(entries, peer) {
        Some(r) => put(
            entries,
            peer,
            PeerRecord { active: if r.active > 0 { (r.active - 1) as nat } else { 0 }, ..r },
        ),
        None => entries,
    }
}

/// `now.saturating_sub(earlier)`.
pub fn elapsed_ms(now: u64, earlier: u64) -> (ms: u64)
    ensures
        ms == elapsed(now, earlier),
{
    if now >= earlier {
        now - earlier
    } else {
        0
    }
}

proof fn lemma_record_at_index(entries: Seq<(PeerAddress, PeerRecord)>, i: int)
    requires
        distinct_peers(entries),
        0 <= i < entries.len(),
    ensures
        record_at(entries, entries[i].0) == Some(entries[i].1),
        put(entries, entries[i].0, entries[i].1) == entries,
{
    let peer = entries[i].0;
    assert(has_peer(entries, peer));
    let j = choose|j: int| 0 <= j < entries.len() && #[trigger] entries[j].0 == peer;
    if j != i {
        assert(entries[j].0 != entries[i].0);
    }
    assert(entries.update(i, (peer, entries[i].1)) =~= entries);
}

proof fn lemma_put_index(entries: Seq<(PeerAddress, PeerRecord)>, i: int, record: PeerRecord)
    requires
        distinct_peers(entries),
        0 <= i < entries.len(),
    ensures
        put(entries, entries[i].0, record) == entries.update(i, (entries[i].0, record)),
{
    let peer = entries[i].0;
    assert(has_peer(entries, peer));
    let j = choose|j: int| 0 <= j < entries.len() && #[trigger] entries[j].0 == peer;
    if j != i {
        assert(entries[j].0 != entries[i].0);
    }
}

proof fn lemma_kept(entries: Seq<(PeerAddress, PeerRecord)>, now: u64)
    ensures
        kept(entries, now).len() <= entries.len(),
        forall|k: int|
            0 <= k < kept(entries, now).len() ==> exists|i: int|
                0 <= i < entries.len() && entries[i] == #[trigger] kept(entries, now)[k],
        distinct_peers(entries) ==> distinct_peers(kept(entries, now)),
        forall|k: int| 0 <= k < kept(entries, now).len() ==> worth_keeping(#[trigger] kept(entries, now)[k].1, now),
    decreases entries.len(),
{
    if entries.len() > 0 {
        let init = entries.drop_last();
        lemma_kept(init, now);
        let rest = kept(init, now);
        assert forall|k: int| 0 <= k < kept(entries, now).len() implies exists|i: int|
            0 <= i < entries.len() && entries[i] == #[trigger] kept(entries, now)[k] by {
            if k < rest.len() {
                let i = choose|i: int| 0 <= i < init.len() && init[i] == rest[k];
                assert(entries[i] == init[i]);
            } else {
                assert(entries[entries.len() - 1] == kept(entries, now)[k]);
            }
        }
        if distinct_peers(entries) {
            assert(distinct_peers(init));
            if worth_keeping(entries.last().1, now) {
                let out = kept(entries, now);
                assert forall|a: int, b: int|
                    0 <= a < out.len() && 0 <= b < out.len() && a != b implies #[trigger] out[a].0
                    != #[trigger] out[b].0 by {
                    if a < rest.len() && b < rest.len() {
                        assert(out[a] == rest[a] && out[b] == rest[b]);
                    } else if a < rest.len() {
                        let i = choose|i: int| 0 <= i < init.len() && init[i] == rest[a];
                        assert(entries[i] == init[i]);
                        assert(i != entries.len() - 1);
                    } else if b < rest.len() {
                        let i = choose|i: int| 0 <= i < init.len() && init[i] == rest[b];
                        assert(entries[i] == init[i]);
                        assert(i != entries.len() - 1);
                    }
                }
            }
        }
    }
}

proof fn lemma_recent_attempts_shrink(attempts: Seq<u64>, now: u64)
    ensures
        recent_attempts(attempts, now).len() <= attempts.len(),
    decreases attempts.len(),
{
    if attempts.len() > 0 && elapsed(now, attempts[0]) >= CONNECTION_RATE_WINDOW_MS {
        lemma_recent_attempts_shrink(attempts.drop_first(), now);
    }
}

fn position_in(peers: &Vec<(PeerAddress, PeerConnectionState)>, peer: PeerAddress) -> (index: Option<usize>)
    ensures
        match index {
            Some(i) => i < peers@.len() && peers_view(peers@)[i as int].0 == peer,
            None => !has_peer(peers_view(peers@), peer),
        },
{
    let mut index: usize = 0;
    while index < peers.len()
        invariant
            index <= peers@.len(),
            forall|i: int| 0 <= i < index ==> peers_view(peers@)[i].0 != peer,
        decreases peers.len() - index,
    {
        if peers[index].0 == peer {
            return Some(index);
        }
        index += 1;
    }
    None
}

/// Keeps the addresses that have an open connection or were seen within
/// the window.
fn prune_peers(peers: Vec<(PeerAddress, PeerConnectionState)>, now: u64) -> (out: Vec<(PeerAddress, PeerConnectionState)>)
    ensures
        peers_view(out@) == kept(peers_view(peers@), now),
{
    let ghost initial = peers_view(peers@);
    let mut kept_peers: Vec<(PeerAddress, PeerConnectionState)> = Vec::new();
    let mut rest = peers;
    let ghost total = rest@.len();
    proof {
        assert(initial.take(0) =~= Seq::<(PeerAddress, PeerRecord)>::empty());
        assert(peers_view(kept_peers@) =~= Seq::<(PeerAddress, PeerRecord)>::empty());
    }
    while rest.len() > 0
        invariant
            rest@.len() <= total,
            total == initial.len(),
            forall|k: int|
                0 <= k < rest@.len() ==> (#[trigger] rest@[k]).0 == initial[total - rest@.len() + k].0
                    && peer_record(rest@[k].1) == initial[total - rest@.len() + k].1,
            peers_view(kept_peers@) == kept(initial.take(total - rest@.len()), now),
        decreases rest.len(),
    {
        let ghost before = rest@;
        let entry = rest.remove(0);
        let ghost done: int = total - rest@.len();
        proof {
            assert forall|k: int| 0 <= k < rest@.len() implies (#[trigger] rest@[k]).0
                == initial[total - rest@.len() + k].0 && peer_record(rest@[k].1)
                == initial[total - rest@.len() + k].1 by {
                assert(rest@[k] == before[k + 1]);
            }
            assert(initial.take(done).drop_last() =~= initial.take(done - 1));
            assert(initial.take(done).last() == (entry.0, peer_record(entry.1))) by {
                assert(entry == before[0]);
            }
        }
        let keep = entry.1.active > 0 || elapsed_ms(now, entry.1.last_seen) < CONNECTION_RATE_WINDOW_MS;
        if keep {
            kept_peers.push(entry);
            proof {
                assert(peers_view(kept_peers@) =~= kept(initial.take(done - 1), now).push(
                    initial.take(done).last(),
                ));
            }
        }
    }
    proof {
        assert(initial.take(total as int) =~= initial);
    }
    kept_peers
}

impl ConnectionLimiter {
    #[verifier::type_invariant]
    spec fn well_formed(self) -> bool {
        &&& distinct_peers(peers_view(self.peers@))
        &&& within_limits(peers_view(self.peers@))
    }

    /// An empty table.
    pub fn new() -> (limiter: Self)
        ensures
            limiter@ == Seq::<(PeerAddress, PeerRecord)>::empty(),
    {
        let limiter = ConnectionLimiter { peers: Vec::new() };
        proof {
            assert(limiter@ =~= Seq::<(PeerAddress, PeerRecord)>::empty());
        }
        limiter
    }

    /// Admits a connection from `peer` at time `now` (ms), or refuses it.
    ///
    /// A full table first drops the addresses worth nothing; if it is still
    /// full, an address it does not know is refused. The known address then
    /// forgets its attempts older than the window and is refused with eight
    /// open connections or thirty recent attempts; otherwise the connection
    /// is counted as open and as an attempt. Either way the table stays
    /// within its limits.
    pub fn try_acquire(&mut self, peer: PeerAddress, now: u64) -> (admitted: bool)
        ensures
            admitted == admits(old(self)@, peer, now),
            final(self)@ == after_acquire(old(self)@, peer, now),
            within_limits(final(self)@),
            distinct_peers(final(self)@),
    {
        proof {
            use_type_invariant(&*self);
        }
        let mut peers: Vec<(PeerAddress, PeerConnectionState)> = Vec::new();
        std::mem::swap(&mut peers, &mut self.peers);
        let ghost start = peers_view(peers@);
        if peers.len() >= MAX_PEER_LIMIT_ENTRIES {
            proof {
                lemma_kept(start, now);
            }
            peers = prune_peers(peers, now);
            if peers.len() >= MAX_PEER_LIMIT_ENTRIES && position_in(&peers, peer).is_none() {
                self.peers = peers;
                return false;
            }
        }
        let ghost p = peers_view(peers@);
        assert(p == pruned(start, now));
        let index = match position_in(&peers, peer) {
            Some(i) => i,
            None => {
                peers.push((peer, PeerConnectionState { active: 0, attempts: Vec::new(), last_seen: now }));
                proof {
                    assert(peers_view(peers@) =~= p.push((peer, PeerRecord { active: 0, attempts: Seq::empty(), last_seen: now })));
                }
                peers.len() - 1
            },
        };
        let ghost q = peers_view(peers@);
        proof {
            lemma_record_at_index(q, index as int);
        }
        let current = &peers[index].1;
        let active = current.active;
        let mut first: usize = 0;
        proof {
            assert(current.attempts@.skip(0) =~= current.attempts@);
        }
        while first < current.attempts.len() && elapsed_ms(now, current.attempts[first]) >= CONNECTION_RATE_WINDOW_MS
            invariant
                first <= current.attempts@.len(),
                recent_attempts(current.attempts@, now) == recent_attempts(
                    current.attempts@.skip(first as int),
                    now,
                ),
            decreases current.attempts.len() - first,
        {
            proof {
                assert(current.attempts@.skip(first as int).drop_first() =~= current.attempts@.skip(
                    first + 1,
                ));
            }
            first += 1;
        }
        let mut attempts: Vec<u64> = Vec::new();
        let mut k: usize = first;
        while k < current.attempts.len()
            invariant
                first <= k <= current.attempts@.len(),
                attempts@ == current.attempts@.subrange(first as int, k as int),
            decreases current.attempts.len() - k,
        {
            attempts.push(current.attempts[k]);
            proof {
                assert(current.attempts@.subrange(first as int, k + 1) =~= current.attempts@.subrange(
                    first as int,
                    k as int,
                ).push(current.attempts@[k as int]));
            }
            k += 1;
        }
        proof {
            assert(attempts@ =~= current.attempts@.skip(first as int));
            lemma_recent_attempts_shrink(current.attempts@, now);
        }
        let admitted = active < MAX_CONNECTIONS_PER_IP && attempts.len() < MAX_CONNECTION_ATTEMPTS_PER_MINUTE;
        let state = if admitted {
            attempts.push(now);
            PeerConnectionState { active: active + 1, attempts, last_seen: now }
        } else {
            PeerConnectionState { active, attempts, last_seen: now }
        };
        proof {
            lemma_put_index(q, index as int, peer_record(state));
        }
        peers.set(index, (peer, state));
        proof {
            assert(peers_view(peers@) =~= q.update(index as int, (peer, peer_record(state))));
        }
        self.peers = peers;
        admitted
    }

    /// Releases one open connection of `peer`.
    pub fn release(&mut self, peer: PeerAddress)
        ensures
            final(self)@ == after_release(old(self)@, peer),
            within_limits(final(self)@),
            distinct_peers(final(self)@),
    {
        proof {
            use_type_invariant(&*self);
        }
        let mut peers: Vec<(PeerAddress, PeerConnectionState)> = Vec::new();
        std::mem::swap(&mut peers, &mut self.peers);
        let ghost q = peers_view(peers@);
        let index = match position_in(&peers, peer) {
            Some(i) => i,
            None => {
                self.peers = peers;
                return;
            },
        };
        proof {
            lemma_record_at_index(q, index as int);
        }
        let (address, state) = peers.remove(index);
        let released = PeerConnectionState {
            active: if state.active > 0 { state.active - 1 } else { 0 },
            attempts: state.attempts,
            last_seen: state.last_seen,
        };
        peers.insert(index, (address, released));
        proof {
            lemma_put_index(q, index as int, peer_record(released));
            assert(peers_view(peers@) =~= q.update(index as int, (peer, peer_record(released))));
        }
        self.peers = peers;
    }
}

/// After any admission decision the table holds at most 1024 addresses,
/// none with more than eight open connections or thirty recent attempts.
pub proof fn law_limits_hold_after_acquire(entries: Seq<(PeerAddress, PeerRecord)>, peer: PeerAddress, now: u64)
    requires
        distinct_peers(entries),
        within_limits(entries),
    ensures
        within_limits(after_acquire(entries, peer, now)),
{
    lemma_kept(entries, now);
    let p = pruned(entries, now);
    let r = refreshed(p, peer, now);
    assert(distinct_peers(p));
    assert(within_limits(p)) by {
        if entries.len() >= MAX_PEER_LIMIT_ENTRIES {
            assert forall|k: int| 0 <= k < p.len() implies (#[trigger] p[k]).1.active <= MAX_CONNECTIONS_PER_IP
                && p[k].1.attempts.len() <= MAX_CONNECTION_ATTEMPTS_PER_MINUTE by {
                let i = choose|i: int| 0 <= i < entries.len() && entries[i] == p[k];
                assert(entries[i] == p[k]);
            }
        }
    }
    if !(p.len() >= MAX_PEER_LIMIT_ENTRIES && !has_peer(p, peer)) {
        let next = if admits(entries, peer, now) {
            PeerRecord { active: r.active + 1, attempts: r.attempts.push(now), last_seen: now }
        } else {
            r
        };
        if has_peer(p, peer) {
            let i = choose|i: int| 0 <= i < p.len() && #[trigger] p[i].0 == peer;
            lemma_record_at_index(p, i);
            lemma_recent_attempts_shrink(p[i].1.attempts, now);
            lemma_put_index(p, i, next);
        }
        let out = put(p, peer, next);
        assert forall|k: int| 0 <= k < out.len() implies (#[trigger] out[k]).1.active <= MAX_CONNECTIONS_PER_IP
            && out[k].1.attempts.len() <= MAX_CONNECTION_ATTEMPTS_PER_MINUTE by {
            if out[k].0 != peer {
                assert(out[k] == p[k]);
            }
        }
    }
}


proof fn lemma_put_then_read(entries: Seq<(PeerAddress, PeerRecord)>, peer: PeerAddress, record: PeerRecord)
    requires
        distinct_peers(entries),
    ensures
        distinct_peers(put(entries, peer, record)),
        record_at(put(entries, peer, record), peer) == Some(record),
{
    let out = put(entries, peer, record);
    if has_peer(entries, peer) {
        let i = choose|i: int| 0 <= i < entries.len() && #[trigger] entries[i].0 == peer;
        assert(out == entries.update(i, (peer, record)));
        assert forall|j: int| 0 <= j < out.len() implies #[trigger] out[j].0 == entries[j].0 by {}
        assert(distinct_peers(out));
        assert(out[i].0 == peer && out[i].1 == record);
        lemma_record_at_index(out, i);
    } else {
        let n = entries.len() as int;
        assert(out == entries.push((peer, record)));
        assert forall|j: int, k: int|
            0 <= j < out.len() && 0 <= k < out.len() && j != k implies #[trigger] out[j].0 != #[trigger] out[k].0 by {
            if j == n {
                assert(out[k] == entries[k]);
            } else if k == n {
                assert(out[j] == entries[j]);
            } else {
                assert(out[j] == entries[j] && out[k] == entries[k]);
            }
        }
        assert(out[n].0 == peer && out[n].1 == record);
        lemma_record_at_index(out, n);
    }
}

/// Releasing the connection that an admission counted gives the address
/// back the number of open connections it had before the admission.
pub proof fn law_release_undoes_admission(entries: Seq<(PeerAddress, PeerRecord)>, peer: PeerAddress, now: u64)
    requires
        distinct_peers(entries),
        admits(entries, peer, now),
    ensures
        record_at(after_release(after_acquire(entries, peer, now), peer), peer) matches Some(r) && r.active
            == (match record_at(pruned(entries, now), peer) {
            Some(q) => q.active,
            None => 0,
        }),
{
    lemma_kept(entries, now);
    let p = pruned(entries, now);
    let r = refreshed(p, peer, now);
    let next = PeerRecord { active: r.active + 1, attempts: r.attempts.push(now), last_seen: now };
    assert(distinct_peers(p));
    lemma_put_then_read(p, peer, next);
    let acquired = after_acquire(entries, peer, now);
    assert(acquired == put(p, peer, next));
    let back = PeerRecord { active: r.active, ..next };
    assert(after_release(acquired, peer) == put(acquired, peer, back));
    lemma_put_then_read(acquired, peer, back);
}

} // verus!
