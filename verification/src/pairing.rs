//! The table of paired phones: one record per phone id, each with the public
//! key the phone signs its connections with.
use vstd::prelude::*;

use crate::text::{lemma_text_less_strict, lemma_text_less_transitive, str_equal, text_less, text_less_than};

verus! {

/// A phone paired with this computer.
#[derive(Debug, Clone, PartialEq, Eq)]
pub struct PairedPhone {
    pub phone_name: String,
    /// Base64 SubjectPublicKeyInfo of the phone's signing key.
    pub public_key_spki: String,
    /// Unix time of the first pairing.
    pub paired_at: u64,
    /// Unix time of the last authenticated connection.
    pub last_connected: Option<u64>,
}

/// The contents of a `PairedPhone`.
pub struct PhoneRecord {
    pub phone_name: Seq<char>,
    pub public_key_spki: Seq<char>,
    pub paired_at: u64,
    pub last_connected: Option<u64>,
}

pub open spec fn record_of(phone: PairedPhone) -> PhoneRecord {
    PhoneRecord {
        phone_name: phone.phone_name@,
        public_key_spki: phone.public_key_spki@,
        paired_at: phone.paired_at,
        last_connected: phone.last_connected,
    }
}

pub open spec fn entry_view(entry: (String, PairedPhone)) -> (Seq<char>, PhoneRecord) {
    (entry.0@, record_of(entry.1))
}

pub open spec fn entries_view(entries: Seq<(String, PairedPhone)>) -> Seq<(Seq<char>, PhoneRecord)> {
    entries.map_values(|e: (String, PairedPhone)| entry_view(e))
}

pub open spec fn distinct_ids(entries: Seq<(Seq<char>, PhoneRecord)>) -> bool {
    forall|i: int, j: int|
        0 <= i < entries.len() && 0 <= j < entries.len() && i != j ==> #[trigger] entries[i].0
            != #[trigger] entries[j].0
}

pub open spec fn has_phone(entries: Seq<(Seq<char>, PhoneRecord)>, id: Seq<char>) -> bool {
    exists|i: int| 0 <= i < entries.len() && #[trigger] entries[i].0 == id
}

/// The record stored under `id`.
pub open spec fn phone_record(entries: Seq<(Seq<char>, PhoneRecord)>, id: Seq<char>) -> Option<
    PhoneRecord,
> {
    if has_phone(entries, id) {
        Some(entries[choose|i: int| 0 <= i < entries.len() && #[trigger] entries[i].0 == id].1)
    } else {
        None
    }
}

pub proof fn lemma_phone_record_at(entries: Seq<(Seq<char>, PhoneRecord)>, i: int)
    requires
        distinct_ids(entries),
        0 <= i < entries.len(),
    ensures
        phone_record(entries, entries[i].0) == Some(entries[i].1),
{
    let id = entries[i].0;
    assert(has_phone(entries, id));
    let j = choose|j: int| 0 <= j < entries.len() && #[trigger] entries[j].0 == id;
    if j != i {
        assert(entries[j].0 != entries[i].0);
    }
}

/// The paired phones, in table order, at most one record per phone id.
pub struct PairedPhoneStore {
    phones: Vec<(String, PairedPhone)>,
}

impl View for PairedPhoneStore {
    type V = Seq<(Seq<char>, PhoneRecord)>;

    closed spec fn view(&self) -> Seq<(Seq<char>, PhoneRecord)> {
        entries_view(self.phones@)
    }
}

/// Why a connection could not be recorded.
#[derive(Debug, Clone, Copy, PartialEq, Eq, Structural)]
pub enum PairingError {
    /// No phone with that id is paired.
    NotPaired,
}

/// The record an upsert leaves for a phone: name, key and connection time
/// are replaced; the pairing time is kept, or set when it was unknown.
pub open spec fn upserted(existing: Option<PhoneRecord>, phone_name: Seq<char>, public_key_spki: Seq<char>, now: u64) -> PhoneRecord {
    match existing {
        Some(old) => PhoneRecord {
            phone_name,
            public_key_spki,
            paired_at: if old.paired_at == 0 {
                now
            } else {
                old.paired_at
            },
            last_connected: Some(now),
        },
        None => PhoneRecord { phone_name, public_key_spki, paired_at: now, last_connected: Some(now) },
    }
}

/// Entries after storing `record` under `id`: in place when the id is
/// present, appended otherwise.
pub open spec fn store_at(entries: Seq<(Seq<char>, PhoneRecord)>, id: Seq<char>, record: PhoneRecord) -> Seq<
    (Seq<char>, PhoneRecord),
> {
    if has_phone(entries, id) {
        entries.update(choose|i: int| 0 <= i < entries.len() && #[trigger] entries[i].0 == id, (id, record))
    } else {
        entries.push((id, record))
    }
}

pub open spec fn remove_id(entries: Seq<(Seq<char>, PhoneRecord)>, id: Seq<char>) -> Seq<
    (Seq<char>, PhoneRecord),
> {
    if has_phone(entries, id) {
        entries.remove(choose|i: int| 0 <= i < entries.len() && #[trigger] entries[i].0 == id)
    } else {
        entries
    }
}

proof fn lemma_choose_is_index(entries: Seq<(Seq<char>, PhoneRecord)>, i: int)
    requires
        distinct_ids(entries),
        0 <= i < entries.len(),
    ensures
        (choose|j: int| 0 <= j < entries.len() && #[trigger] entries[j].0 == entries[i].0) == i,
{
    let id = entries[i].0;
    assert(has_phone(entries, id));
    let j = choose|j: int| 0 <= j < entries.len() && #[trigger] entries[j].0 == id;
    if j != i {
        assert(entries[j].0 != entries[i].0);
    }
}

proof fn lemma_store_keeps_distinct(entries: Seq<(Seq<char>, PhoneRecord)>, id: Seq<char>, record: PhoneRecord)
    requires
        distinct_ids(entries),
    ensures
        distinct_ids(store_at(entries, id, record)),
{
    let after = store_at(entries, id, record);
    if has_phone(entries, id) {
        let k = choose|i: int| 0 <= i < entries.len() && #[trigger] entries[i].0 == id;
        assert forall|i: int, j: int|
            0 <= i < after.len() && 0 <= j < after.len() && i != j implies #[trigger] after[i].0
            != #[trigger] after[j].0 by {
            assert(after[i].0 == entries[i].0);
            assert(after[j].0 == entries[j].0);
        }
    } else {
        assert forall|i: int, j: int|
            0 <= i < after.len() && 0 <= j < after.len() && i != j implies #[trigger] after[i].0
            != #[trigger] after[j].0 by {
            if i < entries.len() && j < entries.len() {
                assert(after[i] == entries[i]);
                assert(after[j] == entries[j]);
            } else if i < entries.len() {
                assert(after[i] == entries[i]);
            } else {
                assert(after[j] == entries[j]);
            }
        }
    }
}

proof fn lemma_remove_keeps_distinct(entries: Seq<(Seq<char>, PhoneRecord)>, id: Seq<char>)
    requires
        distinct_ids(entries),
    ensures
        distinct_ids(remove_id(entries, id)),
        !has_phone(remove_id(entries, id), id),
        forall|other: Seq<char>|
            other != id ==> phone_record(remove_id(entries, id), other) == phone_record(
                entries,
                other,
            ),
{
    let after = remove_id(entries, id);
    if has_phone(entries, id) {
        let k = choose|i: int| 0 <= i < entries.len() && #[trigger] entries[i].0 == id;
        assert forall|i: int| 0 <= i < after.len() implies #[trigger] after[i] == entries[if i < k {
            i
        } else {
            i + 1
        }] by {}
        assert forall|i: int, j: int|
            0 <= i < after.len() && 0 <= j < after.len() && i != j implies #[trigger] after[i].0
            != #[trigger] after[j].0 by {
            let oi = if i < k { i } else { i + 1 };
            let oj = if j < k { j } else { j + 1 };
            assert(after[i] == entries[oi]);
            assert(after[j] == entries[oj]);
        }
        if has_phone(after, id) {
            let m = choose|i: int| 0 <= i < after.len() && #[trigger] after[i].0 == id;
            let om = if m < k { m } else { m + 1 };
            assert(after[m] == entries[om]);
            assert(entries[om].0 != entries[k].0);
        }
        assert forall|other: Seq<char>| other != id implies phone_record(after, other) == phone_record(
            entries,
            other,
        ) by {
            if has_phone(entries, other) {
                let o = choose|i: int| 0 <= i < entries.len() && #[trigger] entries[i].0 == other;
                lemma_phone_record_at(entries, o);
                let a = if o < k { o } else { o - 1 };
                assert(o != k);
                assert(after[a] == entries[o]);
                lemma_phone_record_at(after, a);
            } else if has_phone(after, other) {
                let m = choose|i: int| 0 <= i < after.len() && #[trigger] after[i].0 == other;
                let om = if m < k { m } else { m + 1 };
                assert(after[m] == entries[om]);
            }
        }
    }
}

proof fn lemma_store_reads_back(
    entries: Seq<(Seq<char>, PhoneRecord)>,
    id: Seq<char>,
    record: PhoneRecord,
)
    requires
        distinct_ids(entries),
    ensures
        phone_record(store_at(entries, id, record), id) == Some(record),
        forall|other: Seq<char>|
            other != id ==> phone_record(store_at(entries, id, record), other) == phone_record(
                entries,
                other,
            ),
{
    lemma_store_keeps_distinct(entries, id, record);
    let after = store_at(entries, id, record);
    let k = if has_phone(entries, id) {
        choose|i: int| 0 <= i < entries.len() && #[trigger] entries[i].0 == id
    } else {
        entries.len() as int
    };
    assert(after[k] == (id, record));
    lemma_phone_record_at(after, k);
    assert forall|other: Seq<char>| other != id implies phone_record(after, other) == phone_record(
        entries,
        other,
    ) by {
        if has_phone(entries, other) {
            let o = choose|i: int| 0 <= i < entries.len() && #[trigger] entries[i].0 == other;
            lemma_phone_record_at(entries, o);
            assert(o != k);
            assert(after[o] == entries[o]);
            lemma_phone_record_at(after, o);
        } else if has_phone(after, other) {
            let m = choose|i: int| 0 <= i < after.len() && #[trigger] after[i].0 == other;
            assert(m != k);
            assert(after[m] == entries[m]);
        }
    }
}

/// Storing a phone and reading it back gives what was stored, and leaves
/// every other phone as it was.
pub proof fn law_store_then_read(
    entries: Seq<(Seq<char>, PhoneRecord)>,
    id: Seq<char>,
    record: PhoneRecord,
    other: Seq<char>,
)
    requires
        distinct_ids(entries),
        other != id,
    ensures
        phone_record(store_at(entries, id, record), id) == Some(record),
        phone_record(store_at(entries, id, record), other) == phone_record(entries, other),
        distinct_ids(store_at(entries, id, record)),
{
    lemma_store_reads_back(entries, id, record);
    lemma_store_keeps_distinct(entries, id, record);
}

/// After removing a phone it is no longer found, and every other phone is
/// as it was.
pub proof fn law_remove_then_read(entries: Seq<(Seq<char>, PhoneRecord)>, id: Seq<char>, other: Seq<char>)
    requires
        distinct_ids(entries),
        other != id,
    ensures
        phone_record(remove_id(entries, id), id) == None::<PhoneRecord>,
        phone_record(remove_id(entries, id), other) == phone_record(entries, other),
{
    lemma_remove_keeps_distinct(entries, id);
}

/// Re-pairing a known phone keeps its first pairing time.
pub proof fn law_re_pair_keeps_pairing_time(
    old: PhoneRecord,
    phone_name: Seq<char>,
    public_key_spki: Seq<char>,
    now: u64,
)
    requires
        old.paired_at != 0,
    ensures
        upserted(Some(old), phone_name, public_key_spki, now).paired_at == old.paired_at,
        upserted(Some(old), phone_name, public_key_spki, now).last_connected == Some(now),
{
}

impl PairedPhoneStore {
    #[verifier::type_invariant]
    closed spec fn well_formed(&self) -> bool {
        distinct_ids(self@)
    }

    proof fn lemma_view_at(&self, i: int)
        requires
            0 <= i < self.phones@.len(),
        ensures
            self@.len() == self.phones@.len(),
            self@[i] == entry_view(self.phones@[i]),
    {
    }

    pub fn new() -> (store: Self)
        ensures
            store@ == Seq::<(Seq<char>, PhoneRecord)>::empty(),
    {
        let store = PairedPhoneStore { phones: Vec::new() };
        proof {
            assert(store@ =~= Seq::<(Seq<char>, PhoneRecord)>::empty());
        }
        store
    }

    pub fn len(&self) -> (count: usize)
        ensures
            count == self@.len(),
    {
        self.phones.len()
    }

    pub fn is_empty(&self) -> (empty: bool)
        ensures
            empty == (self@.len() == 0),
    {
        self.phones.len() == 0
    }

    /// The stored entries, in table order.
    pub fn entries(&self) -> (entries: &Vec<(String, PairedPhone)>)
        ensures
            entries_view(entries@) == self@,
    {
        &self.phones
    }

    fn position(&self, id: &str) -> (index: Option<usize>)
        ensures
            match index {
                Some(i) => i < self@.len() && self@[i as int].0 == id@,
                None => !has_phone(self@, id@),
            },
    {
        let mut index: usize = 0;
        while index < self.phones.len()
            invariant
                index <= self.phones@.len(),
                forall|i: int| 0 <= i < index ==> self@[i].0 != id@,
            decreases self.phones.len() - index,
        {
            proof {
                self.lemma_view_at(index as int);
            }
            if str_equal(self.phones[index].0.as_str(), id) {
                return Some(index);
            }
            index += 1;
        }
        None
    }

    /// The phone stored under `id`.
    pub fn get(&self, id: &str) -> (phone: Option<&PairedPhone>)
        ensures
            match phone {
                Some(p) => phone_record(self@, id@) == Some(record_of(*p)),
                None => phone_record(self@, id@) == None::<PhoneRecord>,
            },
    {
        proof {
            use_type_invariant(self);
        }
        match self.position(id) {
            Some(index) => {
                proof {
                    self.lemma_view_at(index as int);
                    lemma_phone_record_at(self@, index as int);
                }
                Some(&self.phones[index].1)
            },
            None => None,
        }
    }

    pub fn contains_key(&self, id: &str) -> (found: bool)
        ensures
            found == has_phone(self@, id@),
    {
        self.position(id).is_some()
    }

    /// The public key the phone `phone_id` signs with.
    pub fn public_key(&self, phone_id: &str) -> (key: Option<String>)
        ensures
            match key {
                Some(k) => phone_record(self@, phone_id@) matches Some(r) && k@
                    == r.public_key_spki,
                None => phone_record(self@, phone_id@) == None::<PhoneRecord>,
            },
    {
        match self.get(phone_id) {
            Some(phone) => Some(phone.public_key_spki.clone()),
            None => None,
        }
    }

    /// Stores `phone` under `id`, replacing the record of that id.
    pub fn insert(&mut self, id: &str, phone: PairedPhone)
        ensures
            final(self)@ == store_at(old(self)@, id@, record_of(phone)),
    {
        proof {
            use_type_invariant(&*self);
        }
        let ghost before = self@;
        let entry = (id.to_owned(), phone);
        let mut phones: Vec<(String, PairedPhone)> = Vec::new();
        std::mem::swap(&mut phones, &mut self.phones);
        match self.position_in(&phones, id) {
            Some(index) => {
                proof {
                    lemma_choose_is_index(before, index as int);
                }
                phones.set(index, entry);
                proof {
                    assert(entries_view(phones@) =~= before.update(index as int, (id@, record_of(phone))));
                }
            },
            None => {
                phones.push(entry);
                proof {
                    assert(entries_view(phones@) =~= before.push((id@, record_of(phone))));
                }
            },
        }
        proof {
            lemma_store_keeps_distinct(before, id@, record_of(phone));
        }
        self.phones = phones;
    }

    fn position_in(&self, phones: &Vec<(String, PairedPhone)>, id: &str) -> (index: Option<usize>)
        ensures
            match index {
                Some(i) => i < phones@.len() && entries_view(phones@)[i as int].0 == id@,
                None => !has_phone(entries_view(phones@), id@),
            },
    {
        let mut index: usize = 0;
        while index < phones.len()
            invariant
                index <= phones@.len(),
                forall|i: int| 0 <= i < index ==> entries_view(phones@)[i].0 != id@,
            decreases phones.len() - index,
        {
            if str_equal(phones[index].0.as_str(), id) {
                return Some(index);
            }
            index += 1;
        }
        None
    }

    /// Pairs (or re-pairs) a phone: its name, key and connection time are
    /// replaced, and its first pairing time is kept.
    pub fn upsert(&mut self, phone_id: &str, phone_name: &str, public_key_spki: &str, now: u64)
        ensures
            final(self)@ == store_at(
                old(self)@,
                phone_id@,
                upserted(phone_record(old(self)@, phone_id@), phone_name@, public_key_spki@, now),
            ),
    {
        upsert_paired_phone(self, phone_id, phone_name, public_key_spki, now)
    }

    /// Records an authenticated connection of a paired phone.
    pub fn mark_connected(&mut self, phone_id: &str, phone_name: &str, now: u64) -> (result: Result<
        (),
        PairingError,
    >)
        ensures
            match phone_record(old(self)@, phone_id@) {
                Some(old_record) => result == Ok::<(), PairingError>(()) && final(self)@ == store_at(
                    old(self)@,
                    phone_id@,
                    PhoneRecord {
                        phone_name: phone_name@,
                        last_connected: Some(now),
                        ..old_record
                    },
                ),
                None => result == Err::<(), PairingError>(PairingError::NotPaired) && final(self)@
                    == old(self)@,
            },
    {
        let updated = match self.get(phone_id) {
            Some(phone) => PairedPhone {
                phone_name: phone_name.to_owned(),
                public_key_spki: phone.public_key_spki.clone(),
                paired_at: phone.paired_at,
                last_connected: Some(now),
            },
            None => return Err(PairingError::NotPaired),
        };
        self.insert(phone_id, updated);
        Ok(())
    }

    /// Unpairs a phone.
    pub fn remove(&mut self, phone_id: &str)
        ensures
            final(self)@ == remove_id(old(self)@, phone_id@),
    {
        proof {
            use_type_invariant(&*self);
        }
        let ghost before = self@;
        let mut phones: Vec<(String, PairedPhone)> = Vec::new();
        std::mem::swap(&mut phones, &mut self.phones);
        match self.position_in(&phones, phone_id) {
            Some(index) => {
                proof {
                    lemma_choose_is_index(before, index as int);
                }
                let _removed = phones.remove(index);
                proof {
                    assert(entries_view(phones@) =~= before.remove(index as int));
                }
            },
            None => {},
        }
        proof {
            lemma_remove_keeps_distinct(before, phone_id@);
        }
        self.phones = phones;
    }
}

/// Pairs or re-pairs `phone_id` in `phones`.
pub fn upsert_paired_phone(
    phones: &mut PairedPhoneStore,
    phone_id: &str,
    phone_name: &str,
    public_key_spki: &str,
    now: u64,
)
    ensures
        final(phones)@ == store_at(
            old(phones)@,
            phone_id@,
            upserted(phone_record(old(phones)@, phone_id@), phone_name@, public_key_spki@, now),
        ),
{
    let phone = match phones.get(phone_id) {
        Some(existing) => PairedPhone {
            phone_name: phone_name.to_owned(),
            public_key_spki: public_key_spki.to_owned(),
            paired_at: if existing.paired_at == 0 {
                now
            } else {
                existing.paired_at
            },
            last_connected: Some(now),
        },
        None => PairedPhone {
            phone_name: phone_name.to_owned(),
            public_key_spki: public_key_spki.to_owned(),
            paired_at: now,
            last_connected: Some(now),
        },
    };
    phones.insert(phone_id, phone);
}

} // verus!

verus! {

pub open spec fn last_seen(record: PhoneRecord) -> u64 {
    match record.last_connected {
        Some(time) => time,
        None => 0,
    }
}

/// `a` is the more recent record: later connection, then later pairing,
/// then the smaller phone id.
pub open spec fn beats(a: (Seq<char>, PhoneRecord), b: (Seq<char>, PhoneRecord)) -> bool {
    ||| last_seen(a.1) > last_seen(b.1)
    ||| last_seen(a.1) == last_seen(b.1) && a.1.paired_at > b.1.paired_at
    ||| last_seen(a.1) == last_seen(b.1) && a.1.paired_at == b.1.paired_at && text_less(a.0, b.0)
}

/// A record stays when it has no key, or beats every other record with the
/// same key.
pub open spec fn survives(entries: Seq<(Seq<char>, PhoneRecord)>, e: (Seq<char>, PhoneRecord)) -> bool {
    ||| e.1.public_key_spki.len() == 0
    ||| forall|j: int|
        0 <= j < entries.len() && #[trigger] entries[j].0 != e.0 && entries[j].1.public_key_spki
            == e.1.public_key_spki ==> beats(e, entries[j])
}

pub open spec fn survivor_of(entries: Seq<(Seq<char>, PhoneRecord)>) -> spec_fn((Seq<char>, PhoneRecord)) -> bool {
    |e: (Seq<char>, PhoneRecord)| survives(entries, e)
}

pub open spec fn deduplicated(entries: Seq<(Seq<char>, PhoneRecord)>) -> Seq<(Seq<char>, PhoneRecord)> {
    entries.filter(survivor_of(entries))
}

fn copy_phone(phone: &PairedPhone) -> (copy: PairedPhone)
    ensures
        copy == *phone,
{
    PairedPhone {
        phone_name: phone.phone_name.clone(),
        public_key_spki: phone.public_key_spki.clone(),
        paired_at: phone.paired_at,
        last_connected: phone.last_connected,
    }
}

fn last_seen_of(phone: &PairedPhone) -> (time: u64)
    ensures
        time == last_seen(record_of(*phone)),
{
    match phone.last_connected {
        Some(time) => time,
        None => 0,
    }
}

fn entry_beats(a: &(String, PairedPhone), b: &(String, PairedPhone)) -> (wins: bool)
    ensures
        wins == beats(entry_view(*a), entry_view(*b)),
{
    let la = last_seen_of(&a.1);
    let lb = last_seen_of(&b.1);
    la > lb || (la == lb && a.1.paired_at > b.1.paired_at) || (la == lb && a.1.paired_at
        == b.1.paired_at && text_less_than(a.0.as_str(), b.0.as_str()))
}

/// Keeps one record per public key: the most recently connected (then most
/// recently paired, then smallest id). Records without a key all stay. The
/// flag tells whether anything was dropped.
pub fn deduplicate_paired_phones(phones: PairedPhoneStore) -> (result: (PairedPhoneStore, bool))
    ensures
        result.0@ == deduplicated(phones@),
        result.1 == (result.0@.len() != phones@.len()),
{
    proof {
        use_type_invariant(&phones);
    }
    let entries = phones.entries();
    let ghost all = phones@;
    let ghost keep = survivor_of(all);
    let mut kept: Vec<(String, PairedPhone)> = Vec::new();
    let mut i: usize = 0;
    while i < entries.len()
        invariant
            entries_view(entries@) == all,
            keep == survivor_of(all),
            distinct_ids(all),
            i <= entries@.len(),
            entries_view(kept@) == all.take(i as int).filter(keep),
        decreases entries.len() - i,
    {
        let candidate = &entries[i];
        let mut survives_all = candidate.1.public_key_spki.as_str().is_empty();
        if !survives_all {
            let mut j: usize = 0;
            survives_all = true;
            while j < entries.len()
                invariant
                    entries_view(entries@) == all,
                    distinct_ids(all),
                    i < entries@.len(),
                    *candidate == entries@[i as int],
                    j <= entries@.len(),
                    survives_all == forall|k: int|
                        0 <= k < j && #[trigger] all[k].0 != all[i as int].0 && all[k].1.public_key_spki
                            == all[i as int].1.public_key_spki ==> beats(all[i as int], all[k]),
                decreases entries.len() - j,
            {
                let other = &entries[j];
                proof {
                    assert(all[j as int] == entry_view(*other));
                    assert(all[i as int] == entry_view(*candidate));
                    if j != i {
                        assert(all[j as int].0 != all[i as int].0);
                    }
                }
                if j != i && str_equal(other.1.public_key_spki.as_str(), candidate.1.public_key_spki.as_str())
                    && !entry_beats(candidate, other) {
                    survives_all = false;
                }
                j += 1;
            }
        }
        proof {
            assert(all[i as int] == entry_view(*candidate));
            assert(survives_all == keep(all[i as int]));
            assert(all.take(i + 1).drop_last() =~= all.take(i as int));
            assert(all.take(i + 1).last() == all[i as int]);
            assert(all.take(i + 1).filter(keep) == if keep(all[i as int]) {
                all.take(i as int).filter(keep).push(all[i as int])
            } else {
                all.take(i as int).filter(keep)
            }) by {
                reveal(Seq::filter);
            }
        }
        if survives_all {
            let ghost before = kept@;
            kept.push((candidate.0.clone(), copy_phone(&candidate.1)));
            proof {
                assert(entries_view(kept@) =~= entries_view(before).push(all[i as int]));
            }
        }
        i += 1;
    }
    proof {
        assert(all.take(i as int) =~= all);
        lemma_filter_keeps_distinct_ids(all, keep);
    }
    let changed = kept.len() != entries.len();
    (PairedPhoneStore { phones: kept }, changed)
}

proof fn lemma_filter_keeps_distinct_ids(
    entries: Seq<(Seq<char>, PhoneRecord)>,
    pred: spec_fn((Seq<char>, PhoneRecord)) -> bool,
)
    requires
        distinct_ids(entries),
    ensures
        distinct_ids(entries.filter(pred)),
        forall|i: int|
            0 <= i < entries.filter(pred).len() ==> entries.contains(#[trigger] entries.filter(pred)[i]),
    decreases entries.len(),
{
    reveal(Seq::filter);
    if entries.len() > 0 {
        let rest = entries.drop_last();
        assert(distinct_ids(rest)) by {
            assert forall|i: int, j: int|
                0 <= i < rest.len() && 0 <= j < rest.len() && i != j implies #[trigger] rest[i].0
                != #[trigger] rest[j].0 by {
                assert(rest[i] == entries[i]);
                assert(rest[j] == entries[j]);
            }
        }
        lemma_filter_keeps_distinct_ids(rest, pred);
        let sub = rest.filter(pred);
        assert forall|i: int| 0 <= i < sub.len() implies entries.contains(#[trigger] sub[i]) && sub[i].0 != entries.last().0 by {
            assert(rest.contains(sub[i]));
            let m = choose|m: int| 0 <= m < rest.len() && rest[m] == sub[i];
            assert(entries[m] == rest[m]);
            assert(entries[m].0 != entries[entries.len() - 1].0);
        }
        if pred(entries.last()) {
            let out = sub.push(entries.last());
            assert forall|i: int, j: int|
                0 <= i < out.len() && 0 <= j < out.len() && i != j implies #[trigger] out[i].0
                != #[trigger] out[j].0 by {
                if i < sub.len() {
                    assert(out[i] == sub[i]);
                }
                if j < sub.len() {
                    assert(out[j] == sub[j]);
                }
            }
            assert forall|i: int| 0 <= i < out.len() implies entries.contains(#[trigger] out[i]) by {
                if i < sub.len() {
                    assert(out[i] == sub[i]);
                } else {
                    assert(entries[entries.len() - 1] == out[i]);
                }
            }
        }
    }
}

proof fn lemma_beats_asymmetric(a: (Seq<char>, PhoneRecord), b: (Seq<char>, PhoneRecord))
    ensures
        !(beats(a, b) && beats(b, a)),
{
    lemma_text_less_strict(a.0, b.0);
}

/// After deduplication no two records share a public key.
pub proof fn law_deduplicated_keys_are_unique(entries: Seq<(Seq<char>, PhoneRecord)>, i: int, j: int)
    requires
        distinct_ids(entries),
        0 <= i < deduplicated(entries).len(),
        0 <= j < deduplicated(entries).len(),
        i != j,
        deduplicated(entries)[i].1.public_key_spki.len() > 0,
    ensures
        deduplicated(entries)[i].1.public_key_spki != deduplicated(entries)[j].1.public_key_spki,
{
    let keep = survivor_of(entries);
    let out = deduplicated(entries);
    lemma_filter_keeps_distinct_ids(entries, keep);
    entries.lemma_filter_pred(keep, i);
    entries.lemma_filter_pred(keep, j);
    if out[i].1.public_key_spki == out[j].1.public_key_spki {
        assert(entries.contains(out[i]));
        assert(entries.contains(out[j]));
        let mi = choose|m: int| 0 <= m < entries.len() && entries[m] == out[i];
        let mj = choose|m: int| 0 <= m < entries.len() && entries[m] == out[j];
        assert(out[i].0 != out[j].0);
        assert(entries[mj].0 != out[i].0);
        assert(beats(out[i], entries[mj]));
        assert(entries[mi].0 != out[j].0);
        assert(beats(out[j], entries[mi]));
        lemma_beats_asymmetric(out[i], out[j]);
    }
}

/// A record with a key is kept only if it is the most recent record of that
/// key.
pub proof fn law_deduplication_keeps_the_most_recent(entries: Seq<(Seq<char>, PhoneRecord)>, i: int, j: int)
    requires
        0 <= i < deduplicated(entries).len(),
        0 <= j < entries.len(),
        deduplicated(entries)[i].1.public_key_spki.len() > 0,
        entries[j].1.public_key_spki == deduplicated(entries)[i].1.public_key_spki,
        entries[j].0 != deduplicated(entries)[i].0,
    ensures
        beats(deduplicated(entries)[i], entries[j]),
{
    entries.lemma_filter_pred(survivor_of(entries), i);
}

pub open spec fn sorted_by_name(entries: Seq<(Seq<char>, PhoneRecord)>) -> bool {
    forall|i: int, j: int|
        0 <= i < j < entries.len() ==> !text_less(
            #[trigger] entries[j].1.phone_name,
            #[trigger] entries[i].1.phone_name,
        )
}

impl PairedPhoneStore {
    /// The paired phones sorted by name.
    pub fn snapshot(&self) -> (phones: Vec<(String, PairedPhone)>)
        ensures
            entries_view(phones@).to_multiset() == self@.to_multiset(),
            sorted_by_name(entries_view(phones@)),
    {
        let entries = &self.phones;
        let mut sorted: Vec<(String, PairedPhone)> = Vec::new();
        let mut i: usize = 0;
        proof {
            assert(self@.take(0) =~= Seq::<(Seq<char>, PhoneRecord)>::empty());
            assert(entries_view(sorted@) =~= Seq::<(Seq<char>, PhoneRecord)>::empty());
        }
        while i < entries.len()
            invariant
                i <= entries@.len(),
                entries_view(entries@) == self@,
                entries_view(sorted@).to_multiset() == self@.take(i as int).to_multiset(),
                sorted_by_name(entries_view(sorted@)),
            decreases entries.len() - i,
        {
            let entry = &entries[i];
            let ghost view = entries_view(sorted@);
            let mut position: usize = 0;
            while position < sorted.len() && !text_less_than(
                entry.1.phone_name.as_str(),
                sorted[position].1.phone_name.as_str(),
            )
                invariant
                    view == entries_view(sorted@),
                    position <= sorted@.len(),
                    forall|k: int| 0 <= k < position ==> !text_less(entry.1.phone_name@, #[trigger] view[k].1.phone_name),
                decreases sorted.len() - position,
            {
                proof {
                    assert(view[position as int] == entry_view(sorted@[position as int]));
                }
                position += 1;
            }
            let item = (entry.0.clone(), copy_phone(&entry.1));
            let ghost e = entry_view(item);
            proof {
                assert(e == entry_view(*entry));
                if position < sorted.len() {
                    assert(view[position as int] == entry_view(sorted@[position as int]));
                    assert(text_less(e.1.phone_name, view[position as int].1.phone_name));
                }
            }
            sorted.insert(position, item);
            proof {
                let after = entries_view(sorted@);
                assert(after =~= view.insert(position as int, e));
                vstd::seq_lib::to_multiset_insert(view, position as int, e);
                assert(self@.take(i + 1) =~= self@.take(i as int).push(self@[i as int]));
                vstd::seq_lib::to_multiset_build(self@.take(i as int), self@[i as int]);
                assert(self@[i as int] == e);
                assert forall|a: int, b: int| 0 <= a < b < after.len() implies !text_less(
                    #[trigger] after[b].1.phone_name,
                    #[trigger] after[a].1.phone_name,
                ) by {
                    if b < position {
                        assert(after[a] == view[a]);
                        assert(after[b] == view[b]);
                    } else if b == position {
                        assert(after[a] == view[a]);
                    } else if a == position {
                        assert(after[b] == view[b - 1]);
                        lemma_text_less_strict(view[position as int].1.phone_name, e.1.phone_name);
                        lemma_text_less_strict(view[position as int].1.phone_name, view[position as int].1.phone_name);
                        if text_less(after[b].1.phone_name, e.1.phone_name) && b - 1 > position {
                            lemma_text_less_transitive(
                                view[b - 1].1.phone_name,
                                e.1.phone_name,
                                view[position as int].1.phone_name,
                            );
                        }
                    } else if a < position {
                        assert(after[a] == view[a]);
                        assert(after[b] == view[b - 1]);
                    } else {
                        assert(after[a] == view[a - 1]);
                        assert(after[b] == view[b - 1]);
                    }
                }
            }
            i += 1;
        }
        proof {
            assert(self@.take(i as int) =~= self@);
        }
        sorted
    }
}

} // verus!
