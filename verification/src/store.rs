//! The type-erased store: a registry mapping type keys to stored state
//! entries, where a key combines a payload type's identity token with the
//! access discipline under which the payload was registered.
//!
//! The registry is an explicit value rather than process-global state, so
//! callers (and test suites) can create and reset stores independently; a
//! process-wide store is one `Registry` value owned at the top of the
//! program. Entries are only ever replaced, never removed, so a store with
//! no entry at all is one that has never been initialized.

use vstd::prelude::*;

verus! {

use std::sync::Arc;

/// The access discipline under which a payload is registered: shared
/// read-only access, or exclusive lock-mediated mutable access.
///
/// The two disciplines never share an entry: a shared and an exclusive
/// registration of the same payload type are independent values, because
/// the store key encodes the discipline alongside the type token.
#[derive(Clone, Copy, PartialEq, Eq, Structural, Debug)]
pub enum Discipline {
    Shared,
    Exclusive,
}

/// A store key: the identity token of a payload type combined with the
/// discipline requested for it.
#[derive(Clone, Copy, PartialEq, Eq, Structural, Debug)]
pub struct TypeKey {
    pub token: u64,
    pub discipline: Discipline,
}

/// The key under which a shared registration of the type with identity
/// `token` is stored.
pub open spec fn shared_key(token: u64) -> TypeKey {
    TypeKey { token, discipline: Discipline::Shared }
}

/// The key under which an exclusive registration of the type with identity
/// `token` is stored.
pub open spec fn exclusive_key(token: u64) -> TypeKey {
    TypeKey { token, discipline: Discipline::Exclusive }
}

/// A stored entry value. Shared registrations hold a reference-counted
/// immutable payload; exclusive registrations hold the payload directly
/// while unlocked, or, while a lock guard is outstanding, only the stamp
/// identifying that guard.
pub enum StoredValue<V> {
    SharedValue(Arc<V>),
    ExclusiveValue(V),
    ExclusiveLocked(u64),
}

/// The mathematical model of one stored entry: the payload value itself
/// (reference counting erased), or the stamp of the guard holding the lock.
pub enum Slot<V> {
    Shared(V),
    Unlocked(V),
    Locked(u64),
}

impl<V> StoredValue<V> {
    /// The model of this entry value.
    pub open spec fn slot(self) -> Slot<V> {
        match self {
            StoredValue::SharedValue(a) => Slot::Shared(*a),
            StoredValue::ExclusiveValue(v) => Slot::Unlocked(v),
            StoredValue::ExclusiveLocked(s) => Slot::Locked(s),
        }
    }

    /// The discipline this entry value belongs to.
    pub open spec fn discipline(self) -> Discipline {
        match self {
            StoredValue::SharedValue(_) => Discipline::Shared,
            StoredValue::ExclusiveValue(_) => Discipline::Exclusive,
            StoredValue::ExclusiveLocked(_) => Discipline::Exclusive,
        }
    }

    /// Computes the discipline this entry value belongs to.
    pub fn kind(&self) -> (d: Discipline)
        ensures
            d == self.discipline(),
    {
        match self {
            StoredValue::SharedValue(_) => Discipline::Shared,
            StoredValue::ExclusiveValue(_) => Discipline::Exclusive,
            StoredValue::ExclusiveLocked(_) => Discipline::Exclusive,
        }
    }
}

impl<V> Slot<V> {
    /// The payload held by a shared or unlocked entry.
    pub open spec fn payload(self) -> V
        recommends
            self is Shared || self is Unlocked,
    {
        match self {
            Slot::Shared(v) => v,
            Slot::Unlocked(v) => v,
            Slot::Locked(_) => arbitrary(),
        }
    }

    /// The stamp of the guard currently holding a locked entry.
    pub open spec fn stamp(self) -> u64
        recommends
            self is Locked,
    {
        match self {
            Slot::Locked(s) => s,
            _ => arbitrary(),
        }
    }
}

/// The recoverable outcome of a failed lookup.
///
/// The three cases are reported uniformly; the distinction is
/// informational. A lookup that instead must succeed treats a missing
/// entry as a fatal defect and does not return at all.
#[derive(Clone, Copy, PartialEq, Eq, Structural, Debug)]
pub enum AppStateError {
    /// The store has never received any entry.
    NotInitialized,
    /// The store holds entries, but none under the requested key.
    NotFound,
    /// The entry under the requested key belongs to the other discipline.
    /// With keys that correctly encode the discipline this indicates a
    /// keying defect; the read-time check reports it rather than assuming
    /// it impossible.
    TypeMismatch,
}

impl AppStateError {
    /// A human-readable description of the error.
    pub fn message(&self) -> (r: &'static str)
        ensures
            *self is NotInitialized ==> r@ == "The state store has not yet been initialized"@,
            *self is NotFound ==> r@ == "Could not find requested state"@,
            *self is TypeMismatch ==> r@ == "Could not cast to requested state"@,
    {
        match self {
            AppStateError::NotInitialized => "The state store has not yet been initialized",
            AppStateError::NotFound => "Could not find requested state",
            AppStateError::TypeMismatch => "Could not cast to requested state",
        }
    }
}

/// The outcome a lookup of `key` in a store modelled by `m` must have:
/// the entry's model if the key is present, and otherwise the error that
/// distinguishes a never-initialized store from a merely missing entry.
pub open spec fn spec_find<V>(m: Map<TypeKey, Slot<V>>, key: TypeKey) -> Result<
    Slot<V>,
    AppStateError,
> {
    if m.dom().contains(key) {
        Ok(m[key])
    } else if m == Map::<TypeKey, Slot<V>>::empty() {
        Err(AppStateError::NotInitialized)
    } else {
        Err(AppStateError::NotFound)
    }
}

struct Entry<V> {
    key: TypeKey,
    value: StoredValue<V>,
}

/// Whether a sequence of entries has pairwise distinct keys.
spec fn entries_unique<V>(s: Seq<Entry<V>>) -> bool {
    forall|i: int, j: int|
        0 <= i < j < s.len() ==> (#[trigger] s[i]).key != (#[trigger] s[j]).key
}

/// Whether each entry's key encodes the discipline of its value.
spec fn entries_consistent<V>(s: Seq<Entry<V>>) -> bool {
    forall|i: int|
        0 <= i < s.len() ==> (#[trigger] s[i]).key.discipline == s[i].value.discipline()
}

/// The map modelled by a sequence of entries; later entries shadow
/// earlier ones, which with distinct keys makes the order irrelevant.
spec fn entries_model<V>(s: Seq<Entry<V>>) -> Map<TypeKey, Slot<V>>
    decreases s.len(),
{
    if s.len() == 0 {
        Map::empty()
    } else {
        entries_model(s.drop_last()).insert(s.last().key, s.last().value.slot())
    }
}

proof fn lemma_model_contains<V>(s: Seq<Entry<V>>, key: TypeKey)
    ensures
        entries_model(s).dom().contains(key) <==> exists|i: int|
            0 <= i < s.len() && (#[trigger] s[i]).key == key,
    decreases s.len(),
{
    if s.len() > 0 {
        lemma_model_contains(s.drop_last(), key);
        if s.last().key == key {
            assert(s[s.len() - 1].key == key);
        } else if entries_model(s).dom().contains(key) {
            let i = choose|i: int| 0 <= i < s.drop_last().len() && (#[trigger] s.drop_last()[i]).key == key;
            assert(s[i].key == key);
        } else if exists|i: int| 0 <= i < s.len() && (#[trigger] s[i]).key == key {
            let i = choose|i: int| 0 <= i < s.len() && (#[trigger] s[i]).key == key;
            assert(s.drop_last()[i].key == key);
        }
    }
}

proof fn lemma_model_value<V>(s: Seq<Entry<V>>, i: int)
    requires
        entries_unique(s),
        0 <= i < s.len(),
    ensures
        entries_model(s).dom().contains(s[i].key),
        entries_model(s)[s[i].key] == s[i].value.slot(),
    decreases s.len(),
{
    if i < s.len() - 1 {
        lemma_model_value(s.drop_last(), i);
        assert(s.drop_last()[i] == s[i]);
        assert(s[i].key != s.last().key);
    }
}

proof fn lemma_model_empty<V>(s: Seq<Entry<V>>)
    ensures
        (entries_model(s) == Map::<TypeKey, Slot<V>>::empty()) <==> s.len() == 0,
{
    if s.len() > 0 {
        assert(entries_model(s).dom().contains(s.last().key));
        assert(!Map::<TypeKey, Slot<V>>::empty().dom().contains(s.last().key));
    }
}

proof fn lemma_model_update<V>(s: Seq<Entry<V>>, i: int, e: Entry<V>)
    requires
        entries_unique(s),
        0 <= i < s.len(),
        e.key == s[i].key,
    ensures
        entries_model(s.update(i, e)) == entries_model(s).insert(e.key, e.value.slot()),
    decreases s.len(),
{
    let t = s.update(i, e);
    if i == s.len() - 1 {
        assert(t.drop_last() =~= s.drop_last());
        assert(entries_model(t) =~= entries_model(s).insert(e.key, e.value.slot()));
    } else {
        lemma_model_update(s.drop_last(), i, e);
        assert(t.drop_last() =~= s.drop_last().update(i, e));
        assert(s[i].key != s.last().key);
        assert(entries_model(t) =~= entries_model(s).insert(e.key, e.value.slot()));
    }
}

proof fn lemma_model_push<V>(s: Seq<Entry<V>>, e: Entry<V>)
    ensures
        entries_model(s.push(e)) == entries_model(s).insert(e.key, e.value.slot()),
{
    assert(s.push(e).drop_last() =~= s);
}

/// The store itself: a flat namespace of entries keyed by type token and
/// discipline, plus the counter from which lock guard stamps are drawn.
pub struct Registry<V> {
    entries: Vec<Entry<V>>,
    next_stamp: u64,
}

impl<V> View for Registry<V> {
    type V = Map<TypeKey, Slot<V>>;

    closed spec fn view(&self) -> Map<TypeKey, Slot<V>> {
        entries_model(self.entries@)
    }
}

impl<V> Registry<V> {
    /// Well-formedness: entries have pairwise distinct keys, and each
    /// key encodes the discipline of the value stored under it. Every
    /// constructor establishes this and every operation preserves it.
    pub closed spec fn wf(self) -> bool {
        entries_unique(self.entries@) && entries_consistent(self.entries@)
    }

    /// Creates an empty store, in which no type has yet been registered.
    pub fn new() -> (r: Self)
        ensures
            r.wf(),
            r@ == Map::<TypeKey, Slot<V>>::empty(),
    {
        Registry { entries: Vec::new(), next_stamp: 0 }
    }

    /// Removes every entry, returning the store to its untouched state.
    /// Production code never needs this; it exists so that test suites
    /// can run cases against one store in isolation.
    pub fn reset(&mut self)
        ensures
            final(self).wf(),
            final(self)@ == Map::<TypeKey, Slot<V>>::empty(),
    {
        self.entries = Vec::new();
    }

    fn find_index(&self, key: TypeKey) -> (r: Option<usize>)
        ensures
            match r {
                Some(i) => i < self.entries@.len() && self.entries@[i as int].key == key,
                None => forall|i: int|
                    0 <= i < self.entries@.len() ==> (#[trigger] self.entries@[i]).key != key,
            },
    {
        let mut j: usize = 0;
        while j < self.entries.len()
            invariant
                j <= self.entries@.len(),
                forall|i: int| 0 <= i < j ==> (#[trigger] self.entries@[i]).key != key,
            decreases self.entries@.len() - j,
        {
            if self.entries[j].key == key {
                return Some(j);
            }
            j += 1;
        }
        None
    }

    /// Whether the store holds an entry under `key`.
    pub fn contains_state(&self, key: TypeKey) -> (b: bool)
        ensures
            b == self@.dom().contains(key),
    {
        proof {
            lemma_model_contains(self.entries@, key);
        }
        self.find_index(key).is_some()
    }

    /// Stores `value` for the type with identity `token`, under the key
    /// encoding the value's own discipline. Any existing entry under that
    /// key is replaced; entries under every other key are untouched.
    pub fn insert_state(&mut self, token: u64, value: StoredValue<V>)
        requires
            old(self).wf(),
        ensures
            final(self).wf(),
            final(self)@ == old(self)@.insert(
                TypeKey { token, discipline: value.discipline() },
                value.slot(),
            ),
    {
        let d = value.kind();
        let key = TypeKey { token, discipline: d };
        match self.find_index(key) {
            Some(i) => {
                let ghost s = self.entries@;
                let entry = Entry { key, value };
                proof {
                    lemma_model_update(s, i as int, entry);
                }
                self.entries[i] = entry;
            },
            None => {
                let ghost s = self.entries@;
                let entry = Entry { key, value };
                proof {
                    lemma_model_push(s, entry);
                }
                self.entries.push(entry);
            },
        }
    }

    /// Looks the entry under `key` up. The result is exactly what the
    /// store's model prescribes: the entry if the key is present, and
    /// otherwise an error telling a never-initialized store apart from a
    /// merely missing entry.
    ///
    /// Keys encode the handle kind: the returned entry's discipline always
    /// equals the discipline its key was built with, so the read-time
    /// discipline check in the typed handles is a true safety gate that
    /// never fires.
    pub fn find_state(&self, key: TypeKey) -> (r: Result<&StoredValue<V>, AppStateError>)
        requires
            self.wf(),
        ensures
            (spec_find(self@, key) matches Ok(slot) ==> r matches Ok(sv) && sv.slot() == slot
                && sv.discipline() == key.discipline),
            (spec_find(self@, key) matches Err(e) ==> r matches Err(e2) && e2 == e),
    {
        proof {
            lemma_model_contains(self.entries@, key);
            lemma_model_empty(self.entries@);
        }
        match self.find_index(key) {
            Some(i) => {
                proof {
                    lemma_model_value(self.entries@, i as int);
                }
                Ok(&self.entries[i].value)
            },
            None => {
                if self.entries.len() == 0 {
                    Err(AppStateError::NotInitialized)
                } else {
                    Err(AppStateError::NotFound)
                }
            },
        }
    }

    /// Takes the payload of the unlocked exclusive entry for `token` out
    /// of the store, leaving the entry locked under a fresh stamp. The
    /// payload and the stamp together form the guard's authority: only a
    /// release presenting this stamp writes a payload back.
    pub(crate) fn acquire(&mut self, token: u64) -> (r: (V, u64))
        requires
            old(self).wf(),
            old(self)@.dom().contains(exclusive_key(token)),
            old(self)@[exclusive_key(token)] is Unlocked,
        ensures
            final(self).wf(),
            r.0 == old(self)@[exclusive_key(token)].payload(),
            final(self)@ == old(self)@.insert(exclusive_key(token), Slot::Locked(r.1)),
    {
        proof {
            lemma_model_contains(self.entries@, exclusive_key(token));
        }
        let key = TypeKey { token, discipline: Discipline::Exclusive };
        match self.find_index(key) {
            Some(i) => {
                proof {
                    lemma_model_value(self.entries@, i as int);
                }
                let stamp = self.next_stamp;
                self.next_stamp = self.next_stamp.wrapping_add(1);
                let ghost s = self.entries@;
                let mut taken = Entry { key, value: StoredValue::ExclusiveLocked(stamp) };
                proof {
                    lemma_model_update(s, i as int, taken);
                }
                core::mem::swap(&mut self.entries[i], &mut taken);
                match taken.value {
                    StoredValue::ExclusiveValue(v) => (v, stamp),
                    _ => unreached(),
                }
            },
            None => unreached(),
        }
    }

    /// Writes `value` back into the exclusive entry for `token`, provided
    /// that entry is still locked under `stamp`. If the entry has been
    /// replaced or re-locked since the stamp was issued, the store is left
    /// unchanged and the written value is discarded, mirroring a write to
    /// an instance that an overwriting registration has already detached.
    pub(crate) fn release_state(&mut self, token: u64, stamp: u64, value: V)
        requires
            old(self).wf(),
        ensures
            final(self).wf(),
            old(self)@.dom().contains(exclusive_key(token)) && old(self)@[exclusive_key(token)]
                == Slot::<V>::Locked(stamp) ==> final(self)@ == old(self)@.insert(
                exclusive_key(token),
                Slot::Unlocked(value),
            ),
            !(old(self)@.dom().contains(exclusive_key(token)) && old(self)@[exclusive_key(token)]
                == Slot::<V>::Locked(stamp)) ==> final(self)@ == old(self)@,
    {
        proof {
            lemma_model_contains(self.entries@, exclusive_key(token));
        }
        let key = TypeKey { token, discipline: Discipline::Exclusive };
        match self.find_index(key) {
            Some(i) => {
                proof {
                    lemma_model_value(self.entries@, i as int);
                }
                let held = match &self.entries[i].value {
                    StoredValue::ExclusiveLocked(s) => *s == stamp,
                    _ => false,
                };
                if held {
                    let ghost s = self.entries@;
                    let entry = Entry { key, value: StoredValue::ExclusiveValue(value) };
                    proof {
                        lemma_model_update(s, i as int, entry);
                    }
                    self.entries[i] = entry;
                }
            },
            None => {},
        }
    }
}

} // verus!
