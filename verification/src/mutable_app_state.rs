//! The exclusive-discipline handle: access to a payload registered for
//! lock-mediated mutation. All reads and writes of the payload go through
//! a lock guard; the handle itself only designates the store entry, and
//! cloning it shares the same entry rather than copying the payload.

use vstd::prelude::*;

use crate::mut_app_state_lock::MutAppStateLock;
use crate::store::AppStateError;
use crate::store::Discipline;
use crate::store::Registry;
use crate::store::Slot;
use crate::store::StoredValue;
use crate::store::TypeKey;
use crate::store::exclusive_key;
use crate::store::spec_find;

verus! {

/// A handle to a payload registered under the exclusive discipline.
/// Obtaining the payload requires acquiring the entry's lock through
/// `get_mut`, which yields a scoped guard.
pub struct MutAppState<V> {
    token: u64,
    _marker: core::marker::PhantomData<V>,
}

impl<V> MutAppState<V> {
    /// The identity token of the entry this handle designates.
    pub closed spec fn spec_token(self) -> u64 {
        self.token
    }

    /// Reads the identity token of the entry this handle designates.
    pub fn token(&self) -> (t: u64)
        ensures
            t == self.spec_token(),
    {
        self.token
    }

    /// Registers `state` under the exclusive discipline for the type with
    /// identity `token`, replacing any previous exclusive registration of
    /// that type — including a locked one, whose outstanding guard then
    /// writes to a detached instance. Shared registrations, and exclusive
    /// registrations of other types, are untouched.
    pub fn init(reg: &mut Registry<V>, token: u64, state: V)
        requires
            old(reg).wf(),
        ensures
            final(reg).wf(),
            final(reg)@ == old(reg)@.insert(exclusive_key(token), Slot::Unlocked(state)),
    {
        reg.insert_state(token, StoredValue::ExclusiveValue(state));
    }

    /// Registers the value produced by `f` under the exclusive discipline
    /// for `token`, but only if no exclusive registration of that type
    /// exists yet; an existing registration leaves the store untouched
    /// and the factory unconsulted.
    pub fn init_if_not_exists<F: FnOnce() -> V>(reg: &mut Registry<V>, token: u64, f: F)
        requires
            old(reg).wf(),
            f.requires(()),
        ensures
            final(reg).wf(),
            old(reg)@.dom().contains(exclusive_key(token)) ==> final(reg)@ == old(reg)@,
            !old(reg)@.dom().contains(exclusive_key(token)) ==> f.ensures(
                (),
                final(reg)@[exclusive_key(token)].payload(),
            ),
            !old(reg)@.dom().contains(exclusive_key(token)) ==> final(reg)@ == old(reg)@.insert(
                exclusive_key(token),
                Slot::Unlocked(final(reg)@[exclusive_key(token)].payload()),
            ),
    {
        if !reg.contains_state(TypeKey { token, discipline: Discipline::Exclusive }) {
            let state = f();
            Self::init(reg, token, state);
        }
    }

    /// Returns a handle to the exclusive registration of `token`, which
    /// must be present: requesting a never-registered type is a
    /// configuration defect, not an expected runtime condition, and
    /// terminates the calling context instead of returning. Callers that
    /// want a recoverable outcome use `try_get`.
    pub fn get(reg: &Registry<V>, token: u64) -> (r: Self)
        requires
            reg.wf(),
            reg@.dom().contains(exclusive_key(token)),
        ensures
            r.spec_token() == token,
    {
        match Self::try_get(reg, token) {
            Ok(h) => h,
            Err(_) => unreached(),
        }
    }

    /// Returns a handle to the exclusive registration of `token`, or
    /// reports why none could be produced: the store was never
    /// initialized, holds no entry under the key, or — with a defective
    /// keying scheme — holds an entry of the other discipline, which the
    /// read-time check reports as a mismatch rather than assuming it
    /// impossible.
    pub fn try_get(reg: &Registry<V>, token: u64) -> (r: Result<Self, AppStateError>)
        requires
            reg.wf(),
        ensures
            (spec_find(reg@, exclusive_key(token)) matches Ok(slot) ==> r matches Ok(h) && (slot
                is Unlocked || slot is Locked) && h.spec_token() == token),
            (spec_find(reg@, exclusive_key(token)) matches Err(e) ==> r matches Err(e2) && e2 == e),
    {
        match reg.find_state(TypeKey { token, discipline: Discipline::Exclusive }) {
            Ok(sv) => match sv {
                StoredValue::ExclusiveValue(_) => Ok(
                    MutAppState { token, _marker: core::marker::PhantomData },
                ),
                StoredValue::ExclusiveLocked(_) => Ok(
                    MutAppState { token, _marker: core::marker::PhantomData },
                ),
                StoredValue::SharedValue(_) => Err(AppStateError::TypeMismatch),
            },
            Err(e) => Err(e),
        }
    }

    /// Returns a handle to the exclusive registration of `token`, first
    /// registering `state` if no exclusive registration of that type
    /// exists.
    pub fn get_or_insert(reg: &mut Registry<V>, token: u64, state: V) -> (r: Self)
        requires
            old(reg).wf(),
        ensures
            final(reg).wf(),
            r.spec_token() == token,
            old(reg)@.dom().contains(exclusive_key(token)) ==> final(reg)@ == old(reg)@,
            !old(reg)@.dom().contains(exclusive_key(token)) ==> final(reg)@ == old(reg)@.insert(
                exclusive_key(token),
                Slot::Unlocked(state),
            ),
    {
        if !reg.contains_state(TypeKey { token, discipline: Discipline::Exclusive }) {
            Self::init(reg, token, state);
        }
        Self::get(reg, token)
    }

    /// Returns a handle to the exclusive registration of `token`, first
    /// registering the value produced by `f` if no exclusive registration
    /// of that type exists; an existing registration leaves the factory
    /// unconsulted.
    pub fn get_or_insert_with<F: FnOnce() -> V>(reg: &mut Registry<V>, token: u64, f: F) -> (r:
        Self)
        requires
            old(reg).wf(),
            f.requires(()),
        ensures
            final(reg).wf(),
            r.spec_token() == token,
            old(reg)@.dom().contains(exclusive_key(token)) ==> final(reg)@ == old(reg)@,
            !old(reg)@.dom().contains(exclusive_key(token)) ==> f.ensures(
                (),
                final(reg)@[exclusive_key(token)].payload(),
            ),
            !old(reg)@.dom().contains(exclusive_key(token)) ==> final(reg)@ == old(reg)@.insert(
                exclusive_key(token),
                Slot::Unlocked(final(reg)@[exclusive_key(token)].payload()),
            ),
    {
        Self::init_if_not_exists(reg, token, f);
        Self::get(reg, token)
    }

    /// Acquires the lock on this handle's entry and returns a guard
    /// giving read and write access to the payload. The entry must be
    /// present and unlocked: a second acquisition while a guard is
    /// outstanding has no sequential meaning other than waiting forever,
    /// so the contract excludes it.
    pub fn get_mut(&self, reg: &mut Registry<V>) -> (guard: MutAppStateLock<V>)
        requires
            old(reg).wf(),
            old(reg)@.dom().contains(exclusive_key(self.spec_token())),
            old(reg)@[exclusive_key(self.spec_token())] is Unlocked,
        ensures
            final(reg).wf(),
            guard.spec_token() == self.spec_token(),
            guard.value() == old(reg)@[exclusive_key(self.spec_token())].payload(),
            final(reg)@ == old(reg)@.insert(
                exclusive_key(self.spec_token()),
                Slot::Locked(guard.spec_stamp()),
            ),
    {
        MutAppStateLock::new(self, reg)
    }

    /// Unwraps the handle into the identity token of the entry it
    /// designates.
    pub fn into_inner(self) -> (t: u64)
        ensures
            t == self.spec_token(),
    {
        self.token
    }
}

impl<V: Default> MutAppState<V> {
    /// Returns a handle to the exclusive registration of `token`, first
    /// registering the payload type's default value if no exclusive
    /// registration of that type exists.
    pub fn get_or_insert_default(reg: &mut Registry<V>, token: u64) -> (r: Self)
        requires
            old(reg).wf(),
        ensures
            final(reg).wf(),
            r.spec_token() == token,
            old(reg)@.dom().contains(exclusive_key(token)) ==> final(reg)@ == old(reg)@,
            !old(reg)@.dom().contains(exclusive_key(token)) ==> V::default.ensures(
                (),
                final(reg)@[exclusive_key(token)].payload(),
            ),
            !old(reg)@.dom().contains(exclusive_key(token)) ==> final(reg)@ == old(reg)@.insert(
                exclusive_key(token),
                Slot::Unlocked(final(reg)@[exclusive_key(token)].payload()),
            ),
    {
        if !reg.contains_state(TypeKey { token, discipline: Discipline::Exclusive }) {
            let state = V::default();
            Self::init(reg, token, state);
        }
        Self::get(reg, token)
    }
}

impl<V> Clone for MutAppState<V> {
    /// Clones the handle; both handles designate the same entry and
    /// therefore share the same lock and payload.
    fn clone(&self) -> (r: Self)
        ensures
            r.spec_token() == self.spec_token(),
    {
        MutAppState { token: self.token, _marker: core::marker::PhantomData }
    }
}

} // verus!
