//! The shared-discipline handle: a reference-counted, read-only view of a
//! payload registered in a store. Every handle for an entry observes the
//! same underlying instance, and no lock is needed to read it, because
//! the payload is immutable after construction.

use vstd::prelude::*;

use crate::store::AppStateError;
use crate::store::Discipline;
use crate::store::Registry;
use crate::store::Slot;
use crate::store::StoredValue;
use crate::store::TypeKey;
use crate::store::shared_key;
use crate::store::spec_find;

verus! {

use std::sync::Arc;

/// A read-only handle to a payload registered under the shared
/// discipline. Cloning the handle shares the same instance.
pub struct AppState<V> {
    inner: Arc<V>,
}

impl<V> AppState<V> {
    /// The payload this handle gives access to.
    pub closed spec fn value(self) -> V {
        *self.inner
    }

    /// Wraps `state` in a fresh shared handle, not yet registered in any
    /// store.
    pub fn new(state: V) -> (r: Self)
        ensures
            r.value() == state,
    {
        AppState { inner: Arc::new(state) }
    }

    /// Registers `state` under the shared discipline for the type with
    /// identity `token`, replacing any previous shared registration of
    /// that type. Exclusive registrations, and shared registrations of
    /// other types, are untouched.
    pub fn init(reg: &mut Registry<V>, token: u64, state: V)
        requires
            old(reg).wf(),
        ensures
            final(reg).wf(),
            final(reg)@ == old(reg)@.insert(shared_key(token), Slot::Shared(state)),
    {
        reg.insert_state(token, StoredValue::SharedValue(Arc::new(state)));
    }

    /// Registers the value produced by `f` under the shared discipline
    /// for `token`, but only if no shared registration of that type
    /// exists yet; an existing registration leaves the store untouched
    /// and the factory unconsulted.
    pub fn init_if_not_exists<F: FnOnce() -> V>(reg: &mut Registry<V>, token: u64, f: F)
        requires
            old(reg).wf(),
            f.requires(()),
        ensures
            final(reg).wf(),
            old(reg)@.dom().contains(shared_key(token)) ==> final(reg)@ == old(reg)@,
            !old(reg)@.dom().contains(shared_key(token)) ==> f.ensures(
                (),
                final(reg)@[shared_key(token)].payload(),
            ),
            !old(reg)@.dom().contains(shared_key(token)) ==> final(reg)@ == old(reg)@.insert(
                shared_key(token),
                Slot::Shared(final(reg)@[shared_key(token)].payload()),
            ),
    {
        if !reg.contains_state(TypeKey { token, discipline: Discipline::Shared }) {
            let state = f();
            Self::init(reg, token, state);
        }
    }

    /// Returns a handle to the shared registration of `token`, which must
    /// be present: requesting a never-registered type is a configuration
    /// defect, not an expected runtime condition, and terminates the
    /// calling context instead of returning. Callers that want a
    /// recoverable outcome use `try_get`.
    pub fn get(reg: &Registry<V>, token: u64) -> (r: Self)
        requires
            reg.wf(),
            reg@.dom().contains(shared_key(token)),
        ensures
            reg@[shared_key(token)] is Shared,
            r.value() == reg@[shared_key(token)].payload(),
    {
        match Self::try_get(reg, token) {
            Ok(h) => h,
            Err(_) => unreached(),
        }
    }

    /// Returns a handle to the shared registration of `token`, or reports
    /// why none could be produced: the store was never initialized, holds
    /// no entry under the key, or — with a defective keying scheme —
    /// holds an entry of the other discipline, which the read-time check
    /// reports as a mismatch rather than assuming it impossible.
    pub fn try_get(reg: &Registry<V>, token: u64) -> (r: Result<Self, AppStateError>)
        requires
            reg.wf(),
        ensures
            (spec_find(reg@, shared_key(token)) matches Ok(slot) ==> r matches Ok(h) && slot
                is Shared && h.value() == slot.payload()),
            (spec_find(reg@, shared_key(token)) matches Err(e) ==> r matches Err(e2) && e2 == e),
    {
        match reg.find_state(TypeKey { token, discipline: Discipline::Shared }) {
            Ok(sv) => match sv {
                StoredValue::SharedValue(a) => Ok(AppState { inner: Arc::clone(a) }),
                _ => Err(AppStateError::TypeMismatch),
            },
            Err(e) => Err(e),
        }
    }

    /// Returns a handle to the shared registration of `token`, first
    /// registering `state` if no shared registration of that type exists.
    pub fn get_or_insert(reg: &mut Registry<V>, token: u64, state: V) -> (r: Self)
        requires
            old(reg).wf(),
        ensures
            final(reg).wf(),
            old(reg)@.dom().contains(shared_key(token)) ==> final(reg)@ == old(reg)@
                && old(reg)@[shared_key(token)] is Shared
                && r.value() == old(reg)@[shared_key(token)].payload(),
            !old(reg)@.dom().contains(shared_key(token)) ==> final(reg)@ == old(reg)@.insert(
                shared_key(token),
                Slot::Shared(state),
            ) && r.value() == state,
    {
        if !reg.contains_state(TypeKey { token, discipline: Discipline::Shared }) {
            Self::init(reg, token, state);
        }
        Self::get(reg, token)
    }

    /// Returns a handle to the shared registration of `token`, first
    /// registering the value produced by `f` if no shared registration of
    /// that type exists; an existing registration leaves the factory
    /// unconsulted.
    pub fn get_or_insert_with<F: FnOnce() -> V>(reg: &mut Registry<V>, token: u64, f: F) -> (r:
        Self)
        requires
            old(reg).wf(),
            f.requires(()),
        ensures
            final(reg).wf(),
            old(reg)@.dom().contains(shared_key(token)) ==> final(reg)@ == old(reg)@
                && old(reg)@[shared_key(token)] is Shared
                && r.value() == old(reg)@[shared_key(token)].payload(),
            !old(reg)@.dom().contains(shared_key(token)) ==> f.ensures((), r.value())
                && final(reg)@ == old(reg)@.insert(shared_key(token), Slot::Shared(r.value())),
    {
        if !reg.contains_state(TypeKey { token, discipline: Discipline::Shared }) {
            let state = f();
            Self::init(reg, token, state);
        }
        Self::get(reg, token)
    }

    /// Borrows the payload. No lock is involved: the payload of a shared
    /// registration is immutable.
    pub fn get_ref(&self) -> (r: &V)
        ensures
            *r == self.value(),
    {
        &*self.inner
    }

    /// Unwraps the handle into its reference-counted payload pointer.
    pub fn into_inner(self) -> (r: Arc<V>)
        ensures
            *r == self.value(),
    {
        self.inner
    }
}

impl<V: Default> AppState<V> {
    /// Returns a handle to the shared registration of `token`, first
    /// registering the payload type's default value if no shared
    /// registration of that type exists.
    pub fn get_or_insert_default(reg: &mut Registry<V>, token: u64) -> (r: Self)
        requires
            old(reg).wf(),
        ensures
            final(reg).wf(),
            old(reg)@.dom().contains(shared_key(token)) ==> final(reg)@ == old(reg)@
                && old(reg)@[shared_key(token)] is Shared
                && r.value() == old(reg)@[shared_key(token)].payload(),
            !old(reg)@.dom().contains(shared_key(token)) ==> V::default.ensures((), r.value())
                && final(reg)@ == old(reg)@.insert(shared_key(token), Slot::Shared(r.value())),
    {
        if !reg.contains_state(TypeKey { token, discipline: Discipline::Shared }) {
            let state = V::default();
            Self::init(reg, token, state);
        }
        Self::get(reg, token)
    }
}

impl<V> From<Arc<V>> for AppState<V> {
    /// Adopts a reference-counted payload pointer as a shared handle.
    fn from(arc: Arc<V>) -> (r: AppState<V>) {
        AppState { inner: arc }
    }
}

impl<V> vstd::std_specs::convert::FromSpecImpl<Arc<V>> for AppState<V> {
    open spec fn obeys_from_spec() -> bool {
        true
    }

    closed spec fn from_spec(arc: Arc<V>) -> AppState<V> {
        AppState { inner: arc }
    }
}

/// What adoption of a payload pointer yields: the handle built by the
/// standard conversion from `Arc` holds exactly the pointed-to payload.
pub proof fn lemma_from_arc<V>(arc: Arc<V>)
    ensures
        (<AppState<V> as vstd::std_specs::convert::FromSpec<Arc<V>>>::from_spec(arc)).value()
            == *arc,
{
}

impl<V> Clone for AppState<V> {
    /// Clones the handle; both handles share the same instance, so the
    /// payload seen through the clone is the payload of the original.
    fn clone(&self) -> (r: Self)
        ensures
            r.value() == self.value(),
    {
        AppState { inner: Arc::clone(&self.inner) }
    }
}

} // verus!
