//! The uniform registry access protocol, and the registration helper
//! traits payload types can adopt.
//!
//! Both handle kinds offer the same operation set — initialize,
//! initialize-if-absent, get, try-get, and the get-or-insert variants —
//! with one contract, so that code consuming the protocol (in particular
//! a signature-rewriting code generator) can treat the two disciplines
//! symmetrically and select one purely from the declared handle type.

use vstd::prelude::*;

use crate::app_state::AppState;
use crate::mutable_app_state::MutAppState;
use crate::store::AppStateError;
use crate::store::Registry;
use crate::store::Slot;
use crate::store::TypeKey;
use crate::store::exclusive_key;
use crate::store::shared_key;
use crate::store::spec_find;

verus! {

/// The registry access protocol: one contract over both handle kinds,
/// parameterized by how the handle kind keys and stores a payload and by
/// what it means for a handle to wrap a store entry.
pub trait AppStateTrait<V>: Sized {
    /// The store key this handle kind uses for the type with identity
    /// `token`.
    spec fn key(token: u64) -> TypeKey;

    /// The slot this handle kind stores a payload in: a shared slot, or
    /// an unlocked exclusive slot.
    spec fn stored(state: V) -> Slot<V>;

    /// Whether `self` is a handle to the registration of `token` in a
    /// store modelled by `m`.
    spec fn wraps(self, m: Map<TypeKey, Slot<V>>, token: u64) -> bool;

    /// Registers `state` for `token`, replacing any previous registration
    /// of that type under this handle kind's discipline and touching no
    /// other entry.
    fn init(reg: &mut Registry<V>, token: u64, state: V)
        requires
            old(reg).wf(),
        ensures
            final(reg).wf(),
            final(reg)@ == old(reg)@.insert(Self::key(token), Self::stored(state)),
    ;

    /// Registers the value produced by `f` for `token`, but only if no
    /// registration of that type exists under this discipline; an
    /// existing registration leaves the store untouched and the factory
    /// unconsulted.
    fn init_if_not_exists<F: FnOnce() -> V>(reg: &mut Registry<V>, token: u64, f: F)
        requires
            old(reg).wf(),
            f.requires(()),
        ensures
            final(reg).wf(),
            old(reg)@.dom().contains(Self::key(token)) ==> final(reg)@ == old(reg)@,
            !old(reg)@.dom().contains(Self::key(token)) ==> f.ensures(
                (),
                final(reg)@[Self::key(token)].payload(),
            ),
            !old(reg)@.dom().contains(Self::key(token)) ==> final(reg)@ == old(reg)@.insert(
                Self::key(token),
                Self::stored(final(reg)@[Self::key(token)].payload()),
            ),
    ;

    /// Returns a handle to the registration of `token`, which must be
    /// present; requesting a never-registered type terminates the calling
    /// context instead of returning.
    fn get(reg: &Registry<V>, token: u64) -> (r: Self)
        requires
            reg.wf(),
            reg@.dom().contains(Self::key(token)),
        ensures
            r.wraps(reg@, token),
    ;

    /// Returns a handle to the registration of `token`, or the error
    /// saying why none could be produced.
    fn try_get(reg: &Registry<V>, token: u64) -> (r: Result<Self, AppStateError>)
        requires
            reg.wf(),
        ensures
            (spec_find(reg@, Self::key(token)) matches Ok(slot) ==> r matches Ok(h) && h.wraps(
                reg@,
                token,
            )),
            (spec_find(reg@, Self::key(token)) matches Err(e) ==> r matches Err(e2) && e2 == e),
    ;

    /// Returns a handle to the registration of `token`, first registering
    /// `state` if that type has no registration under this discipline.
    fn get_or_insert(reg: &mut Registry<V>, token: u64, state: V) -> (r: Self)
        requires
            old(reg).wf(),
        ensures
            final(reg).wf(),
            old(reg)@.dom().contains(Self::key(token)) ==> final(reg)@ == old(reg)@,
            !old(reg)@.dom().contains(Self::key(token)) ==> final(reg)@ == old(reg)@.insert(
                Self::key(token),
                Self::stored(state),
            ),
            r.wraps(final(reg)@, token),
    ;

    /// Returns a handle to the registration of `token`, first registering
    /// the value produced by `f` if that type has no registration under
    /// this discipline; an existing registration leaves the factory
    /// unconsulted.
    fn get_or_insert_with<F: FnOnce() -> V>(reg: &mut Registry<V>, token: u64, f: F) -> (r: Self)
        requires
            old(reg).wf(),
            f.requires(()),
        ensures
            final(reg).wf(),
            old(reg)@.dom().contains(Self::key(token)) ==> final(reg)@ == old(reg)@,
            !old(reg)@.dom().contains(Self::key(token)) ==> f.ensures(
                (),
                final(reg)@[Self::key(token)].payload(),
            ),
            !old(reg)@.dom().contains(Self::key(token)) ==> final(reg)@ == old(reg)@.insert(
                Self::key(token),
                Self::stored(final(reg)@[Self::key(token)].payload()),
            ),
            r.wraps(final(reg)@, token),
    ;

    /// Returns a handle to the registration of `token`, first registering
    /// the payload type's default value if that type has no registration
    /// under this discipline.
    fn get_or_insert_default(reg: &mut Registry<V>, token: u64) -> (r: Self) where V: Default
        requires
            old(reg).wf(),
        ensures
            final(reg).wf(),
            old(reg)@.dom().contains(Self::key(token)) ==> final(reg)@ == old(reg)@,
            !old(reg)@.dom().contains(Self::key(token)) ==> V::default.ensures(
                (),
                final(reg)@[Self::key(token)].payload(),
            ),
            !old(reg)@.dom().contains(Self::key(token)) ==> final(reg)@ == old(reg)@.insert(
                Self::key(token),
                Self::stored(final(reg)@[Self::key(token)].payload()),
            ),
            r.wraps(final(reg)@, token),
    ;
}

impl<V> AppStateTrait<V> for AppState<V> {
    open spec fn key(token: u64) -> TypeKey {
        shared_key(token)
    }

    open spec fn stored(state: V) -> Slot<V> {
        Slot::Shared(state)
    }

    open spec fn wraps(self, m: Map<TypeKey, Slot<V>>, token: u64) -> bool {
        m.dom().contains(shared_key(token)) && m[shared_key(token)] is Shared && self.value()
            == m[shared_key(token)].payload()
    }

    fn init(reg: &mut Registry<V>, token: u64, state: V) {
        AppState::init(reg, token, state)
    }

    fn init_if_not_exists<F: FnOnce() -> V>(reg: &mut Registry<V>, token: u64, f: F) {
        AppState::init_if_not_exists(reg, token, f)
    }

    fn get(reg: &Registry<V>, token: u64) -> (r: Self) {
        AppState::get(reg, token)
    }

    fn try_get(reg: &Registry<V>, token: u64) -> (r: Result<Self, AppStateError>) {
        AppState::try_get(reg, token)
    }

    fn get_or_insert(reg: &mut Registry<V>, token: u64, state: V) -> (r: Self) {
        AppState::get_or_insert(reg, token, state)
    }

    fn get_or_insert_with<F: FnOnce() -> V>(reg: &mut Registry<V>, token: u64, f: F) -> (r: Self) {
        AppState::get_or_insert_with(reg, token, f)
    }

    fn get_or_insert_default(reg: &mut Registry<V>, token: u64) -> (r: Self) where V: Default {
        AppState::get_or_insert_default(reg, token)
    }
}

impl<V> AppStateTrait<V> for MutAppState<V> {
    open spec fn key(token: u64) -> TypeKey {
        exclusive_key(token)
    }

    open spec fn stored(state: V) -> Slot<V> {
        Slot::Unlocked(state)
    }

    open spec fn wraps(self, m: Map<TypeKey, Slot<V>>, token: u64) -> bool {
        self.spec_token() == token
    }

    fn init(reg: &mut Registry<V>, token: u64, state: V) {
        MutAppState::init(reg, token, state)
    }

    fn init_if_not_exists<F: FnOnce() -> V>(reg: &mut Registry<V>, token: u64, f: F) {
        MutAppState::init_if_not_exists(reg, token, f)
    }

    fn get(reg: &Registry<V>, token: u64) -> (r: Self) {
        MutAppState::get(reg, token)
    }

    fn try_get(reg: &Registry<V>, token: u64) -> (r: Result<Self, AppStateError>) {
        MutAppState::try_get(reg, token)
    }

    fn get_or_insert(reg: &mut Registry<V>, token: u64, state: V) -> (r: Self) {
        MutAppState::get_or_insert(reg, token, state)
    }

    fn get_or_insert_with<F: FnOnce() -> V>(reg: &mut Registry<V>, token: u64, f: F) -> (r: Self) {
        MutAppState::get_or_insert_with(reg, token, f)
    }

    fn get_or_insert_default(reg: &mut Registry<V>, token: u64) -> (r: Self) where V: Default {
        MutAppState::get_or_insert_default(reg, token)
    }
}

/// Construction of a fresh, unregistered handle from a bare payload.
/// The shared handle implements it: its payload lives in the handle
/// itself. An exclusive handle cannot exist apart from its store entry,
/// so the exclusive kind is created only by registration.
pub trait CreateAppState<V>: Sized {
    /// Whether `self` is a handle holding exactly `state`.
    spec fn holds(self, state: V) -> bool;

    /// Wraps `state` in a fresh handle, not yet registered in any store.
    fn new(state: V) -> (r: Self)
        ensures
            r.holds(state),
    ;
}

impl<V> CreateAppState<V> for AppState<V> {
    open spec fn holds(self, state: V) -> bool {
        self.value() == state
    }

    fn new(state: V) -> (r: Self) {
        AppState::new(state)
    }
}

/// Registration helper for the shared discipline: a payload type adopting
/// this trait can register itself directly.
pub trait InitAppState where Self: Sized {
    /// Registers `self` as the shared state for `token`, replacing any
    /// previous shared registration of that type.
    fn init_app_state(self, reg: &mut Registry<Self>, token: u64)
        requires
            old(reg).wf(),
        ensures
            final(reg).wf(),
            final(reg)@ == old(reg)@.insert(shared_key(token), Slot::Shared(self)),
    {
        AppState::init(reg, token, self)
    }
}

/// Registration helper for the exclusive discipline: a payload type
/// adopting this trait can register itself directly.
pub trait InitMutAppState where Self: Sized {
    /// Registers `self` as the exclusive state for `token`, replacing any
    /// previous exclusive registration of that type.
    fn init_mut_app_state(self, reg: &mut Registry<Self>, token: u64)
        requires
            old(reg).wf(),
        ensures
            final(reg).wf(),
            final(reg)@ == old(reg)@.insert(exclusive_key(token), Slot::Unlocked(self)),
    {
        MutAppState::init(reg, token, self)
    }
}

} // verus!
