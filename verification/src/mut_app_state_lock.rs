//! The scoped lock guard for an exclusive registration. While a guard is
//! outstanding, its entry in the store is marked locked under the guard's
//! stamp and the payload is held by the guard, which gives direct read
//! and write access. Releasing the guard writes the payload back and
//! unlocks the entry — provided the entry is still locked under this
//! guard's stamp; if an overwriting registration has replaced the entry
//! in the meantime, the guard's payload is simply discarded, like a write
//! to an instance the store no longer holds.

use vstd::prelude::*;

use crate::mutable_app_state::MutAppState;
use crate::store::Registry;
use crate::store::Slot;
use crate::store::exclusive_key;

verus! {

/// A held lock on an exclusive registration's payload. At most one guard
/// per entry is outstanding at a time; a release presenting the guard's
/// stamp restores the entry to its unlocked state.
pub struct MutAppStateLock<V> {
    token: u64,
    stamp: u64,
    state: V,
}

impl<V> MutAppStateLock<V> {
    /// The identity token of the locked entry.
    pub closed spec fn spec_token(self) -> u64 {
        self.token
    }

    /// The stamp under which this guard holds the lock.
    pub closed spec fn spec_stamp(self) -> u64 {
        self.stamp
    }

    /// The payload as seen — and possibly rewritten — through this guard.
    pub closed spec fn value(self) -> V {
        self.state
    }

    /// Acquires the lock on the entry designated by `inner`, taking its
    /// payload into the returned guard and marking the entry locked under
    /// the guard's stamp.
    pub fn new(inner: &MutAppState<V>, reg: &mut Registry<V>) -> (guard: Self)
        requires
            old(reg).wf(),
            old(reg)@.dom().contains(exclusive_key(inner.spec_token())),
            old(reg)@[exclusive_key(inner.spec_token())] is Unlocked,
        ensures
            final(reg).wf(),
            guard.spec_token() == inner.spec_token(),
            guard.value() == old(reg)@[exclusive_key(inner.spec_token())].payload(),
            final(reg)@ == old(reg)@.insert(
                exclusive_key(inner.spec_token()),
                Slot::Locked(guard.spec_stamp()),
            ),
    {
        let token = inner.token();
        let (state, stamp) = reg.acquire(token);
        MutAppStateLock { token, stamp, state }
    }

    /// Borrows the payload held by this guard.
    pub fn get_ref(&self) -> (r: &V)
        ensures
            *r == self.value(),
    {
        &self.state
    }

    /// Replaces the payload held by this guard. The store sees the new
    /// payload once the guard is released.
    pub fn set(&mut self, state: V)
        ensures
            final(self).value() == state,
            final(self).spec_token() == old(self).spec_token(),
            final(self).spec_stamp() == old(self).spec_stamp(),
    {
        self.state = state;
    }

    /// Releases the lock, writing the guard's payload back into the
    /// entry if the entry is still locked under this guard's stamp. An
    /// entry replaced or re-registered in the meantime is left as it is,
    /// and the guard's payload is discarded.
    pub fn release(self, reg: &mut Registry<V>)
        requires
            old(reg).wf(),
        ensures
            final(reg).wf(),
            old(reg)@.dom().contains(exclusive_key(self.spec_token())) && old(reg)@[exclusive_key(
                self.spec_token(),
            )] == Slot::<V>::Locked(self.spec_stamp()) ==> final(reg)@ == old(reg)@.insert(
                exclusive_key(self.spec_token()),
                Slot::Unlocked(self.value()),
            ),
            !(old(reg)@.dom().contains(exclusive_key(self.spec_token()))
                && old(reg)@[exclusive_key(self.spec_token())] == Slot::<V>::Locked(
                self.spec_stamp(),
            )) ==> final(reg)@ == old(reg)@,
    {
        reg.release_state(self.token, self.stamp, self.state)
    }

    /// Unwraps the guard into the payload it holds, abandoning the lock:
    /// the entry stays locked under the guard's stamp, and no later
    /// acquisition can succeed until an overwriting registration replaces
    /// it.
    pub fn into_inner(self) -> (r: V)
        ensures
            r == self.value(),
    {
        self.state
    }
}

} // verus!
