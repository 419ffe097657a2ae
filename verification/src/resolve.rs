//! Execution of resolution steps: the statements a signature rewrite
//! plans are carried out here against a store, one verified operation
//! per step. A caller that resolves a plan runs its steps in the planned
//! order; each step yields the handle — or, for locked kinds, the
//! acquired guard — that the rewritten function body binds.

use vstd::prelude::*;

use crate::app_state::AppState;
use crate::mut_app_state_lock::MutAppStateLock;
use crate::mutable_app_state::MutAppState;
use crate::rewrite::ResolveStep;
use crate::rewrite::StateKind;
use crate::rewrite::StepModel;
use crate::store::Registry;
use crate::store::Slot;
use crate::store::TypeKey;
use crate::store::exclusive_key;
use crate::store::shared_key;

verus! {

/// What one resolution step yields: a shared handle, an exclusive
/// handle, or an exclusive guard with the lock already held.
pub enum Resolved<V> {
    SharedHandle(AppState<V>),
    ExclusiveHandle(MutAppState<V>),
    LockedGuard(MutAppStateLock<V>),
}

/// The store key a resolution step addresses.
pub open spec fn step_key(s: StepModel) -> TypeKey {
    match s.kind {
        StateKind::Shared => shared_key(s.payload),
        StateKind::Exclusive => exclusive_key(s.payload),
        StateKind::ExclusiveLocked => exclusive_key(s.payload),
    }
}

/// Whether a resolution step can run against a store modelled by `m`: a
/// step without on-demand initialization needs its entry present, a
/// locked step needs it unlocked as well, and an on-demand locked step
/// tolerates absence but not a held lock.
pub open spec fn step_enabled<V>(m: Map<TypeKey, Slot<V>>, s: StepModel) -> bool {
    match s.kind {
        StateKind::Shared => s.on_demand || m.dom().contains(step_key(s)),
        StateKind::Exclusive => s.on_demand || m.dom().contains(step_key(s)),
        StateKind::ExclusiveLocked => if s.on_demand {
            m.dom().contains(step_key(s)) ==> m[step_key(s)] is Unlocked
        } else {
            m.dom().contains(step_key(s)) && m[step_key(s)] is Unlocked
        },
    }
}

/// Runs one resolution step that was planned without on-demand
/// initialization: the addressed entry must already be registered. A
/// shared step observes exactly the registered payload; an exclusive
/// step yields the handle for the entry; a locked step additionally
/// acquires the lock and observes the payload it protects.
pub fn resolve_step<V>(step: &ResolveStep, reg: &mut Registry<V>) -> (r: Resolved<V>)
    requires
        old(reg).wf(),
        !step.on_demand,
        step_enabled(old(reg)@, step@),
    ensures
        final(reg).wf(),
        step@.kind == StateKind::Shared ==> (r matches Resolved::SharedHandle(h) && final(reg)@
            == old(reg)@ && h.value() == old(reg)@[shared_key(step@.payload)].payload()),
        step@.kind == StateKind::Exclusive ==> (r matches Resolved::ExclusiveHandle(h)
            && final(reg)@ == old(reg)@ && h.spec_token() == step@.payload),
        step@.kind == StateKind::ExclusiveLocked ==> (r matches Resolved::LockedGuard(g)
            && g.spec_token() == step@.payload && g.value() == old(reg)@[exclusive_key(
            step@.payload,
        )].payload() && final(reg)@ == old(reg)@.insert(
            exclusive_key(step@.payload),
            Slot::Locked(g.spec_stamp()),
        )),
{
    match step.kind {
        StateKind::Shared => Resolved::SharedHandle(AppState::get(reg, step.payload)),
        StateKind::Exclusive => Resolved::ExclusiveHandle(MutAppState::get(reg, step.payload)),
        StateKind::ExclusiveLocked => {
            let handle = MutAppState::get(reg, step.payload);
            let guard = handle.get_mut(reg);
            Resolved::LockedGuard(guard)
        },
    }
}

/// Runs one resolution step whose payload type can be default
/// constructed, honoring on-demand initialization: an entry absent from
/// the store is first registered with the payload type's default value,
/// and the step then observes either the previously registered payload
/// or that default.
pub fn resolve_step_or_default<V: Default>(step: &ResolveStep, reg: &mut Registry<V>) -> (r:
    Resolved<V>)
    requires
        old(reg).wf(),
        step_enabled(old(reg)@, step@),
    ensures
        final(reg).wf(),
        step@.kind == StateKind::Shared ==> (r matches Resolved::SharedHandle(h) && (old(reg)@.dom().contains(shared_key(step@.payload)) ==> final(reg)@ == old(reg)@ && h.value()
            == old(reg)@[shared_key(step@.payload)].payload()) && (!old(reg)@.dom().contains(
            shared_key(step@.payload),
        ) ==> V::default.ensures((), h.value()) && final(reg)@ == old(reg)@.insert(
            shared_key(step@.payload),
            Slot::Shared(h.value()),
        ))),
        step@.kind == StateKind::Exclusive ==> (r matches Resolved::ExclusiveHandle(h)
            && h.spec_token() == step@.payload && (old(reg)@.dom().contains(
            exclusive_key(step@.payload),
        ) ==> final(reg)@ == old(reg)@) && (!old(reg)@.dom().contains(exclusive_key(step@.payload))
            ==> V::default.ensures((), final(reg)@[exclusive_key(step@.payload)].payload())
            && final(reg)@ == old(reg)@.insert(
            exclusive_key(step@.payload),
            Slot::Unlocked(final(reg)@[exclusive_key(step@.payload)].payload()),
        ))),
        step@.kind == StateKind::ExclusiveLocked ==> (r matches Resolved::LockedGuard(g)
            && g.spec_token() == step@.payload && (old(reg)@.dom().contains(
            exclusive_key(step@.payload),
        ) ==> g.value() == old(reg)@[exclusive_key(step@.payload)].payload() && final(reg)@ == old(reg)@.insert(exclusive_key(step@.payload), Slot::Locked(g.spec_stamp()))) && (!old(reg)@.dom().contains(exclusive_key(step@.payload)) ==> V::default.ensures((), g.value())
            && final(reg)@ == old(reg)@.insert(exclusive_key(step@.payload), Slot::Unlocked(
            g.value(),
        )).insert(exclusive_key(step@.payload), Slot::Locked(g.spec_stamp())))),
{
    match step.kind {
        StateKind::Shared => {
            let h = if step.on_demand {
                AppState::get_or_insert_default(reg, step.payload)
            } else {
                AppState::get(reg, step.payload)
            };
            Resolved::SharedHandle(h)
        },
        StateKind::Exclusive => {
            let h = if step.on_demand {
                MutAppState::get_or_insert_default(reg, step.payload)
            } else {
                MutAppState::get(reg, step.payload)
            };
            Resolved::ExclusiveHandle(h)
        },
        StateKind::ExclusiveLocked => {
            let handle = if step.on_demand {
                MutAppState::get_or_insert_default(reg, step.payload)
            } else {
                MutAppState::get(reg, step.payload)
            };
            let guard = handle.get_mut(reg);
            Resolved::LockedGuard(guard)
        },
    }
}

} // verus!
