//! Laws of the registry access protocol, stated over the store's
//! mathematical model — the map from type keys to slots that every
//! operation's contract speaks of — and proved once for all payload
//! types, tokens and values.

use vstd::prelude::*;

use crate::store::AppStateError;
use crate::store::Slot;
use crate::store::TypeKey;
use crate::store::exclusive_key;
use crate::store::shared_key;
use crate::store::spec_find;

verus! {

/// The store a create-once registration leaves behind: the store
/// untouched if the key is already present, and otherwise the store with
/// the new slot added. This is the shape the contracts of
/// `init_if_not_exists` and the `get_or_insert` family describe.
pub open spec fn spec_init_if_absent<V>(
    m: Map<TypeKey, Slot<V>>,
    key: TypeKey,
    s: Slot<V>,
) -> Map<TypeKey, Slot<V>> {
    if m.dom().contains(key) {
        m
    } else {
        m.insert(key, s)
    }
}

/// After registering a value under the shared discipline, a lookup under
/// the same token's shared key finds exactly that value: for every store,
/// token and payload, initialization followed by retrieval yields the
/// initialized payload.
pub proof fn lemma_init_then_get_shared<V>(m: Map<TypeKey, Slot<V>>, token: u64, state: V)
    ensures
        spec_find(m.insert(shared_key(token), Slot::Shared(state)), shared_key(token))
            == Ok::<Slot<V>, AppStateError>(Slot::Shared(state)),
        Slot::Shared(state).payload() == state,
{
}

/// After registering a value under the exclusive discipline, a lookup
/// under the same token's exclusive key finds exactly that value, held
/// unlocked: initialization followed by retrieval and lock acquisition
/// yields the initialized payload.
pub proof fn lemma_init_then_get_exclusive<V>(m: Map<TypeKey, Slot<V>>, token: u64, state: V)
    ensures
        spec_find(m.insert(exclusive_key(token), Slot::Unlocked(state)), exclusive_key(token))
            == Ok::<Slot<V>, AppStateError>(Slot::Unlocked(state)),
        Slot::Unlocked(state).payload() == state,
{
}

/// Initialization is an overwrite: registering twice under one key leaves
/// exactly the second registration, and a lookup finds it — never the
/// first value.
pub proof fn lemma_init_overwrites<V>(m: Map<TypeKey, Slot<V>>, key: TypeKey, s1: Slot<V>, s2: Slot<
    V,
>)
    ensures
        m.insert(key, s1).insert(key, s2) == m.insert(key, s2),
        spec_find(m.insert(key, s1).insert(key, s2), key) == Ok::<Slot<V>, AppStateError>(s2),
{
    assert(m.insert(key, s1).insert(key, s2) =~= m.insert(key, s2));
}

/// Create-once registration is won by the first caller: a second
/// create-once registration under the same key changes nothing, whatever
/// value its factory would have produced, and a lookup finds the first
/// value. (This is also the sequential content of racing `get_or_insert`
/// calls: only the first constructs an instance, and every later call
/// observes it.)
pub proof fn lemma_init_if_absent_first_wins<V>(
    m: Map<TypeKey, Slot<V>>,
    key: TypeKey,
    s1: Slot<V>,
    s2: Slot<V>,
)
    ensures
        spec_init_if_absent(spec_init_if_absent(m, key, s1), key, s2) == spec_init_if_absent(
            m,
            key,
            s1,
        ),
        !m.dom().contains(key) ==> spec_find(
            spec_init_if_absent(spec_init_if_absent(m, key, s1), key, s2),
            key,
        ) == Ok::<Slot<V>, AppStateError>(s1),
{
}

/// A lookup in an untouched store reports that the store was never
/// initialized — an error outcome, never a success and never a
/// termination.
pub proof fn lemma_try_get_untouched<V>(key: TypeKey)
    ensures
        spec_find(Map::<TypeKey, Slot<V>>::empty(), key) == Err::<Slot<V>, AppStateError>(
            AppStateError::NotInitialized,
        ),
{
    assert(!Map::<TypeKey, Slot<V>>::empty().dom().contains(key));
}

/// A lookup under a key that was never registered reports an error
/// outcome, whatever else the store holds.
pub proof fn lemma_try_get_never_registered<V>(m: Map<TypeKey, Slot<V>>, key: TypeKey)
    requires
        !m.dom().contains(key),
    ensures
        spec_find(m, key) is Err,
{
}

/// A mutation made under the lock is visible to the next acquisition:
/// locking an entry, writing a new payload back on release, and looking
/// the entry up again finds the new payload, unlocked.
pub proof fn lemma_exclusive_mutation_visible<V>(
    m: Map<TypeKey, Slot<V>>,
    token: u64,
    stamp: u64,
    rewritten: V,
)
    ensures
        spec_find(
            m.insert(exclusive_key(token), Slot::Locked(stamp)).insert(
                exclusive_key(token),
                Slot::Unlocked(rewritten),
            ),
            exclusive_key(token),
        ) == Ok::<Slot<V>, AppStateError>(Slot::Unlocked(rewritten)),
{
}

/// The two disciplines never share or alias an entry: a shared key and an
/// exclusive key are always distinct, so a shared registration leaves
/// every exclusive entry — even one for the same type — exactly as it
/// was, and conversely.
pub proof fn lemma_disciplines_independent<V>(
    m: Map<TypeKey, Slot<V>>,
    s: Slot<V>,
    t1: u64,
    t2: u64,
)
    ensures
        shared_key(t1) != exclusive_key(t2),
        m.insert(shared_key(t1), s).dom().contains(exclusive_key(t2)) == m.dom().contains(
            exclusive_key(t2),
        ),
        m.dom().contains(exclusive_key(t2)) ==> m.insert(shared_key(t1), s)[exclusive_key(t2)]
            == m[exclusive_key(t2)],
        m.insert(exclusive_key(t2), s).dom().contains(shared_key(t1)) == m.dom().contains(
            shared_key(t1),
        ),
        m.dom().contains(shared_key(t1)) ==> m.insert(exclusive_key(t2), s)[shared_key(t1)]
            == m[shared_key(t1)],
{
}

} // verus!
