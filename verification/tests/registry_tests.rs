//! Scenario tests for the registry access protocol on concrete values:
//! overwrite semantics, create-once semantics, error reporting, the lock
//! discipline, and the independence of the two disciplines.

use app_state::AppState;
use app_state::AppStateError;
use app_state::AppStateTrait;
use app_state::MutAppState;
use app_state::Registry;

const COUNTER_TOKEN: u64 = 7;

#[derive(Default)]
struct Counter {
    n: u32,
}

#[test]
fn test_init_provides_value_shared() {
    let mut reg: Registry<Counter> = Registry::new();
    AppState::init(&mut reg, COUNTER_TOKEN, Counter { n: 41 });
    assert_eq!(AppState::<Counter>::get(&reg, COUNTER_TOKEN).get_ref().n, 41);
}

#[test]
fn test_init_provides_value_exclusive() {
    let mut reg: Registry<Counter> = Registry::new();
    MutAppState::init(&mut reg, COUNTER_TOKEN, Counter { n: 41 });
    let handle = MutAppState::<Counter>::get(&reg, COUNTER_TOKEN);
    let guard = handle.get_mut(&mut reg);
    assert_eq!(guard.get_ref().n, 41);
    guard.release(&mut reg);
}

#[test]
fn test_init_overwrites_shared() {
    let mut reg: Registry<Counter> = Registry::new();
    AppState::init(&mut reg, COUNTER_TOKEN, Counter { n: 1 });
    AppState::init(&mut reg, COUNTER_TOKEN, Counter { n: 2 });
    assert_eq!(AppState::<Counter>::get(&reg, COUNTER_TOKEN).get_ref().n, 2);
}

#[test]
fn test_init_overwrites_exclusive() {
    let mut reg: Registry<Counter> = Registry::new();
    MutAppState::init(&mut reg, COUNTER_TOKEN, Counter { n: 1 });
    MutAppState::init(&mut reg, COUNTER_TOKEN, Counter { n: 2 });
    let handle = MutAppState::<Counter>::get(&reg, COUNTER_TOKEN);
    let guard = handle.get_mut(&mut reg);
    assert_eq!(guard.get_ref().n, 2);
    guard.release(&mut reg);
}

#[test]
fn test_init_if_not_exists_first_wins() {
    let mut reg: Registry<Counter> = Registry::new();
    AppState::init_if_not_exists(&mut reg, COUNTER_TOKEN, || Counter { n: 1 });
    // The second factory must not run at all: it would panic.
    AppState::init_if_not_exists(&mut reg, COUNTER_TOKEN, || -> Counter {
        panic!("the factory of a second create-once registration ran")
    });
    assert_eq!(AppState::<Counter>::get(&reg, COUNTER_TOKEN).get_ref().n, 1);
}

#[test]
fn test_get_or_insert_constructs_once() {
    let mut reg: Registry<Counter> = Registry::new();
    let first = MutAppState::<Counter>::get_or_insert_with(&mut reg, COUNTER_TOKEN, || Counter {
        n: 10,
    });
    // Every later call observes the first construction; no second
    // instance is made, whatever value its factory would produce.
    let again = MutAppState::<Counter>::get_or_insert_with(&mut reg, COUNTER_TOKEN, || -> Counter {
        panic!("a second instance was constructed")
    });
    assert_eq!(first.token(), again.token());
    let guard = again.get_mut(&mut reg);
    assert_eq!(guard.get_ref().n, 10);
    guard.release(&mut reg);
}

#[test]
fn test_try_get_untouched_reports_not_initialized() {
    let reg: Registry<Counter> = Registry::new();
    match AppState::<Counter>::try_get(&reg, COUNTER_TOKEN) {
        Err(e) => {
            assert_eq!(e, AppStateError::NotInitialized);
            assert_eq!(e.message(), "The state store has not yet been initialized");
        },
        Ok(_) => panic!("an untouched store must report a not-found outcome"),
    }
}

#[test]
fn test_try_get_missing_reports_not_found() {
    let mut reg: Registry<Counter> = Registry::new();
    AppState::init(&mut reg, COUNTER_TOKEN, Counter { n: 1 });
    match AppState::<Counter>::try_get(&reg, COUNTER_TOKEN + 1) {
        Err(e) => {
            assert_eq!(e, AppStateError::NotFound);
            assert_eq!(e.message(), "Could not find requested state");
        },
        Ok(_) => panic!("a never-registered key must report a not-found outcome"),
    }
}

#[test]
fn test_type_mismatch_message() {
    // A store built through this crate's operations never produces this
    // outcome — the contracts prove the read-time gate dead — but the
    // error it would report is part of the taxonomy.
    assert_eq!(AppStateError::TypeMismatch.message(), "Could not cast to requested state");
}

#[test]
fn test_disciplines_are_independent() {
    let mut reg: Registry<Counter> = Registry::new();
    AppState::init(&mut reg, COUNTER_TOKEN, Counter { n: 1 });
    // The same type token under the exclusive discipline is a separate
    // entry: registering one never touches the other.
    assert!(MutAppState::<Counter>::try_get(&reg, COUNTER_TOKEN).is_err());
    MutAppState::init(&mut reg, COUNTER_TOKEN, Counter { n: 2 });
    assert_eq!(AppState::<Counter>::get(&reg, COUNTER_TOKEN).get_ref().n, 1);
    let handle = MutAppState::<Counter>::get(&reg, COUNTER_TOKEN);
    let guard = handle.get_mut(&mut reg);
    assert_eq!(guard.get_ref().n, 2);
    guard.release(&mut reg);
}

#[test]
fn test_lock_mutation_visible_after_release() {
    let mut reg: Registry<Counter> = Registry::new();
    MutAppState::init(&mut reg, COUNTER_TOKEN, Counter { n: 0 });
    let handle = MutAppState::<Counter>::get(&reg, COUNTER_TOKEN);
    let mut guard = handle.get_mut(&mut reg);
    guard.set(Counter { n: 1 });
    guard.release(&mut reg);
    let guard = handle.get_mut(&mut reg);
    assert_eq!(guard.get_ref().n, 1);
    guard.release(&mut reg);
}

#[test]
fn test_release_after_overwrite_discards_stale_write() {
    let mut reg: Registry<Counter> = Registry::new();
    MutAppState::init(&mut reg, COUNTER_TOKEN, Counter { n: 1 });
    let handle = MutAppState::<Counter>::get(&reg, COUNTER_TOKEN);
    let mut guard = handle.get_mut(&mut reg);
    guard.set(Counter { n: 99 });
    // An overwriting registration detaches the instance the guard holds;
    // the guard's release then goes to the detached instance, and the
    // store keeps the new registration.
    MutAppState::init(&mut reg, COUNTER_TOKEN, Counter { n: 2 });
    guard.release(&mut reg);
    let guard = handle.get_mut(&mut reg);
    assert_eq!(guard.get_ref().n, 2);
    guard.release(&mut reg);
}

#[test]
fn test_reset_returns_store_to_untouched() {
    let mut reg: Registry<Counter> = Registry::new();
    AppState::init(&mut reg, COUNTER_TOKEN, Counter { n: 1 });
    reg.reset();
    match AppState::<Counter>::try_get(&reg, COUNTER_TOKEN) {
        Err(e) => assert_eq!(e, AppStateError::NotInitialized),
        Ok(_) => panic!("a reset store must hold nothing"),
    }
}

#[test]
fn test_handles_share_one_instance() {
    let mut reg: Registry<Counter> = Registry::new();
    AppState::init(&mut reg, COUNTER_TOKEN, Counter { n: 5 });
    let first = AppState::<Counter>::get(&reg, COUNTER_TOKEN);
    let second = first.clone();
    let third = AppState::<Counter>::get(&reg, COUNTER_TOKEN);
    assert!(std::sync::Arc::ptr_eq(&second.into_inner(), &third.into_inner()));
}

#[test]
fn test_into_inner_values() {
    let mut reg: Registry<Counter> = Registry::new();
    AppState::init(&mut reg, COUNTER_TOKEN, Counter { n: 5 });
    let arc = AppState::<Counter>::get(&reg, COUNTER_TOKEN).into_inner();
    assert_eq!(arc.n, 5);

    MutAppState::init(&mut reg, COUNTER_TOKEN, Counter { n: 6 });
    let handle = MutAppState::<Counter>::get(&reg, COUNTER_TOKEN);
    assert_eq!(handle.clone().into_inner(), COUNTER_TOKEN);
    let guard = handle.get_mut(&mut reg);
    let taken = guard.into_inner();
    assert_eq!(taken.n, 6);
    // The abandoned lock stays held until an overwriting registration
    // replaces the entry.
    assert!(MutAppState::<Counter>::try_get(&reg, COUNTER_TOKEN).is_ok());
}

#[test]
fn test_protocol_trait_speaks_for_both_kinds() {
    let mut reg: Registry<Counter> = Registry::new();
    <AppState<Counter> as AppStateTrait<Counter>>::init(&mut reg, COUNTER_TOKEN, Counter { n: 3 });
    <MutAppState<Counter> as AppStateTrait<Counter>>::init(
        &mut reg,
        COUNTER_TOKEN,
        Counter { n: 4 },
    );
    let shared = <AppState<Counter> as AppStateTrait<Counter>>::get(&reg, COUNTER_TOKEN);
    assert_eq!(shared.get_ref().n, 3);
    let exclusive =
        <MutAppState<Counter> as AppStateTrait<Counter>>::try_get(&reg, COUNTER_TOKEN).unwrap();
    let guard = exclusive.get_mut(&mut reg);
    assert_eq!(guard.get_ref().n, 4);
    guard.release(&mut reg);
    let dflt = <MutAppState<Counter> as AppStateTrait<Counter>>::get_or_insert_default(
        &mut reg,
        COUNTER_TOKEN + 1,
    );
    let guard = dflt.get_mut(&mut reg);
    assert_eq!(guard.get_ref().n, 0);
    guard.release(&mut reg);
}

#[test]
fn test_from_arc_adopts_payload() {
    let handle: AppState<Counter> = AppState::from(std::sync::Arc::new(Counter { n: 8 }));
    assert_eq!(handle.get_ref().n, 8);
}

#[test]
fn test_new_wraps_value() {
    let state = AppState::new(Counter { n: 12 });
    assert_eq!(state.get_ref().n, 12);
}
