//! The startup path: a payload type registered with its default value
//! before any user code asks for it, for either discipline or both, and
//! then observed directly or through planned injection.

use app_state::AppState;
use app_state::InjectConfig;
use app_state::MutAppState;
use app_state::Param;
use app_state::ParamType;
use app_state::Registry;
use app_state::Resolved;
use app_state::RewriteTarget;
use app_state::StateKind;
use app_state::expand_stateful;
use app_state::resolve_step;

const STATE_TOKEN: u64 = 1;
const MUT_STATE_TOKEN: u64 = 2;
const BOTH_STATE_TOKEN: u64 = 3;

struct State {
    name: String,
}

impl Default for State {
    fn default() -> Self {
        Self { name: "Hello".to_string() }
    }
}

struct MutState {
    name: String,
}

impl Default for MutState {
    fn default() -> Self {
        Self { name: "Hello".to_string() }
    }
}

struct BothState {
    name: String,
}

impl Default for BothState {
    fn default() -> Self {
        Self { name: "Hello".to_string() }
    }
}

fn startup_state() -> Registry<State> {
    let mut reg = Registry::new();
    AppState::init(&mut reg, STATE_TOKEN, State::default());
    reg
}

fn startup_mut_state() -> Registry<MutState> {
    let mut reg = Registry::new();
    MutAppState::init(&mut reg, MUT_STATE_TOKEN, MutState::default());
    reg
}

fn startup_both_state() -> Registry<BothState> {
    let mut reg = Registry::new();
    AppState::init(&mut reg, BOTH_STATE_TOKEN, BothState::default());
    MutAppState::init(&mut reg, BOTH_STATE_TOKEN, BothState::default());
    reg
}

fn shared_param(name: &str, token: u64) -> Param {
    Param { name: name.to_string(), ty: ParamType::Managed(StateKind::Shared, token), mutable: false }
}

fn exclusive_param(name: &str, token: u64) -> Param {
    Param {
        name: name.to_string(),
        ty: ParamType::Managed(StateKind::Exclusive, token),
        mutable: false,
    }
}

#[test]
fn default_init_tests_test_get_state() {
    let reg = startup_state();
    let state = AppState::<State>::get(&reg, STATE_TOKEN);
    assert_eq!(state.get_ref().name, "Hello".to_string());
}

#[test]
fn test_inject_state() {
    let mut reg = startup_state();
    let target = RewriteTarget::Function(vec![shared_param("state", STATE_TOKEN)]);
    let rewritten = expand_stateful(&target, &InjectConfig::none()).unwrap();
    assert_eq!(rewritten.params.len(), 0);
    assert_eq!(rewritten.steps.len(), 1);
    match resolve_step(&rewritten.steps[0], &mut reg) {
        Resolved::SharedHandle(state) => {
            assert_eq!(state.get_ref().name, "Hello".to_string());
        },
        _ => panic!("a shared parameter must resolve to a shared handle"),
    }
}

#[test]
fn test_non_existent_state() {
    let never: Registry<MutState> = Registry::new();
    let res = AppState::<MutState>::try_get(&never, MUT_STATE_TOKEN);
    assert!(res.is_err());
}

#[test]
#[should_panic]
fn test_injected_non_existent_state() {
    let mut never: Registry<MutState> = Registry::new();
    let target = RewriteTarget::Function(vec![shared_param("_state", MUT_STATE_TOKEN)]);
    let rewritten = expand_stateful(&target, &InjectConfig::none()).unwrap();
    resolve_step(&rewritten.steps[0], &mut never);
}

#[test]
fn test_get_mut_state() {
    let mut reg = startup_mut_state();
    let mut_state = MutAppState::<MutState>::get(&reg, MUT_STATE_TOKEN);
    let guard = mut_state.get_mut(&mut reg);
    assert_eq!(guard.get_ref().name, "Hello".to_string());
    guard.release(&mut reg);
}

#[test]
fn test_inject_mut_state() {
    let mut reg = startup_mut_state();
    let target = RewriteTarget::Function(vec![exclusive_param("mut_state", MUT_STATE_TOKEN)]);
    let rewritten = expand_stateful(&target, &InjectConfig::none()).unwrap();
    match resolve_step(&rewritten.steps[0], &mut reg) {
        Resolved::ExclusiveHandle(mut_state) => {
            let guard = mut_state.get_mut(&mut reg);
            assert_eq!(guard.get_ref().name, "Hello".to_string());
            guard.release(&mut reg);
        },
        _ => panic!("an exclusive parameter must resolve to an exclusive handle"),
    }
}

#[test]
fn test_non_existent_mut_state() {
    let never: Registry<State> = Registry::new();
    let res = MutAppState::<State>::try_get(&never, STATE_TOKEN);
    assert!(res.is_err());
}

#[test]
#[should_panic]
fn test_injected_non_existent_mut_state() {
    let mut never: Registry<State> = Registry::new();
    let target = RewriteTarget::Function(vec![exclusive_param("_mut_state", STATE_TOKEN)]);
    let rewritten = expand_stateful(&target, &InjectConfig::none()).unwrap();
    resolve_step(&rewritten.steps[0], &mut never);
}

#[test]
fn test_get_both_state() {
    let mut reg = startup_both_state();
    let state = AppState::<BothState>::get(&reg, BOTH_STATE_TOKEN);
    assert_eq!(state.get_ref().name, "Hello".to_string());
    let mut_state = MutAppState::<BothState>::get(&reg, BOTH_STATE_TOKEN);
    let guard = mut_state.get_mut(&mut reg);
    assert_eq!(guard.get_ref().name, "Hello".to_string());
    guard.release(&mut reg);
}

#[test]
fn test_inject_both_state() {
    let mut reg = startup_both_state();

    let target = RewriteTarget::Function(vec![shared_param("state", BOTH_STATE_TOKEN)]);
    let rewritten = expand_stateful(&target, &InjectConfig::none()).unwrap();
    match resolve_step(&rewritten.steps[0], &mut reg) {
        Resolved::SharedHandle(state) => {
            assert_eq!(state.get_ref().name, "Hello".to_string());
        },
        _ => panic!("a shared parameter must resolve to a shared handle"),
    }

    let target = RewriteTarget::Function(vec![exclusive_param("mut_state", BOTH_STATE_TOKEN)]);
    let rewritten = expand_stateful(&target, &InjectConfig::none()).unwrap();
    match resolve_step(&rewritten.steps[0], &mut reg) {
        Resolved::ExclusiveHandle(mut_state) => {
            let guard = mut_state.get_mut(&mut reg);
            assert_eq!(guard.get_ref().name, "Hello".to_string());
            guard.release(&mut reg);
        },
        _ => panic!("an exclusive parameter must resolve to an exclusive handle"),
    }
}
