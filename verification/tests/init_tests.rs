//! Registration through the helper traits a payload type can adopt.

use app_state::AppState;
use app_state::InitAppState;
use app_state::InitMutAppState;
use app_state::MutAppState;
use app_state::Registry;

const STATE_TOKEN: u64 = 1;

struct State {
    name: String,
}

impl Default for State {
    fn default() -> Self {
        Self { name: "Hello".to_string() }
    }
}

impl InitAppState for State {}

impl InitMutAppState for State {}

#[test]
fn test_init_state() {
    let mut reg: Registry<State> = Registry::new();
    State::default().init_app_state(&mut reg, STATE_TOKEN);
    assert_eq!(AppState::<State>::get(&reg, STATE_TOKEN).get_ref().name, "Hello".to_string());
}

#[test]
fn test_init_mut_state() {
    let mut reg: Registry<State> = Registry::new();
    State::default().init_mut_app_state(&mut reg, STATE_TOKEN);
    let state = MutAppState::<State>::get(&reg, STATE_TOKEN);
    let mut guard = state.get_mut(&mut reg);

    assert_eq!(guard.get_ref().name, "Hello".to_string());
    guard.set(State { name: "Changed".to_string() });
    guard.release(&mut reg);

    let state = MutAppState::<State>::get(&reg, STATE_TOKEN);
    let guard = state.get_mut(&mut reg);
    assert_eq!(guard.get_ref().name, "Changed".to_string());
    guard.release(&mut reg);
}
