//! Scenario tests for the signature rewrite contract: which parameters
//! are kept, which steps are planned and in what order, and which inputs
//! fail with which generation error.

use app_state::AppState;
use app_state::GenerationError;
use app_state::InjectConfig;
use app_state::Param;
use app_state::ParamType;
use app_state::Registry;
use app_state::Resolved;
use app_state::RewriteTarget;
use app_state::StateKind;
use app_state::expand_stateful;
use app_state::resolve_step;

const STATE_TOKEN: u64 = 1;
const OTHER_TOKEN: u64 = 2;

struct State {
    name: String,
}

fn ordinary(name: &str) -> Param {
    Param { name: name.to_string(), ty: ParamType::Ordinary, mutable: false }
}

fn managed(name: &str, kind: StateKind, token: u64) -> Param {
    Param { name: name.to_string(), ty: ParamType::Managed(kind, token), mutable: false }
}

#[test]
fn test_rewrite_removes_managed_and_keeps_ordinary() {
    let target = RewriteTarget::Function(vec![
        managed("state", StateKind::Shared, STATE_TOKEN),
        ordinary("text"),
        managed("mut_state", StateKind::Exclusive, OTHER_TOKEN),
        ordinary("count"),
    ]);
    let rewritten = expand_stateful(&target, &InjectConfig::none()).unwrap();
    assert_eq!(rewritten.params.len(), 2);
    assert_eq!(rewritten.params[0].name, "text");
    assert_eq!(rewritten.params[1].name, "count");
    assert_eq!(rewritten.steps.len(), 2);
    assert_eq!(rewritten.steps[0].var, "state");
    assert_eq!(rewritten.steps[0].kind, StateKind::Shared);
    assert_eq!(rewritten.steps[0].payload, STATE_TOKEN);
    assert_eq!(rewritten.steps[1].var, "mut_state");
    assert_eq!(rewritten.steps[1].kind, StateKind::Exclusive);
    assert_eq!(rewritten.steps[1].payload, OTHER_TOKEN);
}

#[test]
fn test_rewrite_single_shared_param_observes_registered_value() {
    // One managed shared parameter and one ordinary string parameter:
    // the rewrite succeeds, the caller supplies only the ordinary
    // argument, and the body observes the registered value.
    let mut reg: Registry<State> = Registry::new();
    AppState::init(&mut reg, STATE_TOKEN, State { name: "Hello".to_string() });
    let target = RewriteTarget::Function(vec![
        managed("state", StateKind::Shared, STATE_TOKEN),
        ordinary("text"),
    ]);
    let rewritten = expand_stateful(&target, &InjectConfig::none()).unwrap();
    assert_eq!(rewritten.params.len(), 1);
    assert_eq!(rewritten.params[0].name, "text");
    assert_eq!(rewritten.steps.len(), 1);
    match resolve_step(&rewritten.steps[0], &mut reg) {
        Resolved::SharedHandle(state) => {
            assert_eq!(state.get_ref().name, "Hello".to_string());
        },
        _ => panic!("a shared parameter must resolve to a shared handle"),
    }
}

#[test]
fn test_rewrite_leaves_unmanaged_function_unaffected() {
    let target = RewriteTarget::Function(vec![ordinary("text"), ordinary("count")]);
    let rewritten = expand_stateful(&target, &InjectConfig::none()).unwrap();
    assert_eq!(rewritten.params.len(), 2);
    assert_eq!(rewritten.params[0].name, "text");
    assert_eq!(rewritten.params[1].name, "count");
    assert!(rewritten.steps.is_empty());
}

#[test]
fn test_rewrite_marks_on_demand_and_mutable() {
    let target = RewriteTarget::Function(vec![
        Param {
            name: "state".to_string(),
            ty: ParamType::Managed(StateKind::ExclusiveLocked, STATE_TOKEN),
            mutable: true,
        },
        managed("other", StateKind::Shared, OTHER_TOKEN),
    ]);
    let config = InjectConfig::with_init(vec!["state".to_string()]);
    let rewritten = expand_stateful(&target, &config).unwrap();
    assert_eq!(rewritten.steps.len(), 2);
    assert!(rewritten.steps[0].on_demand);
    assert!(rewritten.steps[0].mutable);
    assert_eq!(rewritten.steps[0].kind, StateKind::ExclusiveLocked);
    assert!(!rewritten.steps[1].on_demand);
    assert!(!rewritten.steps[1].mutable);
}

#[test]
fn test_rewrite_rejects_non_function() {
    let res = expand_stateful(&RewriteTarget::NotAFunction, &InjectConfig::none());
    assert!(matches!(res, Err(GenerationError::InvalidTarget)));
}

#[test]
fn test_rewrite_rejects_unknown_init_name() {
    // Naming a parameter that does not exist in the on-demand list must
    // fail at generation time, reporting the name, never be ignored.
    let target = RewriteTarget::Function(vec![managed("state", StateKind::Shared, STATE_TOKEN)]);
    let config = InjectConfig::with_init(vec!["missing".to_string()]);
    match expand_stateful(&target, &config) {
        Err(GenerationError::UnknownInitName(name)) => assert_eq!(name, "missing"),
        _ => panic!("an unknown configured name must be rejected"),
    }
}

#[test]
fn test_rewrite_rejects_ordinary_init_name() {
    // A configured name must belong to a managed parameter; an ordinary
    // parameter's name does not count.
    let target = RewriteTarget::Function(vec![
        managed("state", StateKind::Shared, STATE_TOKEN),
        ordinary("text"),
    ]);
    let config = InjectConfig::with_init(vec!["text".to_string()]);
    match expand_stateful(&target, &config) {
        Err(GenerationError::UnknownInitName(name)) => assert_eq!(name, "text"),
        _ => panic!("a configured ordinary parameter name must be rejected"),
    }
}

#[test]
fn test_rewrite_rejects_empty_init_list() {
    let target = RewriteTarget::Function(vec![managed("state", StateKind::Shared, STATE_TOKEN)]);
    let config = InjectConfig::with_init(Vec::new());
    assert!(matches!(expand_stateful(&target, &config), Err(GenerationError::EmptyInitList)));
}

#[test]
fn test_rewrite_rejects_duplicate_init_name() {
    let target = RewriteTarget::Function(vec![managed("state", StateKind::Shared, STATE_TOKEN)]);
    let config = InjectConfig::with_init(vec!["state".to_string(), "state".to_string()]);
    match expand_stateful(&target, &config) {
        Err(GenerationError::DuplicateInitName(name)) => assert_eq!(name, "state"),
        _ => panic!("a duplicated configured name must be rejected"),
    }
}

#[test]
fn test_rewrite_rejects_malformed_managed_parameter() {
    let target = RewriteTarget::Function(vec![
        ordinary("text"),
        Param {
            name: "state".to_string(),
            ty: ParamType::MalformedManaged(StateKind::Shared),
            mutable: false,
        },
    ]);
    match expand_stateful(&target, &InjectConfig::none()) {
        Err(GenerationError::MalformedParameter(name)) => assert_eq!(name, "state"),
        _ => panic!("a managed wrapper without a payload type must be rejected"),
    }
}
