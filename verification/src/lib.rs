mod app_state;
mod laws;
mod mut_app_state_lock;
mod mutable_app_state;
mod resolve;
mod rewrite;
mod store;
mod traits;

pub use crate::app_state::AppState;
pub use crate::app_state::lemma_from_arc;
pub use crate::laws::lemma_disciplines_independent;
pub use crate::laws::lemma_exclusive_mutation_visible;
pub use crate::laws::lemma_init_if_absent_first_wins;
pub use crate::laws::lemma_init_overwrites;
pub use crate::laws::lemma_init_then_get_exclusive;
pub use crate::laws::lemma_init_then_get_shared;
pub use crate::laws::lemma_try_get_never_registered;
pub use crate::laws::lemma_try_get_untouched;
pub use crate::laws::spec_init_if_absent;
pub use crate::mut_app_state_lock::MutAppStateLock;
pub use crate::mutable_app_state::MutAppState;
pub use crate::traits::AppStateTrait;
pub use crate::traits::CreateAppState;
pub use crate::traits::InitAppState;
pub use crate::traits::InitMutAppState;

pub use crate::store::AppStateError;
pub use crate::store::Discipline;
pub use crate::store::Registry;
pub use crate::store::Slot;
pub use crate::store::StoredValue;
pub use crate::store::TypeKey;
pub use crate::store::exclusive_key;
pub use crate::store::shared_key;
pub use crate::store::spec_find;

pub use crate::rewrite::GenerationError;
pub use crate::rewrite::GenerationErrorModel;
pub use crate::rewrite::InjectConfig;
pub use crate::rewrite::Param;
pub use crate::rewrite::ParamModel;
pub use crate::rewrite::ParamType;
pub use crate::rewrite::ResolveStep;
pub use crate::rewrite::RewriteTarget;
pub use crate::rewrite::Rewritten;
pub use crate::rewrite::RewrittenModel;
pub use crate::rewrite::StateKind;
pub use crate::rewrite::StepModel;
pub use crate::rewrite::expand_stateful;
pub use crate::rewrite::first_duplicate;
pub use crate::rewrite::first_where;
pub use crate::rewrite::is_managed_name;
pub use crate::rewrite::kept_params;
pub use crate::rewrite::lemma_rewrite_without_managed_params;
pub use crate::rewrite::lemma_single_shared_param_injection;
pub use crate::rewrite::lemma_unknown_init_name_rejected;
pub use crate::rewrite::listed;
pub use crate::rewrite::params_model;
pub use crate::rewrite::plan_steps;
pub use crate::rewrite::spec_expand;
pub use crate::rewrite::spec_expand_checked;
pub use crate::rewrite::step_of;
pub use crate::rewrite::steps_model;
pub use crate::rewrite::target_model;

pub use crate::resolve::Resolved;
pub use crate::resolve::resolve_step;
pub use crate::resolve::resolve_step_or_default;
pub use crate::resolve::step_enabled;
pub use crate::resolve::step_key;
