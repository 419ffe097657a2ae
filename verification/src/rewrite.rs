//! The signature rewrite contract: the rule set a code generator must
//! follow to inject resolved handles into an annotated function.
//!
//! A function's parameter list may contain managed parameters — ones
//! typed as a handle (shared, exclusive, or exclusive-and-locked) around
//! a payload type. The rewrite removes every managed parameter from the
//! externally visible signature, leaves the ordinary parameters in their
//! original relative order, and emits one resolution step per managed
//! parameter, in declaration order: resolve the handle from the registry,
//! by plain retrieval or — for parameters named in the
//! initialize-on-demand configuration — by default-inserting retrieval,
//! and for locked parameters additionally acquire the lock, honoring the
//! declared mutability of the binding.
//!
//! Malformed input — a non-function target, a managed wrapper whose
//! payload type cannot be read, or an inconsistent configuration (empty
//! list, duplicate name, name matching no managed parameter) — fails
//! with a localized error instead of producing a rewrite.

use vstd::prelude::*;

use crate::store::Slot;
use crate::store::TypeKey;
use crate::store::shared_key;
use crate::store::spec_find;

verus! {

/// Which managed wrapper a parameter requests: a shared handle, an
/// exclusive handle, or an exclusive handle with its lock already
/// acquired when the function body starts.
#[derive(Clone, Copy, PartialEq, Eq, Structural, Debug)]
pub enum StateKind {
    Shared,
    Exclusive,
    ExclusiveLocked,
}

/// The declared type of one parameter, as the rewrite sees it: an
/// ordinary type left untouched, a managed wrapper around the payload
/// type with the given identity token, or a managed wrapper whose
/// payload type could not be read.
#[derive(Clone, Copy, PartialEq, Eq, Structural, Debug)]
pub enum ParamType {
    Ordinary,
    Managed(StateKind, u64),
    MalformedManaged(StateKind),
}

/// One declared parameter: its binding name, its type as the rewrite
/// sees it, and whether the binding is declared mutable.
pub struct Param {
    pub name: String,
    pub ty: ParamType,
    pub mutable: bool,
}

/// The model of a parameter, with the name as a character sequence.
pub struct ParamModel {
    pub name: Seq<char>,
    pub ty: ParamType,
    pub mutable: bool,
}

impl View for Param {
    type V = ParamModel;

    open spec fn view(&self) -> ParamModel {
        ParamModel { name: self.name@, ty: self.ty, mutable: self.mutable }
    }
}

/// The models of a sequence of parameters.
pub open spec fn params_model(s: Seq<Param>) -> Seq<ParamModel> {
    s.map_values(|p: Param| p@)
}

/// What the rewrite is applied to: a function with its parameter list,
/// or some other item, which is rejected.
pub enum RewriteTarget {
    Function(Vec<Param>),
    NotAFunction,
}

/// The model of a rewrite target.
pub open spec fn target_model(t: RewriteTarget) -> Option<Seq<ParamModel>> {
    match t {
        RewriteTarget::Function(ps) => Some(params_model(ps@)),
        RewriteTarget::NotAFunction => None,
    }
}

/// The injection configuration: optionally, the list of managed
/// parameter names that should be resolved by default-inserting
/// retrieval rather than required to be registered already.
pub struct InjectConfig {
    pub init: Option<Vec<String>>,
}

impl View for InjectConfig {
    type V = Option<Seq<Seq<char>>>;

    open spec fn view(&self) -> Option<Seq<Seq<char>>> {
        match self.init {
            Some(l) => Some(l.deep_view()),
            None => None,
        }
    }
}

/// A rewrite failure, reported at generation time with the item that
/// caused it.
#[derive(Debug)]
pub enum GenerationError {
    /// The rewrite was applied to something that is not a function.
    InvalidTarget,
    /// The named parameter requests a managed wrapper whose payload type
    /// could not be read.
    MalformedParameter(String),
    /// The initialize-on-demand configuration names no parameter at all.
    EmptyInitList,
    /// The named entry appears more than once in the configuration.
    DuplicateInitName(String),
    /// The named entry matches no managed parameter of the function.
    UnknownInitName(String),
}

/// The model of a rewrite failure.
pub enum GenerationErrorModel {
    InvalidTarget,
    MalformedParameter(Seq<char>),
    EmptyInitList,
    DuplicateInitName(Seq<char>),
    UnknownInitName(Seq<char>),
}

impl View for GenerationError {
    type V = GenerationErrorModel;

    open spec fn view(&self) -> GenerationErrorModel {
        match self {
            GenerationError::InvalidTarget => GenerationErrorModel::InvalidTarget,
            GenerationError::MalformedParameter(n) => GenerationErrorModel::MalformedParameter(n@),
            GenerationError::EmptyInitList => GenerationErrorModel::EmptyInitList,
            GenerationError::DuplicateInitName(n) => GenerationErrorModel::DuplicateInitName(n@),
            GenerationError::UnknownInitName(n) => GenerationErrorModel::UnknownInitName(n@),
        }
    }
}

/// One resolution step the generator must emit at the top of the
/// rewritten function's body: bind `var` to the handle of the given kind
/// for the payload type `payload`, resolved by plain retrieval or, if
/// `on_demand` is set, by default-inserting retrieval; locked kinds then
/// acquire the lock; `mutable` carries the declared mutability of the
/// binding.
pub struct ResolveStep {
    pub var: String,
    pub kind: StateKind,
    pub payload: u64,
    pub on_demand: bool,
    pub mutable: bool,
}

/// The model of a resolution step.
pub struct StepModel {
    pub var: Seq<char>,
    pub kind: StateKind,
    pub payload: u64,
    pub on_demand: bool,
    pub mutable: bool,
}

impl View for ResolveStep {
    type V = StepModel;

    open spec fn view(&self) -> StepModel {
        StepModel {
            var: self.var@,
            kind: self.kind,
            payload: self.payload,
            on_demand: self.on_demand,
            mutable: self.mutable,
        }
    }
}

/// The models of a sequence of resolution steps.
pub open spec fn steps_model(s: Seq<ResolveStep>) -> Seq<StepModel> {
    s.map_values(|p: ResolveStep| p@)
}

/// A successful rewrite: the externally visible parameter list, and the
/// resolution steps to emit, in declaration order.
pub struct Rewritten {
    pub params: Vec<Param>,
    pub steps: Vec<ResolveStep>,
}

/// The model of a successful rewrite.
pub struct RewrittenModel {
    pub params: Seq<ParamModel>,
    pub steps: Seq<StepModel>,
}

/// Whether `name` is listed in the initialize-on-demand configuration.
pub open spec fn listed(cfg: Option<Seq<Seq<char>>>, name: Seq<char>) -> bool {
    match cfg {
        Some(l) => l.contains(name),
        None => false,
    }
}

/// Whether some managed parameter of `ps` is named `name`.
pub open spec fn is_managed_name(ps: Seq<ParamModel>, name: Seq<char>) -> bool {
    exists|i: int| 0 <= i < ps.len() && (#[trigger] ps[i]).ty is Managed && ps[i].name == name
}

/// The first element of `s` satisfying `pred`, in order, if any.
pub open spec fn first_where<A>(s: Seq<A>, pred: spec_fn(A) -> bool) -> Option<A>
    decreases s.len(),
{
    if s.len() == 0 {
        None
    } else {
        match first_where(s.drop_last(), pred) {
            Some(x) => Some(x),
            None => if pred(s.last()) {
                Some(s.last())
            } else {
                None
            },
        }
    }
}

/// The first element of `s` that repeats an earlier element, in order,
/// if any.
pub open spec fn first_duplicate(s: Seq<Seq<char>>) -> Option<Seq<char>>
    decreases s.len(),
{
    if s.len() == 0 {
        None
    } else {
        match first_duplicate(s.drop_last()) {
            Some(x) => Some(x),
            None => if s.drop_last().contains(s.last()) {
                Some(s.last())
            } else {
                None
            },
        }
    }
}

/// The resolution step for the managed parameter `p`.
pub open spec fn step_of(p: ParamModel, on_demand: bool) -> StepModel
    recommends
        p.ty is Managed,
{
    match p.ty {
        ParamType::Managed(kind, payload) => StepModel {
            var: p.name,
            kind,
            payload,
            on_demand,
            mutable: p.mutable,
        },
        _ => arbitrary(),
    }
}

/// The parameters the rewritten signature keeps: every parameter that is
/// not managed, in its original relative order.
pub open spec fn kept_params(ps: Seq<ParamModel>) -> Seq<ParamModel>
    decreases ps.len(),
{
    if ps.len() == 0 {
        Seq::empty()
    } else {
        let prefix = kept_params(ps.drop_last());
        if ps.last().ty is Managed {
            prefix
        } else {
            prefix.push(ps.last())
        }
    }
}

/// The resolution steps the rewrite emits: one per managed parameter, in
/// declaration order, on demand exactly for the parameters the
/// configuration lists.
pub open spec fn plan_steps(ps: Seq<ParamModel>, cfg: Option<Seq<Seq<char>>>) -> Seq<StepModel>
    decreases ps.len(),
{
    if ps.len() == 0 {
        Seq::empty()
    } else {
        let prefix = plan_steps(ps.drop_last(), cfg);
        if ps.last().ty is Managed {
            prefix.push(step_of(ps.last(), listed(cfg, ps.last().name)))
        } else {
            prefix
        }
    }
}

/// The rewrite a generator must perform on a function with parameters
/// `target` under configuration `cfg`, or the error it must report.
/// Failures are checked in a fixed order: an empty configuration first,
/// then a duplicated configuration name, then a non-function target,
/// then a malformed managed parameter (in declaration order), then a
/// configuration name matching no managed parameter (in configuration
/// order).
pub open spec fn spec_expand(
    target: Option<Seq<ParamModel>>,
    cfg: Option<Seq<Seq<char>>>,
) -> Result<RewrittenModel, GenerationErrorModel> {
    match cfg {
        Some(l) => if l.len() == 0 {
            Err(GenerationErrorModel::EmptyInitList)
        } else {
            match first_duplicate(l) {
                Some(d) => Err(GenerationErrorModel::DuplicateInitName(d)),
                None => spec_expand_checked(target, Some(l)),
            }
        },
        None => spec_expand_checked(target, None),
    }
}

/// The rewrite after the configuration itself has passed its own checks.
pub open spec fn spec_expand_checked(
    target: Option<Seq<ParamModel>>,
    cfg: Option<Seq<Seq<char>>>,
) -> Result<RewrittenModel, GenerationErrorModel> {
    match target {
        None => Err(GenerationErrorModel::InvalidTarget),
        Some(ps) => match first_where(ps, |p: ParamModel| p.ty is MalformedManaged) {
            Some(p) => Err(GenerationErrorModel::MalformedParameter(p.name)),
            None => {
                let unknown = match cfg {
                    Some(l) => first_where(l, |n: Seq<char>| !is_managed_name(ps, n)),
                    None => None,
                };
                match unknown {
                    Some(n) => Err(GenerationErrorModel::UnknownInitName(n)),
                    None => Ok(
                        RewrittenModel { params: kept_params(ps), steps: plan_steps(ps, cfg) },
                    ),
                }
            },
        },
    }
}

proof fn lemma_first_where_stable<A>(s: Seq<A>, pred: spec_fn(A) -> bool, k: int)
    requires
        0 <= k <= s.len(),
        first_where(s.subrange(0, k), pred) is Some,
    ensures
        first_where(s, pred) == first_where(s.subrange(0, k), pred),
    decreases s.len(),
{
    if k < s.len() {
        assert(s.drop_last().subrange(0, k) =~= s.subrange(0, k));
        lemma_first_where_stable(s.drop_last(), pred, k);
    } else {
        assert(s.subrange(0, k) =~= s);
    }
}

proof fn lemma_first_duplicate_stable(s: Seq<Seq<char>>, k: int)
    requires
        0 <= k <= s.len(),
        first_duplicate(s.subrange(0, k)) is Some,
    ensures
        first_duplicate(s) == first_duplicate(s.subrange(0, k)),
    decreases s.len(),
{
    if k < s.len() {
        assert(s.drop_last().subrange(0, k) =~= s.subrange(0, k));
        lemma_first_duplicate_stable(s.drop_last(), k);
    } else {
        assert(s.subrange(0, k) =~= s);
    }
}

impl InjectConfig {
    /// A configuration without an initialize-on-demand list.
    pub fn none() -> (r: Self)
        ensures
            r@ is None,
    {
        InjectConfig { init: None }
    }

    /// A configuration listing the given parameter names for
    /// initialization on demand.
    pub fn with_init(names: Vec<String>) -> (r: Self)
        ensures
            r@ == Some(names.deep_view()),
    {
        InjectConfig { init: Some(names) }
    }
}

fn name_in_prefix(l: &Vec<String>, upto: usize, x: &String) -> (b: bool)
    requires
        upto <= l.len(),
    ensures
        b == l.deep_view().subrange(0, upto as int).contains(x@),
{
    let ghost s = l.deep_view().subrange(0, upto as int);
    let mut j: usize = 0;
    while j < upto
        invariant
            j <= upto <= l.len(),
            s == l.deep_view().subrange(0, upto as int),
            forall|i: int| 0 <= i < j ==> s[i] != x@,
        decreases upto - j,
    {
        let lj = &l[j];
        if *lj == *x {
            assert(s[j as int] == x@);
            return true;
        }
        j += 1;
    }
    assert(forall|i: int| 0 <= i < s.len() ==> s[i] != x@);
    false
}

fn managed_name_in(params: &Vec<Param>, x: &String) -> (b: bool)
    ensures
        b == is_managed_name(params_model(params@), x@),
{
    let ghost ps = params_model(params@);
    let mut j: usize = 0;
    while j < params.len()
        invariant
            j <= params.len(),
            ps == params_model(params@),
            forall|i: int| 0 <= i < j ==> !((#[trigger] ps[i]).ty is Managed && ps[i].name == x@),
        decreases params.len() - j,
    {
        let pj = &params[j];
        let is_hit = match pj.ty {
            ParamType::Managed(_, _) => *(&pj.name) == *x,
            _ => false,
        };
        if is_hit {
            assert(ps[j as int].ty is Managed && ps[j as int].name == x@);
            return true;
        }
        j += 1;
    }
    false
}

/// Rewrites `target` under `config`: removes the managed parameters from
/// the signature, keeps the ordinary ones in their original relative
/// order, and plans one resolution step per managed parameter in
/// declaration order — or reports the first rewrite failure, checked in
/// the fixed order that `spec_expand` lays down.
#[verifier::loop_isolation(false)]
pub fn expand_stateful(target: &RewriteTarget, config: &InjectConfig) -> (r: Result<
    Rewritten,
    GenerationError,
>)
    ensures
        (spec_expand(target_model(*target), config@) matches Ok(rw) ==> r matches Ok(out)
            && params_model(out.params@) == rw.params && steps_model(out.steps@) == rw.steps),
        (spec_expand(target_model(*target), config@) matches Err(e) ==> r matches Err(e2) && e2@
            == e),
{
    // The configuration's own checks: an empty list, then a duplicate.
    match &config.init {
        None => {},
        Some(l) => {
            if l.len() == 0 {
                return Err(GenerationError::EmptyInitList);
            }
            let ghost ldv = l.deep_view();
            let mut j: usize = 0;
            while j < l.len()
                invariant
                    j <= l.len(),
                    ldv == l.deep_view(),
                    first_duplicate(ldv.subrange(0, j as int)) is None,
                decreases l.len() - j,
            {
                let dup = name_in_prefix(l, j, &l[j]);
                proof {
                    assert(ldv[j as int] == l@[j as int]@);
                    assert(ldv.subrange(0, j + 1).drop_last() =~= ldv.subrange(0, j as int));
                    assert(ldv.subrange(0, j + 1).last() == ldv[j as int]);
                }
                if dup {
                    proof {
                        assert(first_duplicate(ldv.subrange(0, j + 1)) == Some(ldv[j as int]));
                        lemma_first_duplicate_stable(ldv, j + 1);
                        assert(first_duplicate(ldv) == Some(ldv[j as int]));
                    }
                    return Err(GenerationError::DuplicateInitName(l[j].clone()));
                }
                proof {
                    assert(first_duplicate(ldv.subrange(0, j + 1)) is None);
                }
                j += 1;
            }
            proof {
                assert(ldv.subrange(0, l.len() as int) =~= ldv);
            }
        },
    }
    // The target must be a function.
    let params = match target {
        RewriteTarget::Function(ps) => ps,
        RewriteTarget::NotAFunction => {
            return Err(GenerationError::InvalidTarget);
        },
    };
    let ghost psm = params_model(params@);
    let ghost malformed_pred = |p: ParamModel| p.ty is MalformedManaged;
    // Every managed wrapper must name a readable payload type.
    let mut i: usize = 0;
    while i < params.len()
        invariant
            i <= params.len(),
            psm == params_model(params@),
            malformed_pred == (|p: ParamModel| p.ty is MalformedManaged),
            first_where(psm.subrange(0, i as int), malformed_pred) is None,
        decreases params.len() - i,
    {
        proof {
            assert(psm[i as int] == params@[i as int]@);
            assert(psm.subrange(0, i + 1).drop_last() =~= psm.subrange(0, i as int));
            assert(psm.subrange(0, i + 1).last() == psm[i as int]);
        }
        match params[i].ty {
            ParamType::MalformedManaged(_) => {
                proof {
                    assert(malformed_pred(psm[i as int]));
                    assert(first_where(psm.subrange(0, i + 1), malformed_pred) == Some(
                        psm[i as int],
                    ));
                    lemma_first_where_stable(psm, malformed_pred, i + 1);
                }
                return Err(GenerationError::MalformedParameter(params[i].name.clone()));
            },
            _ => {},
        }
        proof {
            assert(!malformed_pred(psm[i as int]));
            assert(first_where(psm.subrange(0, i + 1), malformed_pred) is None);
        }
        i += 1;
    }
    proof {
        assert(psm.subrange(0, params.len() as int) =~= psm);
    }
    // Every configured name must belong to a managed parameter.
    match &config.init {
        None => {},
        Some(l) => {
            let ghost ldv = l.deep_view();
            let ghost unknown_pred = |n: Seq<char>| !is_managed_name(psm, n);
            let mut j: usize = 0;
            while j < l.len()
                invariant
                    j <= l.len(),
                    ldv == l.deep_view(),
                    psm == params_model(params@),
                    unknown_pred == (|n: Seq<char>| !is_managed_name(psm, n)),
                    first_where(ldv.subrange(0, j as int), unknown_pred) is None,
                decreases l.len() - j,
            {
                proof {
                    assert(ldv[j as int] == l@[j as int]@);
                    assert(ldv.subrange(0, j + 1).drop_last() =~= ldv.subrange(0, j as int));
                    assert(ldv.subrange(0, j + 1).last() == ldv[j as int]);
                }
                if !managed_name_in(params, &l[j]) {
                    proof {
                        assert(unknown_pred(ldv[j as int]));
                        assert(first_where(ldv.subrange(0, j + 1), unknown_pred) == Some(
                            ldv[j as int],
                        ));
                        lemma_first_where_stable(ldv, unknown_pred, j + 1);
                    }
                    return Err(GenerationError::UnknownInitName(l[j].clone()));
                }
                proof {
                    assert(!unknown_pred(ldv[j as int]));
                    assert(first_where(ldv.subrange(0, j + 1), unknown_pred) is None);
                }
                j += 1;
            }
            proof {
                assert(ldv.subrange(0, l.len() as int) =~= ldv);
            }
        },
    }
    // The rewrite itself: keep ordinary parameters, plan managed ones.
    let mut kept: Vec<Param> = Vec::new();
    let mut steps: Vec<ResolveStep> = Vec::new();
    let mut i: usize = 0;
    while i < params.len()
        invariant
            i <= params.len(),
            psm == params_model(params@),
            params_model(kept@) == kept_params(psm.subrange(0, i as int)),
            steps_model(steps@) == plan_steps(psm.subrange(0, i as int), config@),
        decreases params.len() - i,
    {
        proof {
            assert(psm.subrange(0, i + 1).drop_last() =~= psm.subrange(0, i as int));
            assert(psm.subrange(0, i + 1).last() == psm[i as int]);
        }
        let ghost kept_prev = kept@;
        let ghost steps_prev = steps@;
        let p = &params[i];
        match p.ty {
            ParamType::Managed(kind, payload) => {
                let on_demand = match &config.init {
                    Some(l) => name_in_prefix(l, l.len(), &p.name),
                    None => false,
                };
                proof {
                    if config@ is Some {
                        let cl = config@->Some_0;
                        assert(cl.subrange(0, cl.len() as int) =~= cl);
                    }
                }
                let step = ResolveStep {
                    var: p.name.clone(),
                    kind,
                    payload,
                    on_demand,
                    mutable: p.mutable,
                };
                steps.push(step);
                proof {
                    assert(steps_model(steps@) =~= steps_model(steps_prev).push(
                        step_of(psm[i as int], listed(config@, psm[i as int].name)),
                    ));
                }
            },
            _ => {
                let q = Param { name: p.name.clone(), ty: p.ty, mutable: p.mutable };
                kept.push(q);
                proof {
                    assert(params_model(kept@) =~= params_model(kept_prev).push(psm[i as int]));
                }
            },
        }
        i += 1;
    }
    proof {
        assert(psm.subrange(0, params.len() as int) =~= psm);
    }
    Ok(Rewritten { params: kept, steps })
}

proof fn lemma_first_where_none<A>(s: Seq<A>, pred: spec_fn(A) -> bool)
    requires
        forall|i: int| 0 <= i < s.len() ==> !pred(#[trigger] s[i]),
    ensures
        first_where(s, pred) is None,
    decreases s.len(),
{
    if s.len() > 0 {
        lemma_first_where_none(s.drop_last(), pred);
    }
}

proof fn lemma_first_where_some<A>(s: Seq<A>, pred: spec_fn(A) -> bool)
    requires
        first_where(s, pred) is Some,
    ensures
        pred(first_where(s, pred)->Some_0),
        s.contains(first_where(s, pred)->Some_0),
    decreases s.len(),
{
    if first_where(s.drop_last(), pred) is Some {
        lemma_first_where_some(s.drop_last(), pred);
        let x = first_where(s.drop_last(), pred)->Some_0;
        let k = choose|k: int| 0 <= k < s.drop_last().len() && s.drop_last()[k] == x;
        assert(s[k] == x);
    } else {
        assert(pred(s.last()));
        assert(s.contains(s.last()));
    }
}

proof fn lemma_first_where_found<A>(s: Seq<A>, pred: spec_fn(A) -> bool)
    requires
        exists|i: int| 0 <= i < s.len() && pred(#[trigger] s[i]),
    ensures
        first_where(s, pred) is Some,
    decreases s.len(),
{
    let i = choose|i: int| 0 <= i < s.len() && pred(#[trigger] s[i]);
    if i < s.len() - 1 {
        assert(pred(s.drop_last()[i]));
        lemma_first_where_found(s.drop_last(), pred);
    }
}

proof fn lemma_kept_all_ordinary(ps: Seq<ParamModel>)
    requires
        forall|i: int| 0 <= i < ps.len() ==> !((#[trigger] ps[i]).ty is Managed),
    ensures
        kept_params(ps) == ps,
        plan_steps(ps, None) == Seq::<StepModel>::empty(),
    decreases ps.len(),
{
    if ps.len() > 0 {
        lemma_kept_all_ordinary(ps.drop_last());
        assert(kept_params(ps) =~= ps);
    }
}

/// A function without managed parameters is unaffected by the rewrite:
/// with no configuration it rewrites successfully, its parameter list is
/// kept exactly as declared, and no resolution step is emitted.
pub proof fn lemma_rewrite_without_managed_params(ps: Seq<ParamModel>)
    requires
        forall|i: int| 0 <= i < ps.len() ==> (#[trigger] ps[i]).ty is Ordinary,
    ensures
        spec_expand(Some(ps), None) == Ok::<RewrittenModel, GenerationErrorModel>(
            RewrittenModel { params: ps, steps: Seq::<StepModel>::empty() },
        ),
{
    lemma_first_where_none(ps, |p: ParamModel| p.ty is MalformedManaged);
    lemma_kept_all_ordinary(ps);
}

/// A function declared with one managed shared parameter and one
/// ordinary parameter rewrites successfully: the externally visible
/// signature keeps exactly the ordinary parameter, one resolution step
/// is emitted for the managed one, and executing that step against a
/// store in which the payload type has been registered observes exactly
/// the registered value.
pub proof fn lemma_single_shared_param_injection<V>(
    s: ParamModel,
    q: ParamModel,
    token: u64,
    state: V,
    m: Map<TypeKey, Slot<V>>,
)
    requires
        s.ty == ParamType::Managed(StateKind::Shared, token),
        q.ty is Ordinary,
    ensures
        spec_expand(Some(seq![s, q]), None) == Ok::<RewrittenModel, GenerationErrorModel>(
            RewrittenModel { params: seq![q], steps: seq![step_of(s, false)] },
        ),
        step_of(s, false).kind == StateKind::Shared,
        step_of(s, false).payload == token,
        spec_find(m.insert(shared_key(token), Slot::Shared(state)), shared_key(token))
            == Ok::<Slot<V>, crate::store::AppStateError>(Slot::Shared(state)),
{
    let ps = seq![s, q];
    lemma_first_where_none(ps, |p: ParamModel| p.ty is MalformedManaged);
    assert(ps.drop_last() =~= seq![s]);
    assert(seq![s].drop_last() =~= Seq::<ParamModel>::empty());
    assert(kept_params(Seq::<ParamModel>::empty()) =~= Seq::<ParamModel>::empty());
    assert(plan_steps(Seq::<ParamModel>::empty(), None) =~= Seq::<StepModel>::empty());
    assert(kept_params(seq![s]) =~= Seq::<ParamModel>::empty());
    assert(plan_steps(seq![s], None) =~= seq![step_of(s, false)]);
    assert(kept_params(ps) =~= seq![q]);
    assert(plan_steps(ps, None) =~= seq![step_of(s, false)]);
}

/// Naming a parameter in the initialize-on-demand configuration that
/// does not correspond to any managed parameter is a configuration
/// error: the rewrite fails, reporting an unknown name — one that the
/// configuration lists and that no managed parameter bears — rather
/// than silently ignoring it.
pub proof fn lemma_unknown_init_name_rejected(
    ps: Seq<ParamModel>,
    l: Seq<Seq<char>>,
    witness: Seq<char>,
)
    requires
        l.len() > 0,
        first_duplicate(l) is None,
        forall|i: int| 0 <= i < ps.len() ==> !((#[trigger] ps[i]).ty is MalformedManaged),
        l.contains(witness),
        !is_managed_name(ps, witness),
    ensures
        spec_expand(Some(ps), Some(l)) matches Err(e) && e matches
            GenerationErrorModel::UnknownInitName(u) && l.contains(u) && !is_managed_name(ps, u),
{
    lemma_first_where_none(ps, |p: ParamModel| p.ty is MalformedManaged);
    let pred = |n: Seq<char>| !is_managed_name(ps, n);
    let k = choose|k: int| 0 <= k < l.len() && l[k] == witness;
    assert(pred(l[k]));
    lemma_first_where_found(l, pred);
    lemma_first_where_some(l, pred);
}

} // verus!

