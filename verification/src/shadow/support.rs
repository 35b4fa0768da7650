//! Preparation of the provider context of the legacy route.
//!
//! The context is only ever consumed as it was staged: nothing is published, baked or rediscovered, and whatever is
//! missing makes the legacy route unavailable.

use crate::selection::{digest_output, fragments_identity};
use crate::shadow::ShadowUnavailable;
use crate::text::{join, joined, same_text, slice_texts, texts, trim_end, trimmed_end};
use vstd::prelude::*;

verus! {

broadcast use vstd::string::group_string_axioms;

/// What stopped the provider context.
#[derive(Debug)]
#[allow(inconsistent_fields)]
pub enum ContextFailure {
    /// No session was found.
    Session(String),
    /// The sources could not be collected.
    Collection(String),
    /// The entry source was not collected.
    MissingEntry,
    /// The provider plan could not be resolved.
    ProviderPlan(String),
    /// The native requirements could not be collected.
    Requirements(String),
    /// The native requirements could not be extended.
    ExtendedRequirements(String),
    /// The native dependencies could not be resolved.
    Dependencies(Vec<String>),
    /// The native requirements could not be merged.
    MergedRequirements(String),
    /// The build inputs could not be derived.
    BuildInputs(String),
}

/// Why the provider context is unavailable for an entry source.
pub open spec fn context_failure(entry: Seq<char>, failure: ContextFailure) -> Seq<char> {
    match failure {
        ContextFailure::Session(error) => "the legacy comparison provider context is unavailable for "@ + entry
            + ": "@ + error@,
        ContextFailure::Collection(error) => "the legacy comparison provider context could not collect "@ + entry
            + ": "@ + error@,
        ContextFailure::MissingEntry =>
            "the legacy comparison provider context did not collect its entry source "@ + entry,
        ContextFailure::ProviderPlan(error) => "the legacy comparison provider context could not resolve "@ + entry
            + ": "@ + error@,
        ContextFailure::Requirements(error) =>
            "the legacy comparison provider context could not collect native requirements: "@ + error@,
        ContextFailure::ExtendedRequirements(error) =>
            "the legacy comparison provider context could not extend native requirements: "@ + error@,
        ContextFailure::Dependencies(errors) =>
            "the legacy comparison provider context could not resolve native dependencies: "@ + trimmed_end(
            joined(texts(errors@), ""@),
        ),
        ContextFailure::MergedRequirements(error) =>
            "the legacy comparison provider context could not merge native requirements: "@ + error@,
        ContextFailure::BuildInputs(error) =>
            "the legacy comparison provider context could not derive native build inputs: "@ + error@,
    }
}

impl ContextFailure {
    /// Why the provider context is unavailable for an entry source.
    pub fn unavailable(&self, entry: &str) -> (unavailable: ShadowUnavailable)
        ensures
            unavailable.reason@ == context_failure(entry@, *self),
    {
        let reason: String = match self {
            ContextFailure::Session(error) => "the legacy comparison provider context is unavailable for ".to_owned().concat(
                entry,
            ).concat(": ").concat(error.as_str()),
            ContextFailure::Collection(error) => "the legacy comparison provider context could not collect ".to_owned().concat(
                entry,
            ).concat(": ").concat(error.as_str()),
            ContextFailure::MissingEntry =>
            "the legacy comparison provider context did not collect its entry source ".to_owned().concat(entry),
            ContextFailure::ProviderPlan(error) => "the legacy comparison provider context could not resolve ".to_owned().concat(
                entry,
            ).concat(": ").concat(error.as_str()),
            ContextFailure::Requirements(error) =>
            "the legacy comparison provider context could not collect native requirements: ".to_owned().concat(
                error.as_str(),
            ),
            ContextFailure::ExtendedRequirements(error) =>
            "the legacy comparison provider context could not extend native requirements: ".to_owned().concat(
                error.as_str(),
            ),
            ContextFailure::Dependencies(errors) =>
            "the legacy comparison provider context could not resolve native dependencies: ".to_owned().concat(
                trim_end(join(errors, "").as_str()).as_str(),
            ),
            ContextFailure::MergedRequirements(error) =>
            "the legacy comparison provider context could not merge native requirements: ".to_owned().concat(
                error.as_str(),
            ),
            ContextFailure::BuildInputs(error) =>
            "the legacy comparison provider context could not derive native build inputs: ".to_owned().concat(
                error.as_str(),
            ),
        };
        ShadowUnavailable::new(reason)
    }
}

/// Why publication mode is refused.
pub const PUBLICATION_REFUSAL: &'static str = "the legacy comparison provider context refuses explicit Oven Loaf publication mode; native shadow comparison only consumes an already staged immutable capability";

/// Whether publication mode is asked for.
pub open spec fn publishes(mode: Option<String>) -> bool {
    mode matches Some(value) && value@ == "1"@
}

/// Refuses publication mode: the comparison only consumes what is staged.
pub fn refuse_publication_mode(mode: Option<String>) -> (outcome: Result<(), ShadowUnavailable>)
    ensures
        match outcome {
            Ok(_) => !publishes(mode),
            Err(unavailable) => publishes(mode) && unavailable.reason@
                == PUBLICATION_REFUSAL@,
        },
{
    match mode {
        Some(value) => {
            if same_text(value.as_str(), "1") {
                return Err(
                    ShadowUnavailable::new(
                        PUBLICATION_REFUSAL.to_owned(),
                    ),
                );
            }
        },
        None => {},
    }
    Ok(())
}

/// What is known of a provider plan.
#[derive(Debug)]
pub struct ProviderPlan {
    /// Why the plan is not ready for compilation, where it is not.
    pub not_ready: Option<String>,
    /// The compiled roots that the SDK links.
    pub sdk_link_roots: Vec<String>,
}

/// Why a provider plan cannot materialize the compatibility facade.
pub open spec fn plan_refusal(plan: ProviderPlan, entry: Seq<char>) -> Option<Seq<char>> {
    match plan.not_ready {
        Some(error) => Some(
            "the legacy comparison provider context is not compilation-ready for "@ + entry + ": "@ + error@,
        ),
        None => if plan.sdk_link_roots@.len() == 0 {
            Some(
                "the legacy comparison provider context has no compiled SDK link root for "@ + entry
                    + "; set an existing INCAN_SDK_INVENTORY or use an installed Oven toolchain before native comparison"@,
            )
        } else {
            None
        },
    }
}

/// Refuses a plan that cannot materialize the compatibility facade.
pub fn require_materializable_provider_plan(plan: &ProviderPlan, entry: &str) -> (outcome: Result<
    (),
    ShadowUnavailable,
>)
    ensures
        match outcome {
            Ok(_) => plan_refusal(*plan, entry@) is None,
            Err(unavailable) => plan_refusal(*plan, entry@) == Some(unavailable.reason@),
        },
{
    match &plan.not_ready {
        Some(error) => {
            return Err(
                ShadowUnavailable::new(
                    "the legacy comparison provider context is not compilation-ready for ".to_owned().concat(
                        entry,
                    ).concat(": ").concat(error.as_str()),
                ),
            );
        },
        None => {},
    }
    if plan.sdk_link_roots.len() == 0 {
        return Err(
            ShadowUnavailable::new(
                "the legacy comparison provider context has no compiled SDK link root for ".to_owned().concat(
                    entry,
                ).concat(
                    "; set an existing INCAN_SDK_INVENTORY or use an installed Oven toolchain before native comparison",
                ),
            ),
        );
    }
    Ok(())
}

/// Whether an imported crate is a native dependency: not the standard library, nor the language's own.
pub open spec fn native(name: Seq<char>) -> bool {
    name != "incan_stdlib"@ && name != "std"@
}

/// The imported crates that are native dependencies.
pub fn native_imports(crates: &Vec<String>) -> (kept: Vec<String>)
    ensures
        texts(kept@) == texts(crates@).filter(|name: Seq<char>| native(name)),
{
    let mut kept: Vec<String> = Vec::new();
    let ghost keeps = |name: Seq<char>| native(name);
    let mut i: usize = 0;
    proof {
        reveal(Seq::filter);
        assert(texts(kept@) =~= texts(crates@).take(0).filter(keeps));
    }
    while i < crates.len()
        invariant
            i <= crates@.len(),
            keeps == (|name: Seq<char>| native(name)),
            texts(kept@) == texts(crates@).take(i as int).filter(keeps),
        decreases crates@.len() - i,
    {
        let ghost before = texts(kept@);
        proof {
            reveal(Seq::filter);
            assert(texts(crates@).take(i + 1).drop_last() =~= texts(crates@).take(i as int));
            assert(texts(crates@).take(i + 1).last() == crates@[i as int]@);
        }
        if !same_text(crates[i].as_str(), "incan_stdlib") && !same_text(crates[i].as_str(), "std") {
            kept.push(crates[i].clone());
            proof {
                assert(texts(kept@) =~= before.push(crates@[i as int]@));
            }
        }
        i += 1;
    }
    proof {
        assert(texts(crates@).take(i as int) =~= texts(crates@));
    }
    kept
}

// ---------------------------------------------------------------------------
// The inputs of the native build unit
// ---------------------------------------------------------------------------

/// What the derivation of the inputs waits for.
#[derive(Debug, Clone, Copy, PartialEq, Eq, Structural)]
pub enum InputsStage {
    /// The collected requirements.
    Requiring,
    /// The extended requirements.
    Extending,
    /// The resolved dependencies.
    Resolving,
    /// The merged requirements.
    Merging,
    /// The derived inputs.
    Deriving,
}

/// What happened while the inputs of the native build unit were derived.
#[derive(Debug)]
#[allow(inconsistent_fields)]
pub enum InputsEvent {
    /// The native requirements were collected or not.
    Required(Result<(), String>),
    /// The requirements were extended by the provider plan or not.
    Extended(Result<(), String>),
    /// The reachable dependencies were resolved, or each error that stopped that.
    Resolved(Result<(), Vec<String>>),
    /// The requirements were merged into the dependencies or not.
    Merged(Result<(), String>),
    /// The inputs were derived or not.
    Derived(Result<Vec<(String, String)>, String>),
}

/// What is to be done next for the inputs of the native build unit.
#[derive(Debug)]
#[allow(inconsistent_fields)]
pub enum InputsAction {
    /// Collect the native requirements.
    CollectRequirements,
    /// Extend them by the provider plan.
    ExtendRequirements,
    /// Resolve the dependencies that imported crates reach.
    ResolveDependencies(Vec<String>),
    /// Merge the requirements into them.
    MergeRequirements,
    /// Derive the inputs.
    DeriveInputs,
}

/// How the derivation goes on.
#[derive(Debug)]
#[allow(inconsistent_fields)]
pub enum InputsStep {
    /// Something is to be done, and waited for.
    Perform(InputsStage, InputsAction),
    /// The event is not what the derivation waits for.
    Unexpected,
    /// The inputs are there.
    Derived(Vec<(String, String)>),
    /// The derivation was stopped.
    Failed(ContextFailure),
}

/// Whether a step is the one that an event leads to at a stage, where the modules import crates.
pub open spec fn inputs_follow(
    crates: Seq<Seq<char>>,
    stage: InputsStage,
    event: InputsEvent,
    step: InputsStep,
) -> bool {
    match (stage, event) {
        (InputsStage::Requiring, InputsEvent::Required(required)) => match required {
            Ok(_) => step == InputsStep::Perform(InputsStage::Extending, InputsAction::ExtendRequirements),
            Err(error) => step == InputsStep::Failed(ContextFailure::Requirements(error)),
        },
        (InputsStage::Extending, InputsEvent::Extended(extended)) => match extended {
            Ok(_) => step matches InputsStep::Perform(next, InputsAction::ResolveDependencies(kept)) && next
                == InputsStage::Resolving && texts(kept@) == crates.filter(|name: Seq<char>| native(name)),
            Err(error) => step == InputsStep::Failed(ContextFailure::ExtendedRequirements(error)),
        },
        (InputsStage::Resolving, InputsEvent::Resolved(resolved)) => match resolved {
            Ok(_) => step == InputsStep::Perform(InputsStage::Merging, InputsAction::MergeRequirements),
            Err(errors) => step == InputsStep::Failed(ContextFailure::Dependencies(errors)),
        },
        (InputsStage::Merging, InputsEvent::Merged(merged)) => match merged {
            Ok(_) => step == InputsStep::Perform(InputsStage::Deriving, InputsAction::DeriveInputs),
            Err(error) => step == InputsStep::Failed(ContextFailure::MergedRequirements(error)),
        },
        (InputsStage::Deriving, InputsEvent::Derived(derived)) => match derived {
            Ok(inputs) => step == InputsStep::Derived(inputs),
            Err(error) => step == InputsStep::Failed(ContextFailure::BuildInputs(error)),
        },
        _ => step == InputsStep::Unexpected,
    }
}

/// Decides how the derivation of the native build unit's inputs goes on, where the modules import crates. The
/// requirements are collected, extended, resolved into dependencies and merged, in this order, before the inputs are
/// derived.
pub fn canonical_oven_build_unit_inputs(crates: &Vec<String>, stage: InputsStage, event: InputsEvent) -> (step:
    InputsStep)
    ensures
        inputs_follow(texts(crates@), stage, event, step),
{
    match (stage, event) {
        (InputsStage::Requiring, InputsEvent::Required(required)) => match required {
            Ok(_) => InputsStep::Perform(InputsStage::Extending, InputsAction::ExtendRequirements),
            Err(error) => InputsStep::Failed(ContextFailure::Requirements(error)),
        },
        (InputsStage::Extending, InputsEvent::Extended(extended)) => match extended {
            Ok(_) => InputsStep::Perform(
                InputsStage::Resolving,
                InputsAction::ResolveDependencies(native_imports(crates)),
            ),
            Err(error) => InputsStep::Failed(ContextFailure::ExtendedRequirements(error)),
        },
        (InputsStage::Resolving, InputsEvent::Resolved(resolved)) => match resolved {
            Ok(_) => InputsStep::Perform(InputsStage::Merging, InputsAction::MergeRequirements),
            Err(errors) => InputsStep::Failed(ContextFailure::Dependencies(errors)),
        },
        (InputsStage::Merging, InputsEvent::Merged(merged)) => match merged {
            Ok(_) => InputsStep::Perform(InputsStage::Deriving, InputsAction::DeriveInputs),
            Err(error) => InputsStep::Failed(ContextFailure::MergedRequirements(error)),
        },
        (InputsStage::Deriving, InputsEvent::Derived(derived)) => match derived {
            Ok(inputs) => InputsStep::Derived(inputs),
            Err(error) => InputsStep::Failed(ContextFailure::BuildInputs(error)),
        },
        _ => InputsStep::Unexpected,
    }
}

// ---------------------------------------------------------------------------
// The preparation
// ---------------------------------------------------------------------------

/// A module that the session collected.
#[derive(Debug)]
pub struct CollectedModule {
    /// Its path, canonical where it has a canonical one.
    pub path: String,
    /// What it holds.
    pub source: String,
    /// The crates that it imports.
    pub crates: Vec<String>,
}

/// The first module from one on that lies at a path.
pub open spec fn first_at(modules: Seq<CollectedModule>, path: Seq<char>, from: int) -> Option<int>
    decreases modules.len() - from,
{
    if from < 0 || from >= modules.len() {
        None
    } else if modules[from].path@ == path {
        Some(from)
    } else {
        first_at(modules, path, from + 1)
    }
}

/// The crates that the modules before one import.
pub open spec fn imported(modules: Seq<CollectedModule>, before: int) -> Seq<Seq<char>>
    decreases before,
{
    if before <= 0 || before > modules.len() {
        Seq::empty()
    } else {
        imported(modules, before - 1) + texts(modules[before - 1].crates@)
    }
}

/// Finds the module that lies at a path.
fn find_module(modules: &Vec<CollectedModule>, path: &str) -> (found: Option<usize>)
    ensures
        match found {
            Some(at) => first_at(modules@, path@, 0) == Some(at as int) && at < modules@.len(),
            None => first_at(modules@, path@, 0) is None,
        },
{
    let mut i: usize = 0;
    while i < modules.len()
        invariant
            i <= modules@.len(),
            first_at(modules@, path@, 0) == first_at(modules@, path@, i as int),
        decreases modules@.len() - i,
    {
        if same_text(modules[i].path.as_str(), path) {
            return Some(i);
        }
        i += 1;
    }
    None
}

/// Gathers the crates that modules import.
fn gather_crates(modules: &Vec<CollectedModule>) -> (crates: Vec<String>)
    ensures
        texts(crates@) == imported(modules@, modules@.len() as int),
{
    let mut crates: Vec<String> = Vec::new();
    let mut i: usize = 0;
    proof {
        assert(texts(crates@) =~= imported(modules@, 0));
    }
    while i < modules.len()
        invariant
            i <= modules@.len(),
            texts(crates@) == imported(modules@, i as int),
        decreases modules@.len() - i,
    {
        let names: &Vec<String> = &modules[i].crates;
        let mut j: usize = 0;
        proof {
            assert(texts(crates@) =~= imported(modules@, i as int) + texts(names@).take(0));
        }
        while j < names.len()
            invariant
                j <= names@.len(),
                texts(crates@) == imported(modules@, i as int) + texts(names@).take(j as int),
            decreases names@.len() - j,
        {
            let ghost before = texts(crates@);
            crates.push(names[j].clone());
            proof {
                assert(texts(crates@) =~= before.push(names@[j as int]@));
                assert(texts(names@).take(j + 1) =~= texts(names@).take(j as int).push(names@[j as int]@));
            }
            j += 1;
        }
        proof {
            assert(texts(names@).take(j as int) =~= texts(names@));
        }
        i += 1;
    }
    crates
}

/// The prepared provider context.
#[derive(Debug)]
pub struct ShadowLegacyMaterialization {
    /// The provider plan.
    pub provider_plan: ProviderPlan,
    /// The inputs of the native build unit.
    pub oven_build_unit_inputs: Vec<(String, String)>,
    /// The identity of the entry source.
    pub entry_source_identity: String,
}

/// Where the preparation stands: what it waits for.
#[derive(Debug)]
#[allow(inconsistent_fields)]
pub enum PreparationState {
    /// The mode of publication.
    Starting,
    /// A session.
    Discovering,
    /// The modules.
    Collecting,
    /// A provider plan.
    Planning {
        /// The identity of the entry source.
        entry_source_identity: String,
        /// The crates that the modules import.
        crates: Vec<String>,
    },
    /// The inputs of the native build unit.
    Deriving {
        /// The identity of the entry source.
        entry_source_identity: String,
        /// The crates that the modules import.
        crates: Vec<String>,
        /// The provider plan.
        provider_plan: ProviderPlan,
        /// How far the derivation has come.
        stage: InputsStage,
    },
}

/// What happened while the context was prepared.
#[derive(Debug)]
#[allow(inconsistent_fields)]
pub enum PreparationEvent {
    /// The mode of publication was read.
    Started(Option<String>),
    /// A session was found or not.
    Discovered(Result<(), String>),
    /// The modules were collected for an entry, whose path is canonical where it has a canonical one, or not.
    Collected(String, Result<Vec<CollectedModule>, String>),
    /// The provider plan was resolved or not.
    Planned(Result<ProviderPlan, String>),
    /// The derivation of the inputs went on.
    Inputs(InputsEvent),
}

/// What is to be done next for the context.
#[derive(Debug)]
#[allow(inconsistent_fields)]
pub enum PreparationAction {
    /// Find a session.
    Discover,
    /// Collect the modules.
    Collect,
    /// Resolve the provider plan.
    ResolvePlan,
    /// Go on with the derivation of the inputs.
    Inputs(InputsAction),
}

/// How the preparation goes on.
#[derive(Debug)]
#[allow(inconsistent_fields)]
pub enum PreparationStep {
    /// Something is to be done.
    Perform(PreparationState, PreparationAction),
    /// The event is not what the preparation waits for.
    Unexpected(PreparationState),
    /// The preparation is through.
    Finished(Result<ShadowLegacyMaterialization, ShadowUnavailable>),
}

/// Whether the preparation is through without a context, for a reason.
pub open spec fn is_unavailable(step: PreparationStep, reason: Seq<char>) -> bool {
    step matches PreparationStep::Finished(Err(unavailable)) && unavailable.reason@ == reason
}

/// Whether a step is the one that the derivation of the inputs leads to.
pub open spec fn derivation_follows(
    entry: Seq<char>,
    entry_source_identity: String,
    crates: Vec<String>,
    provider_plan: ProviderPlan,
    stage: InputsStage,
    event: InputsEvent,
    step: PreparationStep,
) -> bool {
    match step {
        PreparationStep::Perform(
            PreparationState::Deriving { entry_source_identity: i, crates: c, provider_plan: p, stage: next },
            PreparationAction::Inputs(action),
        ) => {
            &&& i == entry_source_identity && c == crates && p == provider_plan
            &&& inputs_follow(texts(crates@), stage, event, InputsStep::Perform(next, action))
        },
        PreparationStep::Unexpected(state) => {
            &&& state == PreparationState::Deriving { entry_source_identity, crates, provider_plan, stage }
            &&& inputs_follow(texts(crates@), stage, event, InputsStep::Unexpected)
        },
        PreparationStep::Finished(Ok(prepared)) => {
            &&& prepared.provider_plan == provider_plan
            &&& prepared.entry_source_identity == entry_source_identity
            &&& inputs_follow(texts(crates@), stage, event, InputsStep::Derived(prepared.oven_build_unit_inputs))
        },
        PreparationStep::Finished(Err(unavailable)) => exists|failure: ContextFailure| {
            &&& #[trigger] inputs_follow(texts(crates@), stage, event, InputsStep::Failed(failure))
            &&& unavailable.reason@ == context_failure(entry, failure)
        },
        _ => false,
    }
}

/// Whether a step is the one that an event leads to.
pub open spec fn preparation_follows(
    entry: Seq<char>,
    state: PreparationState,
    event: PreparationEvent,
    step: PreparationStep,
) -> bool {
    match (state, event) {
        (PreparationState::Starting, PreparationEvent::Started(mode)) => if publishes(mode) {
            is_unavailable(step, PUBLICATION_REFUSAL@)
        } else {
            step == PreparationStep::Perform(PreparationState::Discovering, PreparationAction::Discover)
        },
        (PreparationState::Discovering, PreparationEvent::Discovered(found)) => match found {
            Ok(_) => step == PreparationStep::Perform(PreparationState::Collecting, PreparationAction::Collect),
            Err(error) => is_unavailable(step, context_failure(entry, ContextFailure::Session(error))),
        },
        (PreparationState::Collecting, PreparationEvent::Collected(path, collected)) => match collected {
            Ok(modules) => match first_at(modules@, path@, 0) {
                Some(at) => step matches PreparationStep::Perform(
                    PreparationState::Planning { entry_source_identity, crates },
                    PreparationAction::ResolvePlan,
                ) && entry_source_identity@ == fragments_identity(seq![modules@[at].source@]) && texts(crates@)
                    == imported(modules@, modules@.len() as int),
                None => is_unavailable(step, context_failure(entry, ContextFailure::MissingEntry)),
            },
            Err(error) => is_unavailable(step, context_failure(entry, ContextFailure::Collection(error))),
        },
        (
            PreparationState::Planning { entry_source_identity, crates },
            PreparationEvent::Planned(planned),
        ) => match planned {
            Ok(provider_plan) => match plan_refusal(provider_plan, entry) {
                Some(reason) => is_unavailable(step, reason),
                None => step == PreparationStep::Perform(
                    PreparationState::Deriving {
                        entry_source_identity,
                        crates,
                        provider_plan,
                        stage: InputsStage::Requiring,
                    },
                    PreparationAction::Inputs(InputsAction::CollectRequirements),
                ),
            },
            Err(error) => is_unavailable(step, context_failure(entry, ContextFailure::ProviderPlan(error))),
        },
        (
            PreparationState::Deriving { entry_source_identity, crates, provider_plan, stage },
            PreparationEvent::Inputs(event),
        ) => derivation_follows(entry, entry_source_identity, crates, provider_plan, stage, event, step),
        _ => step == PreparationStep::Unexpected(state),
    }
}

/// Ends the preparation without a context.
fn stop(entry: &str, failure: ContextFailure) -> (step: PreparationStep)
    ensures
        is_unavailable(step, context_failure(entry@, failure)),
{
    PreparationStep::Finished(Err(failure.unavailable(entry)))
}

/// Decides how the preparation of the provider context of an entry source goes on.
pub fn prepare_shadow_legacy_materialization(entry: &str, state: PreparationState, event: PreparationEvent) -> (step:
    PreparationStep)
    ensures
        preparation_follows(entry@, state, event, step),
{
    match (state, event) {
        (PreparationState::Starting, PreparationEvent::Started(mode)) => match refuse_publication_mode(mode) {
            Ok(_) => PreparationStep::Perform(PreparationState::Discovering, PreparationAction::Discover),
            Err(unavailable) => PreparationStep::Finished(Err(unavailable)),
        },
        (PreparationState::Discovering, PreparationEvent::Discovered(found)) => match found {
            Ok(_) => PreparationStep::Perform(PreparationState::Collecting, PreparationAction::Collect),
            Err(error) => stop(entry, ContextFailure::Session(error)),
        },
        (PreparationState::Collecting, PreparationEvent::Collected(path, collected)) => match collected {
            Ok(modules) => match find_module(&modules, path.as_str()) {
                Some(at) => {
                    let parts: [&str; 1] = [modules[at].source.as_str()];
                    proof {
                        assert(slice_texts(parts@) =~= seq![modules@[at as int].source@]);
                    }
                    let entry_source_identity: String = digest_output(&parts);
                    let crates: Vec<String> = gather_crates(&modules);
                    PreparationStep::Perform(
                        PreparationState::Planning { entry_source_identity, crates },
                        PreparationAction::ResolvePlan,
                    )
                },
                None => stop(entry, ContextFailure::MissingEntry),
            },
            Err(error) => stop(entry, ContextFailure::Collection(error)),
        },
        (
            PreparationState::Planning { entry_source_identity, crates },
            PreparationEvent::Planned(planned),
        ) => match planned {
            Ok(provider_plan) => match require_materializable_provider_plan(&provider_plan, entry) {
                Ok(_) => PreparationStep::Perform(
                    PreparationState::Deriving {
                        entry_source_identity,
                        crates,
                        provider_plan,
                        stage: InputsStage::Requiring,
                    },
                    PreparationAction::Inputs(InputsAction::CollectRequirements),
                ),
                Err(unavailable) => PreparationStep::Finished(Err(unavailable)),
            },
            Err(error) => stop(entry, ContextFailure::ProviderPlan(error)),
        },
        (
            PreparationState::Deriving { entry_source_identity, crates, provider_plan, stage },
            PreparationEvent::Inputs(event),
        ) => match canonical_oven_build_unit_inputs(&crates, stage, event) {
            InputsStep::Perform(next, action) => PreparationStep::Perform(
                PreparationState::Deriving { entry_source_identity, crates, provider_plan, stage: next },
                PreparationAction::Inputs(action),
            ),
            InputsStep::Unexpected => PreparationStep::Unexpected(
                PreparationState::Deriving { entry_source_identity, crates, provider_plan, stage },
            ),
            InputsStep::Derived(oven_build_unit_inputs) => PreparationStep::Finished(
                Ok(ShadowLegacyMaterialization { provider_plan, oven_build_unit_inputs, entry_source_identity }),
            ),
            InputsStep::Failed(failure) => stop(entry, failure),
        },
        (state, _) => PreparationStep::Unexpected(state),
    }
}

/// A provider context is only ever prepared for a plan that can be materialized: no step of the preparation takes up
/// another one.
pub proof fn law_prepared_plans_are_materializable(
    entry: Seq<char>,
    state: PreparationState,
    event: PreparationEvent,
    step: PreparationStep,
)
    requires
        preparation_follows(entry, state, event, step),
        state matches PreparationState::Deriving { entry_source_identity, crates, provider_plan, stage }
            ==> plan_refusal(provider_plan, entry) is None,
    ensures
        step matches PreparationStep::Perform(
            PreparationState::Deriving { entry_source_identity, crates, provider_plan, stage },
            action,
        ) ==> plan_refusal(provider_plan, entry) is None,
        step matches PreparationStep::Finished(Ok(prepared)) ==> plan_refusal(prepared.provider_plan, entry) is None,
{
}

/// How many replies the derivation still waits for at a stage.
pub open spec fn replies_left(stage: InputsStage) -> nat {
    match stage {
        InputsStage::Requiring => 5,
        InputsStage::Extending => 4,
        InputsStage::Resolving => 3,
        InputsStage::Merging => 2,
        InputsStage::Deriving => 1,
    }
}

/// What has to be done before a stage can be waited for.
pub open spec fn leads_to(stage: InputsStage, action: InputsAction) -> bool {
    match stage {
        InputsStage::Requiring => action is CollectRequirements,
        InputsStage::Extending => action is ExtendRequirements,
        InputsStage::Resolving => action is ResolveDependencies,
        InputsStage::Merging => action is MergeRequirements,
        InputsStage::Deriving => action is DeriveInputs,
    }
}

/// The native inputs are derived in one order, from collecting the requirements to deriving the inputs: no reply is
/// skipped, each stage is waited for behind its own action, and nothing is handed out before the last reply.
pub proof fn law_inputs_are_derived_in_order(
    crates: Seq<Seq<char>>,
    stage: InputsStage,
    event: InputsEvent,
    step: InputsStep,
)
    requires
        inputs_follow(crates, stage, event, step),
    ensures
        step matches InputsStep::Perform(next, action) ==> replies_left(next) + 1 == replies_left(stage) && leads_to(
            next,
            action,
        ),
        step is Derived ==> replies_left(stage) == 1,
        step is Unexpected <==> match stage {
            InputsStage::Requiring => !(event is Required),
            InputsStage::Extending => !(event is Extended),
            InputsStage::Resolving => !(event is Resolved),
            InputsStage::Merging => !(event is Merged),
            InputsStage::Deriving => !(event is Derived),
        },
{
}

} // verus!
