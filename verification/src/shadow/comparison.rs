//! The comparison of both routes, and what survives it.

use crate::body_ir::BodyIrModule;
use crate::replacement::admission::{free_function_refusal, prepare_free_function_execution, ValidatedFreeFunctionExecution};
use crate::replacement::error::{explanation, ErrorModel, ReplacementExecutionError};
use crate::replacement::free_function::{
    admitted_run, attempt_prevalidated_free_function, execution_agrees, settles, ReplacementExecution,
    EXECUTION_FUEL,
};
use crate::replacement::value::{models, observable};
use crate::selection::{
    coverage_of, digest_output, finalize_receipt, fragments_identity, resolve_execution, revision_of, select_backend,
    BackendExecutionReceipt, BackendKind, BackendSelection, BackendSelectionError, FallbackOutcome, FallbackPolicy,
    SelectionReason, ShadowComparisonState, StateModel,
};
use crate::shadow::frame::{framed, law_framed_results_round_trip};
use crate::shadow::observation::{
    classified, classify_observations, classify_replacement_failure, observes_process, replacement_failure,
    LegacyExecutionAuthority, ObservableModel, RouteObservation, RuntimeFailureClass, SourceObservable,
};
use crate::shadow::profile::{instance_identity, ShadowComparisonProfile};
use crate::shadow::{ShadowUnavailable, SHADOW_COMPARISON_PROFILE_ID};
use crate::text::{decimal, has_text, join, joined, lowercased, natural_text, slice_texts, texts};
use crate::INCAN_VERSION;
use vstd::prelude::*;
use vstd::utf8::encode_utf8;

verus! {

broadcast use vstd::string::group_string_axioms;

/// Tag of the identity of a failed direct execution.
pub const REPLACEMENT_FAILURE_IDENTITY_TAG: &'static str = "incan.shadow_comparison.replacement_failure.v0";

/// Version of the diagnostic contract that receipts name.
pub const DIAGNOSTIC_SCHEMA_VERSION: u32 = 1;

/// A direct execution with its observation.
#[derive(Debug)]
pub struct ReplacementRouteResult {
    /// The observation.
    pub observation: RouteObservation,
    /// The execution, where it completed.
    pub execution: Option<ReplacementExecution>,
}

/// A legacy execution with its observation.
#[derive(Debug)]
pub struct LegacyRouteResult {
    /// The observation.
    pub observation: RouteObservation,
    /// What authorized the execution.
    pub authority: LegacyExecutionAuthority,
}

/// What one route contributed to a comparison.
#[derive(Debug, Clone)]
pub struct RouteEvidence {
    /// The receipt of the route's execution, where one could be finalized.
    pub receipt: Option<BackendExecutionReceipt>,
    /// The observation.
    pub observation: RouteObservation,
}

impl RouteEvidence {
    /// The receipt, or why this executed route has none.
    pub fn receipt(&self) -> (outcome: Result<&BackendExecutionReceipt, String>)
        ensures
            match outcome {
                Ok(receipt) => self.receipt == Some(*receipt),
                Err(reason) => self.receipt is None && reason@ == "the "@ + self.observation.profile_kind@
                    + " route executed but its receipt could not be finalized"@,
            },
    {
        match &self.receipt {
            Some(receipt) => Ok(receipt),
            None => Err(
                "the ".to_owned().concat(self.observation.profile_kind.as_str()).concat(
                    " route executed but its receipt could not be finalized",
                ),
            ),
        }
    }
}

/// The result of one comparison. A route is present exactly where it executed.
#[derive(Debug, Clone)]
pub struct ShadowComparison {
    /// Kind of the comparison profile.
    pub profile_kind: String,
    /// Identity of the exact profile instance.
    pub profile_identity: String,
    /// Identity of the source that both routes were selected for.
    pub source_identity: String,
    /// The outcome, which every receipt carries too.
    pub state: ShadowComparisonState,
    /// What the legacy route contributed.
    pub legacy: Option<RouteEvidence>,
    /// What the replacement route contributed.
    pub replacement: Option<RouteEvidence>,
    /// The direct execution, where it completed.
    pub replacement_execution: Option<ReplacementExecution>,
    /// What authorized the legacy execution.
    pub legacy_authority: Option<LegacyExecutionAuthority>,
}

impl ShadowComparison {
    /// Decides whether both routes ran and agreed.
    #[must_use]
    pub fn matched(&self) -> (agreed: bool)
        ensures
            agreed == (self.state is Matched),
    {
        match &self.state {
            ShadowComparisonState::Matched { .. } => true,
            _ => false,
        }
    }

    /// Why no comparison was made, where none was.
    #[must_use]
    pub fn unavailable_reason(&self) -> (reason: Option<&str>)
        ensures
            match reason {
                Some(text) => self.state.model() == StateModel::Unavailable(text@),
                None => !(self.state is Unavailable),
            },
    {
        match &self.state {
            ShadowComparisonState::Unavailable { reason } => Some(reason.as_str()),
            _ => None,
        }
    }
}

// ---------------------------------------------------------------------------
// Receipts
// ---------------------------------------------------------------------------

/// Whether a receipt binds a route's observation to its declared selection under an outcome.
///
/// The selection is explicit and refuses fallbacks, so no receipt records one backend standing in for the other.
pub open spec fn binds(
    receipt: BackendExecutionReceipt,
    source_identity: Seq<char>,
    backend: BackendKind,
    observation: RouteObservation,
    state: ShadowComparisonState,
) -> bool {
    &&& receipt.authentic()
    &&& receipt.selection.selected_backend == backend
    &&& receipt.selection.implementation_revision == revision_of(backend)
    &&& receipt.selection.compatibility_profile == coverage_of(backend)
    &&& receipt.selection.source_identity@ == source_identity
    &&& receipt.selection.selection_reason == SelectionReason::ExplicitRequest
    &&& receipt.selection.fallback_policy == FallbackPolicy::Refuse
    &&& receipt.selection.shadow_requested
    &&& receipt.compiler_version@ == INCAN_VERSION@
    &&& receipt.executed_backend == backend
    &&& receipt.fallback_outcome == FallbackOutcome::NotNeeded
    &&& receipt.shadow_comparison == state
    &&& receipt.diagnostic_contract_version == DIAGNOSTIC_SCHEMA_VERSION
    &&& receipt.output_identity@ == observation.output_identity@
}

/// Declares, resolves and finalizes the receipt of a route that executed.
fn route_receipt(
    source_identity: &str,
    backend: BackendKind,
    observation: &RouteObservation,
    state: &ShadowComparisonState,
) -> (outcome: Result<BackendExecutionReceipt, BackendSelectionError>)
    ensures
        outcome matches Ok(receipt) && binds(receipt, source_identity@, backend, *observation, *state),
{
    let selection: BackendSelection = select_backend(backend, true, true, source_identity, FallbackPolicy::Refuse);
    let executed: BackendKind = resolve_execution(&selection, true)?;
    Ok(
        finalize_receipt(
            &selection,
            executed,
            observation.output_identity.as_str(),
            state.clone(),
            DIAGNOSTIC_SCHEMA_VERSION,
        ),
    )
}

/// Whether evidence is that of a route that executed.
pub open spec fn keeps(
    evidence: RouteEvidence,
    source_identity: Seq<char>,
    backend: BackendKind,
    observation: RouteObservation,
    state: ShadowComparisonState,
) -> bool {
    &&& evidence.observation == observation
    &&& evidence.receipt matches Some(receipt) && binds(receipt, source_identity, backend, observation, state)
}

/// Binds an executed route's observation to its receipt, keeping the observation either way.
fn route_evidence(
    source_identity: &str,
    backend: BackendKind,
    observation: Option<RouteObservation>,
    state: &ShadowComparisonState,
) -> (evidence: Option<RouteEvidence>)
    ensures
        match observation {
            Some(observation) => evidence matches Some(evidence) && keeps(
                evidence,
                source_identity@,
                backend,
                observation,
                *state,
            ),
            None => evidence is None,
        },
{
    match observation {
        None => None,
        Some(observation) => {
            let receipt: Option<BackendExecutionReceipt> = match route_receipt(
                source_identity,
                backend,
                &observation,
                state,
            ) {
                Ok(receipt) => Some(receipt),
                Err(_) => None,
            };
            Some(RouteEvidence { receipt, observation })
        },
    }
}

// ---------------------------------------------------------------------------
// Assembly
// ---------------------------------------------------------------------------

/// Why a comparison could not run, naming every route that did not execute.
pub open spec fn combined_reason(legacy: Option<Seq<char>>, replacement: Option<Seq<char>>) -> Seq<char> {
    match (legacy, replacement) {
        (Some(legacy), Some(replacement)) => "neither route executed; legacy route: "@ + legacy
            + "; replacement route: "@ + replacement,
        (Some(legacy), None) => "the legacy route did not execute: "@ + legacy,
        (None, Some(replacement)) => "the replacement route did not execute: "@ + replacement,
        (None, None) => "no comparison was made and neither route reported a reason"@,
    }
}

/// The text of an optional reason.
pub open spec fn reason_text(reason: Option<String>) -> Option<Seq<char>> {
    match reason {
        Some(text) => Some(text@),
        None => None,
    }
}

/// Composes why a comparison could not run.
pub fn unavailable_reason(legacy: Option<String>, replacement: Option<String>) -> (reason: String)
    ensures
        reason@ == combined_reason(reason_text(legacy), reason_text(replacement)),
{
    match (legacy, replacement) {
        (Some(legacy), Some(replacement)) => "neither route executed; legacy route: ".to_owned().concat(
            legacy.as_str(),
        ).concat("; replacement route: ").concat(replacement.as_str()),
        (Some(legacy), None) => "the legacy route did not execute: ".to_owned().concat(legacy.as_str()),
        (None, Some(replacement)) => "the replacement route did not execute: ".to_owned().concat(
            replacement.as_str(),
        ),
        (None, None) => "no comparison was made and neither route reported a reason".to_owned(),
    }
}

/// The outcome of a comparison.
pub open spec fn verdict(
    replacement: Result<ReplacementRouteResult, ShadowUnavailable>,
    legacy: Result<LegacyRouteResult, ShadowUnavailable>,
) -> StateModel {
    match (legacy, replacement) {
        (Ok(l), Ok(r)) => classified(l.observation, r.observation),
        (Err(l), Err(r)) => StateModel::Unavailable(combined_reason(Some(l.reason@), Some(r.reason@))),
        (Err(l), Ok(_)) => StateModel::Unavailable(combined_reason(Some(l.reason@), None)),
        (Ok(_), Err(r)) => StateModel::Unavailable(combined_reason(None, Some(r.reason@))),
    }
}

/// The outcome once a receipt could not be finalized: the verdict is withdrawn.
pub open spec fn withdrawn(failures: Seq<Seq<char>>) -> StateModel {
    StateModel::Unavailable(
        "both routes' observations were produced, but a receipt could not be finalized, so the comparison is not verifiable: "@
            + joined(failures, "; "@),
    )
}

/// Withdraws a verdict where a receipt could not be finalized.
pub fn settle_state(state: ShadowComparisonState, receipt_failures: &Vec<String>) -> (settled: ShadowComparisonState)
    ensures
        receipt_failures@.len() == 0 ==> settled == state,
        receipt_failures@.len() > 0 ==> settled.model() == withdrawn(texts(receipt_failures@)),
{
    if receipt_failures.len() == 0 {
        state
    } else {
        ShadowComparisonState::Unavailable {
            reason: "both routes' observations were produced, but a receipt could not be finalized, so the comparison is not verifiable: ".to_owned().concat(
                join(receipt_failures, "; ").as_str(),
            ),
        }
    }
}

/// Why the receipt of a route could not be finalized, where it could not.
fn receipt_failure(
    source_identity: &str,
    backend: BackendKind,
    label: &str,
    observation: &Option<RouteObservation>,
    state: &ShadowComparisonState,
) -> (failure: Option<String>)
    ensures
        failure is None,
{
    match observation {
        None => None,
        Some(observation) => match route_receipt(source_identity, backend, observation, state) {
            Ok(_) => None,
            Err(error) => Some(
                "the ".to_owned().concat(label).concat(" route executed and observed ").concat(
                    observation.observable.describe().as_str(),
                ).concat(" but its receipt could not be finalized: ").concat(error.message().as_str()),
            ),
        },
    }
}

/// Folds both routes' results into one comparison, keeping every route that executed.
pub fn assemble_comparison(
    profile: &ShadowComparisonProfile,
    replacement: Result<ReplacementRouteResult, ShadowUnavailable>,
    legacy: Result<LegacyRouteResult, ShadowUnavailable>,
) -> (comparison: ShadowComparison)
    ensures
        comparison.profile_kind@ == SHADOW_COMPARISON_PROFILE_ID@,
        comparison.profile_identity@ == instance_identity(*profile),
        comparison.source_identity@ == fragments_identity(seq![profile.source@]),
        comparison.state.model() == verdict(replacement, legacy),
        match legacy {
            Ok(observed) => comparison.legacy matches Some(evidence) && keeps(
                evidence,
                comparison.source_identity@,
                BackendKind::Legacy,
                observed.observation,
                comparison.state,
            ) && comparison.legacy_authority == Some(observed.authority),
            Err(_) => comparison.legacy is None && comparison.legacy_authority is None,
        },
        match replacement {
            Ok(observed) => comparison.replacement matches Some(evidence) && keeps(
                evidence,
                comparison.source_identity@,
                BackendKind::Replacement,
                observed.observation,
                comparison.state,
            ) && comparison.replacement_execution == observed.execution,
            Err(_) => comparison.replacement is None && comparison.replacement_execution is None,
        },
{
    let profile_kind: String = profile.profile_kind().to_owned();
    let profile_identity: String = profile.profile_identity();
    let source_identity: String = profile.source_identity();

    let (replacement_observation, replacement_execution, replacement_unavailable): (
        Option<RouteObservation>,
        Option<ReplacementExecution>,
        Option<String>,
    ) = match replacement {
        Ok(observed) => (Some(observed.observation), observed.execution, None),
        Err(unavailable) => (None, None, Some(unavailable.reason)),
    };
    let (legacy_observation, legacy_authority, legacy_unavailable): (
        Option<RouteObservation>,
        Option<LegacyExecutionAuthority>,
        Option<String>,
    ) = match legacy {
        Ok(observed) => (Some(observed.observation), Some(observed.authority), None),
        Err(unavailable) => (None, None, Some(unavailable.reason)),
    };

    let observed_state: ShadowComparisonState = match (&legacy_observation, &replacement_observation) {
        (Some(legacy), Some(replacement)) => classify_observations(legacy, replacement),
        _ => ShadowComparisonState::Unavailable {
            reason: unavailable_reason(legacy_unavailable, replacement_unavailable),
        },
    };

    let mut receipt_failures: Vec<String> = Vec::new();
    match receipt_failure(
        source_identity.as_str(),
        BackendKind::Legacy,
        "legacy",
        &legacy_observation,
        &observed_state,
    ) {
        Some(failure) => {
            receipt_failures.push(failure);
        },
        None => {},
    }
    match receipt_failure(
        source_identity.as_str(),
        BackendKind::Replacement,
        "replacement",
        &replacement_observation,
        &observed_state,
    ) {
        Some(failure) => {
            receipt_failures.push(failure);
        },
        None => {},
    }
    let state: ShadowComparisonState = settle_state(observed_state, &receipt_failures);

    let legacy_evidence: Option<RouteEvidence> = route_evidence(
        source_identity.as_str(),
        BackendKind::Legacy,
        legacy_observation,
        &state,
    );
    let replacement_evidence: Option<RouteEvidence> = route_evidence(
        source_identity.as_str(),
        BackendKind::Replacement,
        replacement_observation,
        &state,
    );

    ShadowComparison {
        profile_kind,
        profile_identity,
        source_identity,
        state,
        legacy: legacy_evidence,
        replacement: replacement_evidence,
        replacement_execution,
        legacy_authority,
    }
}

/// Only two executed routes that observed the same of the same profile instance are a match. A route that did not
/// execute makes the comparison unavailable.
pub proof fn law_only_agreement_matches(
    replacement: Result<ReplacementRouteResult, ShadowUnavailable>,
    legacy: Result<LegacyRouteResult, ShadowUnavailable>,
)
    ensures
        verdict(replacement, legacy) is Matched ==> (legacy matches Ok(l) && replacement matches Ok(r)
            && l.observation.observable.model() == r.observation.observable.model()
            && l.observation.profile_identity@ == r.observation.profile_identity@),
        legacy is Err || replacement is Err ==> verdict(replacement, legacy) is Unavailable,
{
}

// ---------------------------------------------------------------------------
// The replacement route
// ---------------------------------------------------------------------------

/// Why the replacement route cannot execute a profile instance.
pub open spec fn refused_profile(error: ErrorModel) -> Seq<char> {
    "the replacement route cannot execute this profile instance: "@ + explanation(error)
}

/// Folds a refusal into an unavailable reason.
fn replacement_profile_unavailable(error: &ReplacementExecutionError) -> (unavailable: ShadowUnavailable)
    ensures
        unavailable.reason@ == refused_profile(error@),
{
    ShadowUnavailable::new(
        "the replacement route cannot execute this profile instance: ".to_owned().concat(error.message().as_str()),
    )
}

/// Whether an observation is that of a direct execution that completed.
pub open spec fn observes_execution(
    result: ReplacementRouteResult,
    profile: ShadowComparisonProfile,
    execution: ReplacementExecution,
) -> bool {
    &&& result.execution == Some(execution)
    &&& result.observation.profile_kind@ == SHADOW_COMPARISON_PROFILE_ID@
    &&& result.observation.profile_identity@ == instance_identity(profile)
    &&& result.observation.observable.model() == ObservableModel::Completed(observable(execution.value.model()))
    &&& result.observation.detail@ == "direct Body-IR execution of `"@ + profile.function@ + "`"@
    &&& result.observation.output_identity@ == execution.output_identity@
}

/// Whether an observation is that of a direct execution that failed in a class.
pub open spec fn observes_failure(
    result: ReplacementRouteResult,
    profile: ShadowComparisonProfile,
    detail: Seq<char>,
) -> bool {
    &&& result.execution is None
    &&& result.observation.profile_kind@ == SHADOW_COMPARISON_PROFILE_ID@
    &&& result.observation.profile_identity@ == instance_identity(profile)
    &&& result.observation.observable.model() matches ObservableModel::Failed(class) && replacement_failure(detail)
        == Ok::<_, Seq<char>>(class)
    &&& result.observation.detail@ == "direct Body-IR execution failed: "@ + detail
    &&& result.observation.output_identity@ == fragments_identity(seq![REPLACEMENT_FAILURE_IDENTITY_TAG@, detail])
}

/// Why an execution that printed lines cannot be compared.
pub open spec fn printed(lines: nat) -> Seq<char> {
    "the replacement route emitted "@ + decimal(lines)
        + " line(s) of program output, which this profile cannot compare: the legacy route recovers its result from a stdout frame that the program's own output breaks"@
}

/// Whether an outcome is what a direct execution shows that printed some lines.
pub open spec fn observed_as(
    profile: ShadowComparisonProfile,
    executed: Result<ReplacementExecution, ReplacementExecutionError>,
    lines: nat,
    outcome: Result<ReplacementRouteResult, ShadowUnavailable>,
) -> bool {
    match executed {
        Ok(execution) => if lines > 0 {
            outcome matches Err(unavailable) && unavailable.reason@ == printed(lines)
        } else {
            outcome matches Ok(result) && observes_execution(result, profile, execution)
        },
        Err(error) => match error@ {
            ErrorModel::RuntimeFailure(detail, _) => match outcome {
                Ok(result) => observes_failure(result, profile, detail),
                Err(unavailable) => replacement_failure(detail) == Err::<
                    RuntimeFailureClass,
                    Seq<char>,
                >(unavailable.reason@),
            },
            _ => outcome matches Err(unavailable) && unavailable.reason@ == refused_profile(error@),
        },
    }
}

/// Turns what a direct execution gave into an observation. One that printed lines of its own is not compared.
pub fn observe_execution(
    profile: &ShadowComparisonProfile,
    executed: Result<ReplacementExecution, ReplacementExecutionError>,
    lines: usize,
) -> (outcome: Result<ReplacementRouteResult, ShadowUnavailable>)
    ensures
        observed_as(*profile, executed, lines as nat, outcome),
{
    let profile_kind: String = profile.profile_kind().to_owned();
    let profile_identity: String = profile.profile_identity();
    match executed {
        Ok(execution) => {
            if lines > 0 {
                return Err(
                    ShadowUnavailable::new(
                        "the replacement route emitted ".to_owned().concat(natural_text(lines as u64).as_str()).concat(
                            " line(s) of program output, which this profile cannot compare: the legacy route recovers its result from a stdout frame that the program's own output breaks",
                        ),
                    ),
                );
            }
            let observation = RouteObservation {
                profile_kind,
                profile_identity,
                observable: SourceObservable::Completed { result: execution.value.observable_text() },
                detail: "direct Body-IR execution of `".to_owned().concat(profile.function()).concat("`"),
                output_identity: execution.output_identity.clone(),
            };
            Ok(ReplacementRouteResult { observation, execution: Some(execution) })
        },
        Err(ReplacementExecutionError::RuntimeFailure { detail, span }) => {
            let failure = classify_replacement_failure(detail.as_str())?;
            let parts: [&str; 2] = [REPLACEMENT_FAILURE_IDENTITY_TAG, detail.as_str()];
            proof {
                assert(slice_texts(parts@) =~= seq![REPLACEMENT_FAILURE_IDENTITY_TAG@, detail@]);
            }
            let output_identity: String = digest_output(&parts);
            Ok(
                ReplacementRouteResult {
                    observation: RouteObservation {
                        profile_kind,
                        profile_identity,
                        observable: SourceObservable::Failed { failure },
                        detail: "direct Body-IR execution failed: ".to_owned().concat(detail.as_str()),
                        output_identity,
                    },
                    execution: None,
                },
            )
        },
        Err(error) => Err(replacement_profile_unavailable(&error)),
    }
}

/// Why an execution that does not settle was not observed.
pub const UNSETTLED_EXECUTION: &'static str = "the replacement route did not settle: an integer left its range or calls nested too deeply";

/// Observes the replacement route: executes the function of the lowered module directly.
///
/// An execution in which an integer would leave its range, or calls would nest too deeply, makes the route unavailable.
/// Direct execution prints nothing.
pub fn observe_replacement_route(
    profile: &ShadowComparisonProfile,
    module: Result<&BodyIrModule, ShadowUnavailable>,
) -> (outcome: Result<ReplacementRouteResult, ShadowUnavailable>)
    ensures
        match module {
            Err(unavailable) => outcome == Err::<ReplacementRouteResult, ShadowUnavailable>(unavailable),
            Ok(module) => {
                let args = models(profile.arguments@);
                let run = admitted_run(*module, EXECUTION_FUEL as nat, profile.function@, args);
                match free_function_refusal(*module, profile.function@, args) {
                    Some(error) => outcome matches Err(unavailable) && unavailable.reason@ == refused_profile(error),
                    None => if settles(run) {
                        exists|executed: Result<ReplacementExecution, ReplacementExecutionError>|
                            #[trigger] execution_agrees(run, executed) && observed_as(*profile, executed, 0, outcome)
                    } else {
                        outcome matches Err(unavailable) && unavailable.reason@ == UNSETTLED_EXECUTION@
                    },
                }
            },
        },
{
    match module {
        Err(unavailable) => Err(unavailable),
        Ok(module) => {
            let plan: ValidatedFreeFunctionExecution<'_, '_> = match prepare_free_function_execution(
                module,
                profile.function(),
                profile.arguments.as_slice(),
            ) {
                Ok(plan) => plan,
                Err(error) => {
                    return Err(replacement_profile_unavailable(&error));
                },
            };
            match attempt_prevalidated_free_function(plan) {
                None => Err(ShadowUnavailable::new(UNSETTLED_EXECUTION.to_owned())),
                Some(executed) => observe_execution(profile, executed, 0),
            }
        },
    }
}

/// A failure that both routes name is agreed on: a legacy process that fails with a failed assertion matches a direct
/// execution that fails with one, and the verdict names it. An assertion matches no other failure, and no result.
pub proof fn law_failed_assertions_match(
    profile: ShadowComparisonProfile,
    direct: ReplacementRouteResult,
    detail: Seq<char>,
    legacy: LegacyRouteResult,
    exit_code: Option<i32>,
    stdout: Seq<u8>,
    stderr: Seq<char>,
)
    requires
        observes_failure(direct, profile, detail),
        observes_process(
            legacy.observation,
            SHADOW_COMPARISON_PROFILE_ID@,
            instance_identity(profile),
            legacy.authority,
            exit_code,
            stdout,
            stderr,
        ),
        exit_code != Some(0i32),
        has_text(lowercased(stderr), "assertionerror"@) || has_text(lowercased(stderr), "assertion failed"@),
    ensures
        has_text(lowercased(detail), "assertion"@) ==> verdict(Ok(direct), Ok(legacy)) == (StateModel::Matched {
            profile_kind: SHADOW_COMPARISON_PROFILE_ID@,
            profile_identity: instance_identity(profile),
            observable: "failed("@ + "assertion-failed"@ + ")"@,
        }),
        !has_text(lowercased(detail), "assertion"@) ==> verdict(Ok(direct), Ok(legacy)) is Diverged,
{
}

/// A result is agreed on exactly where both routes gave the same text: a legacy process that exits successfully and
/// printed a framed result matches a direct execution whose value is spelled that way, and diverges from any other.
pub proof fn law_framed_results_match(
    profile: ShadowComparisonProfile,
    direct: ReplacementRouteResult,
    execution: ReplacementExecution,
    legacy: LegacyRouteResult,
    printed: Seq<char>,
    stderr: Seq<char>,
)
    requires
        observes_execution(direct, profile, execution),
        observes_process(
            legacy.observation,
            SHADOW_COMPARISON_PROFILE_ID@,
            instance_identity(profile),
            legacy.authority,
            Some(0i32),
            framed(encode_utf8(printed)),
            stderr,
        ),
    ensures
        observable(execution.value.model()) == printed ==> verdict(Ok(direct), Ok(legacy)) is Matched,
        observable(execution.value.model()) != printed ==> verdict(Ok(direct), Ok(legacy)) is Diverged,
{
    law_framed_results_round_trip(printed);
}

} // verus!
