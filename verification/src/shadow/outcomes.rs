//! What holds of the reasons and outcomes of a comparison's routes.

use crate::replacement::error::{explanation, ErrorModel, ReplacementExecutionError};
use crate::replacement::free_function::ReplacementExecution;
use crate::replacement::value::observable;
use crate::selection::{BackendKind, ShadowComparisonState};
use crate::shadow::comparison::{keeps, observed_as, ReplacementRouteResult, RouteEvidence};
use crate::shadow::legacy_oven::{
    environment_refusal, receipt_refusal, ReceiptReading, INCAN_HOME_ENV, INCAN_HOME_ROLE, RECEIPT_ENV, RECEIPT_ROLE,
    RUSTC_ENV, RUSTC_ROLE,
};
use crate::shadow::observation::{replacement_failure, ObservableModel, RouteObservation};
use crate::shadow::profile::{instance_identity, source_failure, ShadowComparisonProfile, SourceFailure};
use crate::shadow::{ShadowUnavailable, SHADOW_COMPARISON_PROFILE_ID};
use vstd::prelude::*;

verus! {

// ---------------------------------------------------------------------------
// Executions
// ---------------------------------------------------------------------------

/// An execution that printed nothing is observed with the value that it gave, and one that printed lines is not
/// compared. A runtime failure of a known class is observed with that class, and no other error is compared: the reason
/// ends in its explanation.
pub proof fn law_outcomes_follow_the_execution(
    profile: ShadowComparisonProfile,
    executed: Result<ReplacementExecution, ReplacementExecutionError>,
    lines: nat,
    outcome: Result<ReplacementRouteResult, ShadowUnavailable>,
)
    requires
        observed_as(profile, executed, lines, outcome),
    ensures
        executed is Ok ==> (outcome is Ok <==> lines == 0),
        match (executed, outcome) {
            (Ok(execution), Ok(result)) => {
                &&& result.execution == Some(execution)
                &&& result.observation.observable.model() == ObservableModel::Completed(
                    observable(execution.value.model()),
                )
                &&& result.observation.output_identity@ == execution.output_identity@
            },
            (Err(error), Ok(result)) => {
                &&& result.execution is None
                &&& match (error@, result.observation.observable.model()) {
                    (ErrorModel::RuntimeFailure(detail, _), ObservableModel::Failed(class)) => Ok::<_, Seq<char>>(class)
                        == replacement_failure(detail),
                    _ => false,
                }
            },
            (Err(error), Err(unavailable)) => match error@ {
                ErrorModel::RuntimeFailure(detail, _) => replacement_failure(detail) is Err,
                _ => exists|front: Seq<char>| unavailable.reason@ == #[trigger] (front + explanation(error@)),
            },
            (Ok(_), Err(_)) => true,
        },
        outcome matches Ok(result) ==> result.observation.profile_kind@ == SHADOW_COMPARISON_PROFILE_ID@
            && result.observation.profile_identity@ == instance_identity(profile),
{
    if let (Err(error), Err(unavailable)) = (executed, outcome) {
        let front = "the replacement route cannot execute this profile instance: "@;
        assert(!(error@ is RuntimeFailure) ==> unavailable.reason@ == front + explanation(error@));
    }
}

/// The evidence of a route that executed keeps its observation and is bound by a receipt.
pub proof fn law_evidence_keeps_the_observation(
    evidence: RouteEvidence,
    source_identity: Seq<char>,
    backend: BackendKind,
    observation: RouteObservation,
    state: ShadowComparisonState,
)
    requires
        keeps(evidence, source_identity, backend, observation, state),
    ensures
        evidence.observation == observation,
        evidence.receipt matches Some(receipt) && receipt.executed_backend == backend,
{
}

// ---------------------------------------------------------------------------
// Reasons
// ---------------------------------------------------------------------------

/// A source that cannot be prepared is refused with the stage that failed and that stage's errors.
pub proof fn law_source_failures_name_their_stage(errors: String)
    ensures
        source_failure(SourceFailure::Lex(errors)) == "comparison source did not lex: "@ + errors@,
        source_failure(SourceFailure::Parse(errors)) == "comparison source did not parse: "@ + errors@,
        source_failure(SourceFailure::Typecheck(errors)) == "comparison source did not typecheck: "@ + errors@,
        source_failure(SourceFailure::InputContract(errors))
            == "comparison source did not satisfy the Body IR input contract: "@ + errors@,
{
}

/// Only a verified receipt gives authority. Any other reading is refused with the receipt's path and, at the end, the
/// error that reading gave.
pub proof fn law_only_verified_receipts_give_authority(path: Seq<char>, reading: ReceiptReading)
    ensures
        receipt_refusal(path, reading) is None <==> reading is Verified,
        match reading {
            ReceiptReading::Unreadable(error) => receipt_refusal(path, reading) == Some(
                "the legacy route has no Oven authority: cannot read "@ + path + ": "@ + error@,
            ),
            ReceiptReading::Unparsable(error) => receipt_refusal(path, reading) == Some(
                "the legacy route's Oven receipt "@ + path + " could not be parsed: "@ + error@,
            ),
            ReceiptReading::Unverified(error) => receipt_refusal(path, reading) == Some(
                "the legacy route's Oven receipt "@ + path + " failed identity verification: "@ + error@,
            ),
            ReceiptReading::Verified(_) => true,
        },
{
}

/// Whether a variable names something.
pub open spec fn named(value: Option<String>) -> bool {
    match value {
        Some(text) => text@.len() != 0,
        None => false,
    }
}

/// The environment stages a capability exactly where all three variables name something. Otherwise the refusal names
/// the first that does not, in the order home, receipt, compiler.
pub proof fn law_the_first_unset_variable_is_named(
    home: Option<String>,
    receipt: Option<String>,
    rustc: Option<String>,
)
    ensures
        environment_refusal(home, receipt, rustc) is None <==> named(home) && named(receipt) && named(rustc),
        !named(home) ==> environment_refusal(home, receipt, rustc) == Some(
            "the legacy comparison route is not staged: "@ + INCAN_HOME_ENV@ + " is unset; it must name the "@
                + INCAN_HOME_ROLE@,
        ),
        named(home) && !named(receipt) ==> environment_refusal(home, receipt, rustc) == Some(
            "the legacy comparison route is not staged: "@ + RECEIPT_ENV@ + " is unset; it must name the "@
                + RECEIPT_ROLE@,
        ),
        named(home) && named(receipt) && !named(rustc) ==> environment_refusal(home, receipt, rustc) == Some(
            "the legacy comparison route is not staged: "@ + RUSTC_ENV@ + " is unset; it must name the "@ + RUSTC_ROLE@,
        ),
{
}

} // verus!
