//! What a route observed, and when two observations agree.

use crate::fragments::{lacks, lemma_both_lack};
use crate::selection::{digest_output, fragments_identity, ShadowComparisonState, StateModel};
use crate::shadow::frame::{decode_framed_result, decoded};
use crate::shadow::ShadowUnavailable;
use crate::text::{
    contains, debug_quoted, debug_text, has_text, integer_text, lowercase_text, lowercased, same_text,
    signed_decimal, stands_at,
};
use vstd::prelude::*;

verus! {

broadcast use vstd::string::group_string_axioms;

/// Tag of the identity of a legacy observation.
pub const LEGACY_OUTPUT_IDENTITY_TAG: &'static str = "incan.shadow_comparison.legacy_process_observation.v0";

/// A runtime failure that both routes report unambiguously.
#[derive(Debug, Clone, Copy, PartialEq, Eq, Structural)]
pub enum RuntimeFailureClass {
    /// A source-level `assert` failed.
    Assertion,
    /// An integer was divided by zero.
    DivisionByZero,
    /// An integer operation left its range.
    ArithmeticOverflow,
}

impl RuntimeFailureClass {
    /// The label of the class.
    pub open spec fn spelling(self) -> Seq<char> {
        match self {
            RuntimeFailureClass::Assertion => "assertion-failed"@,
            RuntimeFailureClass::DivisionByZero => "division-by-zero"@,
            RuntimeFailureClass::ArithmeticOverflow => "arithmetic-overflow"@,
        }
    }

    /// The label of the class.
    #[must_use]
    pub fn label(self) -> (text: &'static str)
        ensures
            text@ == self.spelling(),
    {
        match self {
            RuntimeFailureClass::Assertion => "assertion-failed",
            RuntimeFailureClass::DivisionByZero => "division-by-zero",
            RuntimeFailureClass::ArithmeticOverflow => "arithmetic-overflow",
        }
    }
}

/// All that is compared.
#[derive(Debug, Clone, PartialEq, Eq)]
#[allow(inconsistent_fields)]
pub enum SourceObservable {
    /// The function returned normally.
    Completed {
        /// The canonical spelling of its result.
        result: String,
    },
    /// The function stopped on a classified failure.
    Failed {
        /// The class.
        failure: RuntimeFailureClass,
    },
}

/// What is compared.
#[allow(inconsistent_fields)]
pub ghost enum ObservableModel {
    /// The function returned a result.
    Completed(Seq<char>),
    /// The function stopped on a failure.
    Failed(RuntimeFailureClass),
}

/// How an observable is rendered. A result is quoted, so differences in white space stay visible.
pub open spec fn rendered(observable: ObservableModel) -> Seq<char> {
    match observable {
        ObservableModel::Completed(result) => "completed("@ + debug_quoted(result) + ")"@,
        ObservableModel::Failed(failure) => "failed("@ + failure.spelling() + ")"@,
    }
}

impl SourceObservable {
    /// What is compared.
    pub open spec fn model(self) -> ObservableModel {
        match self {
            SourceObservable::Completed { result } => ObservableModel::Completed(result@),
            SourceObservable::Failed { failure } => ObservableModel::Failed(failure),
        }
    }

    /// Renders the observable as one line.
    #[must_use]
    pub fn describe(&self) -> (text: String)
        ensures
            text@ == rendered(self.model()),
    {
        match self {
            SourceObservable::Completed { result } => "completed(".to_owned().concat(
                debug_text(result.as_str()).as_str(),
            ).concat(")"),
            SourceObservable::Failed { failure } => "failed(".to_owned().concat(failure.label()).concat(")"),
        }
    }

    /// Decides whether two observables are the same.
    pub fn agrees_with(&self, other: &SourceObservable) -> (same: bool)
        ensures
            same == (self.model() == other.model()),
    {
        match (self, other) {
            (SourceObservable::Completed { result }, SourceObservable::Completed { result: seen }) => same_text(
                result.as_str(),
                seen.as_str(),
            ),
            (SourceObservable::Failed { failure }, SourceObservable::Failed { failure: seen }) => *failure == *seen,
            _ => false,
        }
    }
}

/// One route's observation with the evidence behind it.
#[derive(Debug, Clone)]
pub struct RouteObservation {
    /// Stable kind of the comparison profile.
    pub profile_kind: String,
    /// Identity of the exact profile instance.
    pub profile_identity: String,
    /// What is compared.
    pub observable: SourceObservable,
    /// Evidence for reports, which is never compared.
    pub detail: String,
    /// Identity of what the route produced.
    pub output_identity: String,
}

/// Whether two observations are of the same profile instance.
pub open spec fn same_profile(legacy: RouteObservation, replacement: RouteObservation) -> bool {
    legacy.profile_kind@ == replacement.profile_kind@ && legacy.profile_identity@ == replacement.profile_identity@
}

/// What two observations amount to.
pub open spec fn classified(legacy: RouteObservation, replacement: RouteObservation) -> StateModel {
    if !same_profile(legacy, replacement) {
        StateModel::Unavailable(
            "the two observations describe different comparison profiles ("@ + legacy.profile_kind@ + "/"@
                + legacy.profile_identity@ + " and "@ + replacement.profile_kind@ + "/"@
                + replacement.profile_identity@ + "), so no comparison over one source was made"@,
        )
    } else if legacy.observable.model() == replacement.observable.model() {
        StateModel::Matched {
            profile_kind: legacy.profile_kind@,
            profile_identity: legacy.profile_identity@,
            observable: rendered(legacy.observable.model()),
        }
    } else {
        StateModel::Diverged {
            profile_kind: legacy.profile_kind@,
            profile_identity: legacy.profile_identity@,
            detail: "legacy route observed "@ + rendered(legacy.observable.model())
                + " and replacement route observed "@ + rendered(replacement.observable.model())
                + "; legacy detail: "@ + legacy.detail@ + "; replacement detail: "@ + replacement.detail@,
        }
    }
}

/// Decides whether two independent observations of the same profile agree.
#[must_use]
pub fn classify_observations(legacy: &RouteObservation, replacement: &RouteObservation) -> (state: ShadowComparisonState)
    ensures
        state.model() == classified(*legacy, *replacement),
{
    if !same_text(legacy.profile_kind.as_str(), replacement.profile_kind.as_str()) || !same_text(
        legacy.profile_identity.as_str(),
        replacement.profile_identity.as_str(),
    ) {
        return ShadowComparisonState::Unavailable {
            reason: "the two observations describe different comparison profiles (".to_owned().concat(
                legacy.profile_kind.as_str(),
            ).concat("/").concat(legacy.profile_identity.as_str()).concat(" and ").concat(
                replacement.profile_kind.as_str(),
            ).concat("/").concat(replacement.profile_identity.as_str()).concat(
                "), so no comparison over one source was made",
            ),
        };
    }
    if legacy.observable.agrees_with(&replacement.observable) {
        return ShadowComparisonState::Matched {
            profile_kind: legacy.profile_kind.clone(),
            profile_identity: legacy.profile_identity.clone(),
            observable: legacy.observable.describe(),
        };
    }
    ShadowComparisonState::Diverged {
        profile_kind: legacy.profile_kind.clone(),
        profile_identity: legacy.profile_identity.clone(),
        detail: "legacy route observed ".to_owned().concat(legacy.observable.describe().as_str()).concat(
            " and replacement route observed ",
        ).concat(replacement.observable.describe().as_str()).concat("; legacy detail: ").concat(
            legacy.detail.as_str(),
        ).concat("; replacement detail: ").concat(replacement.detail.as_str()),
    }
}

/// A verdict of agreement is given exactly where both routes observed the same of the same profile instance, and one
/// of disagreement exactly where they observed something different of it.
pub proof fn law_agreement_is_equality(legacy: RouteObservation, replacement: RouteObservation)
    ensures
        classified(legacy, replacement) is Matched <==> same_profile(legacy, replacement)
            && legacy.observable.model() == replacement.observable.model(),
        classified(legacy, replacement) is Diverged <==> same_profile(legacy, replacement)
            && legacy.observable.model() != replacement.observable.model(),
        classified(legacy, replacement) is Unavailable <==> !same_profile(legacy, replacement),
{
}

/// Equal descriptions are those of equal failures, or of results that are quoted alike, and a failure is never
/// described as a result. So where quoting tells texts apart, descriptions tell observables apart. A description is
/// one line where the quoted result is.
pub proof fn law_descriptions_tell_observables_apart(a: SourceObservable, b: SourceObservable)
    ensures
        rendered(a.model()) == rendered(b.model()) <==> match (a.model(), b.model()) {
            (ObservableModel::Completed(x), ObservableModel::Completed(y)) => debug_quoted(x) == debug_quoted(y),
            (ObservableModel::Failed(x), ObservableModel::Failed(y)) => x == y,
            _ => false,
        },
        (forall|x: Seq<char>, y: Seq<char>| debug_quoted(x) == debug_quoted(y) ==> x == y) ==> (rendered(a.model())
            == rendered(b.model()) <==> a.model() == b.model()),
        match a.model() {
            ObservableModel::Completed(x) => lacks(debug_quoted(x), '\n') ==> lacks(rendered(a.model()), '\n'),
            ObservableModel::Failed(_) => lacks(rendered(a.model()), '\n'),
        },
{
    reveal_strlit("completed(");
    reveal_strlit("failed(");
    reveal_strlit(")");
    reveal_strlit("assertion-failed");
    reveal_strlit("division-by-zero");
    reveal_strlit("arithmetic-overflow");
    let (left, right) = (rendered(a.model()), rendered(b.model()));
    match (a.model(), b.model()) {
        (ObservableModel::Completed(x), ObservableModel::Completed(y)) => {
            assert(debug_quoted(x) =~= left.subrange(10, left.len() - 1));
            assert(debug_quoted(y) =~= right.subrange(10, right.len() - 1));
        },
        (ObservableModel::Failed(x), ObservableModel::Failed(y)) => {
            assert(x.spelling() =~= left.subrange(7, left.len() - 1));
            assert(y.spelling() =~= right.subrange(7, right.len() - 1));
            assert("assertion-failed"@[1] == 's' && "division-by-zero"@[1] == 'i' && "arithmetic-overflow"@[1] == 'r');
        },
        (ObservableModel::Completed(_), ObservableModel::Failed(_)) => {
            assert(left[0] == 'c' && right[0] == 'f');
        },
        (ObservableModel::Failed(_), ObservableModel::Completed(_)) => {
            assert(left[0] == 'f' && right[0] == 'c');
        },
    }
    match a.model() {
        ObservableModel::Completed(x) => {
            if lacks(debug_quoted(x), '\n') {
                lemma_both_lack("completed("@, debug_quoted(x), '\n');
                lemma_both_lack("completed("@ + debug_quoted(x), ")"@, '\n');
            }
        },
        ObservableModel::Failed(x) => {
            lemma_both_lack("failed("@, x.spelling(), '\n');
            lemma_both_lack("failed("@ + x.spelling(), ")"@, '\n');
        },
    }
}

// ---------------------------------------------------------------------------
// Failures
// ---------------------------------------------------------------------------

/// The class of a legacy program's failure. Overflow comes before division, because an overflowing division names
/// both.
pub open spec fn legacy_class(stderr: Seq<char>) -> Option<RuntimeFailureClass> {
    let text = lowercased(stderr);
    if has_text(text, "assertionerror"@) || has_text(text, "assertion failed"@) {
        Some(RuntimeFailureClass::Assertion)
    } else if has_text(text, "overflow"@) {
        Some(RuntimeFailureClass::ArithmeticOverflow)
    } else if has_text(text, "zerodivisionerror"@) || has_text(text, "divide by zero"@) || has_text(
        text,
        "division by zero"@,
    ) || has_text(text, "remainder with a divisor of zero"@) {
        Some(RuntimeFailureClass::DivisionByZero)
    } else {
        None
    }
}

/// The class of a direct execution's failure.
pub open spec fn replacement_class(detail: Seq<char>) -> Option<RuntimeFailureClass> {
    let text = lowercased(detail);
    if has_text(text, "assertion"@) {
        Some(RuntimeFailureClass::Assertion)
    } else if has_text(text, "overflow"@) {
        Some(RuntimeFailureClass::ArithmeticOverflow)
    } else if has_text(text, "division or modulo by zero"@) {
        Some(RuntimeFailureClass::DivisionByZero)
    } else {
        None
    }
}

/// The class or the reason that classifying gave.
pub open spec fn class_outcome(outcome: Result<RuntimeFailureClass, ShadowUnavailable>) -> Result<
    RuntimeFailureClass,
    Seq<char>,
> {
    match outcome {
        Ok(class) => Ok(class),
        Err(unavailable) => Err(unavailable.reason@),
    }
}

/// The class of a legacy program's failure, or why it has none.
pub open spec fn legacy_failure(stderr: Seq<char>) -> Result<RuntimeFailureClass, Seq<char>> {
    match legacy_class(stderr) {
        Some(class) => Ok(class),
        None => Err(
            "the legacy program failed in a way this profile cannot classify, so agreement cannot be claimed: "@
                + stderr,
        ),
    }
}

/// The class of a direct execution's failure, or why it has none.
pub open spec fn replacement_failure(detail: Seq<char>) -> Result<RuntimeFailureClass, Seq<char>> {
    match replacement_class(detail) {
        Some(class) => Ok(class),
        None => Err(
            "the replacement route failed in a way this profile cannot classify, so agreement cannot be claimed: "@
                + detail,
        ),
    }
}

/// The class that a lowercased complaint of a legacy program names.
///
/// Overflow is tested before division, because an overflowing division names both.
pub fn class_of_legacy_complaint(lowered: &str) -> (class: Option<RuntimeFailureClass>)
    ensures
        class == (if has_text(lowered@, "assertionerror"@) || has_text(lowered@, "assertion failed"@) {
            Some(RuntimeFailureClass::Assertion)
        } else if has_text(lowered@, "overflow"@) {
            Some(RuntimeFailureClass::ArithmeticOverflow)
        } else if has_text(lowered@, "zerodivisionerror"@) || has_text(lowered@, "divide by zero"@) || has_text(
            lowered@,
            "division by zero"@,
        ) || has_text(lowered@, "remainder with a divisor of zero"@) {
            Some(RuntimeFailureClass::DivisionByZero)
        } else {
            None
        }),
{
    if contains(lowered, "assertionerror") || contains(lowered, "assertion failed") {
        Some(RuntimeFailureClass::Assertion)
    } else if contains(lowered, "overflow") {
        Some(RuntimeFailureClass::ArithmeticOverflow)
    } else if contains(lowered, "zerodivisionerror") || contains(lowered, "divide by zero") || contains(
        lowered,
        "division by zero",
    ) || contains(lowered, "remainder with a divisor of zero") {
        Some(RuntimeFailureClass::DivisionByZero)
    } else {
        None
    }
}

/// The class that a lowercased detail of a direct execution names.
pub fn class_of_replacement_detail(lowered: &str) -> (class: Option<RuntimeFailureClass>)
    ensures
        class == (if has_text(lowered@, "assertion"@) {
            Some(RuntimeFailureClass::Assertion)
        } else if has_text(lowered@, "overflow"@) {
            Some(RuntimeFailureClass::ArithmeticOverflow)
        } else if has_text(lowered@, "division or modulo by zero"@) {
            Some(RuntimeFailureClass::DivisionByZero)
        } else {
            None
        }),
{
    if contains(lowered, "assertion") {
        Some(RuntimeFailureClass::Assertion)
    } else if contains(lowered, "overflow") {
        Some(RuntimeFailureClass::ArithmeticOverflow)
    } else if contains(lowered, "division or modulo by zero") {
        Some(RuntimeFailureClass::DivisionByZero)
    } else {
        None
    }
}

/// Classifies a legacy process failure.
pub fn classify_legacy_failure(stderr: &str) -> (outcome: Result<RuntimeFailureClass, ShadowUnavailable>)
    ensures
        class_outcome(outcome) == legacy_failure(stderr@),
        outcome == Ok::<RuntimeFailureClass, ShadowUnavailable>(RuntimeFailureClass::Assertion) <==> has_text(
            lowercased(stderr@),
            "assertionerror"@,
        ) || has_text(lowercased(stderr@), "assertion failed"@),
        outcome == Ok::<RuntimeFailureClass, ShadowUnavailable>(RuntimeFailureClass::ArithmeticOverflow) <==> has_text(
            lowercased(stderr@),
            "overflow"@,
        ) && !has_text(lowercased(stderr@), "assertionerror"@) && !has_text(
            lowercased(stderr@),
            "assertion failed"@,
        ),
        outcome == Ok::<RuntimeFailureClass, ShadowUnavailable>(RuntimeFailureClass::DivisionByZero) <==> (has_text(
            lowercased(stderr@),
            "zerodivisionerror"@,
        ) || has_text(lowercased(stderr@), "divide by zero"@) || has_text(lowercased(stderr@), "division by zero"@)
            || has_text(lowercased(stderr@), "remainder with a divisor of zero"@)) && !has_text(
            lowercased(stderr@),
            "overflow"@,
        ) && !has_text(lowercased(stderr@), "assertionerror"@) && !has_text(
            lowercased(stderr@),
            "assertion failed"@,
        ),
{
    match class_of_legacy_complaint(lowercase_text(stderr).as_str()) {
        Some(class) => Ok(class),
        None => Err(
            ShadowUnavailable::new(
                "the legacy program failed in a way this profile cannot classify, so agreement cannot be claimed: ".to_owned().concat(
                    stderr,
                ),
            ),
        ),
    }
}

/// Classifies a direct execution's runtime failure.
pub fn classify_replacement_failure(detail: &str) -> (outcome: Result<RuntimeFailureClass, ShadowUnavailable>)
    ensures
        class_outcome(outcome) == replacement_failure(detail@),
        outcome == Ok::<RuntimeFailureClass, ShadowUnavailable>(RuntimeFailureClass::Assertion) <==> has_text(
            lowercased(detail@),
            "assertion"@,
        ),
        outcome == Ok::<RuntimeFailureClass, ShadowUnavailable>(RuntimeFailureClass::ArithmeticOverflow) <==> has_text(
            lowercased(detail@),
            "overflow"@,
        ) && !has_text(lowercased(detail@), "assertion"@),
        outcome == Ok::<RuntimeFailureClass, ShadowUnavailable>(RuntimeFailureClass::DivisionByZero) <==> has_text(
            lowercased(detail@),
            "division or modulo by zero"@,
        ) && !has_text(lowercased(detail@), "overflow"@) && !has_text(lowercased(detail@), "assertion"@),
{
    match class_of_replacement_detail(lowercase_text(detail).as_str()) {
        Some(class) => Ok(class),
        None => Err(
            ShadowUnavailable::new(
                "the replacement route failed in a way this profile cannot classify, so agreement cannot be claimed: ".to_owned().concat(
                    detail,
                ),
            ),
        ),
    }
}

// ---------------------------------------------------------------------------
// The legacy process
// ---------------------------------------------------------------------------

/// The authority that permitted one legacy execution.
#[derive(Debug, Clone, PartialEq, Eq)]
pub struct LegacyExecutionAuthority {
    /// Identity of the receipt that authorized the emitted source.
    pub oven_receipt_identity: String,
    /// Identity of the build unit that the plan was selected against.
    pub oven_build_unit_identity: String,
    /// Identity of the plan that compiled the program.
    pub direct_rustc_plan_identity: String,
    /// Digest of the produced program.
    pub output_digest: String,
    /// Whether a Cargo process took part.
    pub cargo_process_started: bool,
}

/// How an exit code is rendered.
pub open spec fn exit_code_text(code: Option<i32>) -> Seq<char> {
    match code {
        Some(code) => "Some("@ + signed_decimal(code as int) + ")"@,
        None => "None"@,
    }
}

/// What a finished legacy process shows, or why it shows nothing. Only a successful exit is read for a result.
pub open spec fn process_observable(exit_code: Option<i32>, stdout: Seq<u8>, stderr: Seq<char>) -> Result<
    ObservableModel,
    Seq<char>,
> {
    if exit_code == Some(0i32) {
        match decoded(stdout) {
            Ok(result) => Ok(ObservableModel::Completed(result)),
            Err(reason) => Err(reason),
        }
    } else {
        match legacy_failure(stderr) {
            Ok(class) => Ok(ObservableModel::Failed(class)),
            Err(reason) => Err(reason),
        }
    }
}

/// The identity of a legacy observation, which covers the authority it was made under.
pub open spec fn legacy_identity(authority: LegacyExecutionAuthority, observable: ObservableModel) -> Seq<char> {
    fragments_identity(
        seq![
            LEGACY_OUTPUT_IDENTITY_TAG@,
            authority.oven_receipt_identity@,
            authority.oven_build_unit_identity@,
            authority.direct_rustc_plan_identity@,
            authority.output_digest@,
            rendered(observable),
        ],
    )
}

/// Whether an observation is that of a finished legacy process.
pub open spec fn observes_process(
    observation: RouteObservation,
    profile_kind: Seq<char>,
    profile_identity: Seq<char>,
    authority: LegacyExecutionAuthority,
    exit_code: Option<i32>,
    stdout: Seq<u8>,
    stderr: Seq<char>,
) -> bool {
    &&& observation.profile_kind@ == profile_kind
    &&& observation.profile_identity@ == profile_identity
    &&& process_observable(exit_code, stdout, stderr) == Ok::<ObservableModel, Seq<char>>(
        observation.observable.model(),
    )
    &&& observation.detail@ == "Oven-owned legacy process exited with "@ + exit_code_text(exit_code)
        + " under direct-rustc plan "@ + authority.direct_rustc_plan_identity@ + "; stderr: "@ + debug_quoted(stderr)
    &&& observation.output_identity@ == legacy_identity(authority, observation.observable.model())
}

/// Turns a finished legacy process into an observation.
pub fn observe_legacy_process(
    profile_kind: &str,
    profile_identity: &str,
    authority: &LegacyExecutionAuthority,
    exit_code: Option<i32>,
    stdout: &[u8],
    stderr: &str,
) -> (outcome: Result<RouteObservation, ShadowUnavailable>)
    ensures
        match outcome {
            Ok(observation) => observes_process(
                observation,
                profile_kind@,
                profile_identity@,
                *authority,
                exit_code,
                stdout@,
                stderr@,
            ),
            Err(unavailable) => process_observable(exit_code, stdout@, stderr@) == Err::<ObservableModel, Seq<char>>(
                unavailable.reason@,
            ),
        },
{
    let succeeded: bool = match exit_code {
        Some(code) => code == 0,
        None => false,
    };
    let observable: SourceObservable = if succeeded {
        SourceObservable::Completed { result: decode_framed_result(stdout)? }
    } else {
        SourceObservable::Failed { failure: classify_legacy_failure(stderr)? }
    };
    let code_text: String = match exit_code {
        Some(code) => "Some(".to_owned().concat(integer_text(code as i64).as_str()).concat(")"),
        None => "None".to_owned(),
    };
    let detail: String = "Oven-owned legacy process exited with ".to_owned().concat(code_text.as_str()).concat(
        " under direct-rustc plan ",
    ).concat(authority.direct_rustc_plan_identity.as_str()).concat("; stderr: ").concat(debug_text(stderr).as_str());
    let described: String = observable.describe();
    let parts: [&str; 6] = [
        LEGACY_OUTPUT_IDENTITY_TAG,
        authority.oven_receipt_identity.as_str(),
        authority.oven_build_unit_identity.as_str(),
        authority.direct_rustc_plan_identity.as_str(),
        authority.output_digest.as_str(),
        described.as_str(),
    ];
    proof {
        assert(crate::text::slice_texts(parts@) =~= seq![
            LEGACY_OUTPUT_IDENTITY_TAG@,
            authority.oven_receipt_identity@,
            authority.oven_build_unit_identity@,
            authority.direct_rustc_plan_identity@,
            authority.output_digest@,
            rendered(observable.model()),
        ]);
    }
    let output_identity: String = digest_output(&parts);
    Ok(
        RouteObservation {
            profile_kind: profile_kind.to_owned(),
            profile_identity: profile_identity.to_owned(),
            observable,
            detail,
            output_identity,
        },
    )
}

/// A failing exit is never read as a result.
pub proof fn law_failing_exit_is_no_result(exit_code: Option<i32>, stdout: Seq<u8>, stderr: Seq<char>)
    requires
        exit_code != Some(0i32),
    ensures
        !(process_observable(exit_code, stdout, stderr) matches Ok(observable) && observable is Completed),
{
}

/// What a text has, every text that holds it has too.
proof fn lemma_has_more(text: Seq<char>, whole: Seq<char>, part: Seq<char>)
    requires
        has_text(text, whole),
        has_text(whole, part),
    ensures
        has_text(text, part),
{
    let at = choose|at: int| stands_at(text, at, whole);
    let into = choose|into: int| stands_at(whole, into, part);
    assert(text.subrange(at + into, at + into + part.len()) =~= text.subrange(
        at,
        at + whole.len(),
    ).subrange(into, into + part.len()));
    assert(stands_at(text, at + into, part));
}

/// Both routes know a failure by its words, whatever else a complaint says. An assertion that failed is one on either
/// route, an overflow that no assertion names is one on either route, and so is a division by zero that names neither.
/// Complaints of the two routes about the same failure are therefore of one class, and those about different failures
/// are of different classes.
pub proof fn law_routes_name_failures_alike(stderr: Seq<char>, detail: Seq<char>)
    ensures
        ({
            let (built, direct) = (lowercased(stderr), lowercased(detail));
            let asserted = |text: Seq<char>| has_text(text, "assertionerror"@) || has_text(text, "assertion failed"@);
            let divided = |text: Seq<char>|
                has_text(text, "zerodivisionerror"@) || has_text(text, "divide by zero"@) || has_text(
                    text,
                    "division by zero"@,
                ) || has_text(text, "remainder with a divisor of zero"@);
            &&& asserted(built) && asserted(direct) ==> legacy_failure(stderr) == Ok::<RuntimeFailureClass, Seq<char>>(
                RuntimeFailureClass::Assertion,
            ) && replacement_failure(detail) == legacy_failure(stderr)
            &&& has_text(built, "overflow"@) && has_text(direct, "overflow"@) && !asserted(built) && !has_text(
                direct,
                "assertion"@,
            ) ==> legacy_failure(stderr) == Ok::<RuntimeFailureClass, Seq<char>>(
                RuntimeFailureClass::ArithmeticOverflow,
            ) && replacement_failure(detail) == legacy_failure(stderr)
            &&& divided(built) && has_text(direct, "division or modulo by zero"@) && !asserted(built) && !has_text(
                built,
                "overflow"@,
            ) && !has_text(direct, "assertion"@) && !has_text(direct, "overflow"@) ==> legacy_failure(stderr) == Ok::<
                RuntimeFailureClass,
                Seq<char>,
            >(RuntimeFailureClass::DivisionByZero) && replacement_failure(detail) == legacy_failure(stderr)
            &&& asserted(built) && !has_text(direct, "assertion"@) ==> replacement_failure(detail) != legacy_failure(
                stderr,
            )
            &&& has_text(direct, "assertion"@) && !asserted(built) ==> replacement_failure(detail) != legacy_failure(
                stderr,
            )
            &&& legacy_failure(stderr) is Ok <==> asserted(built) || has_text(built, "overflow"@) || divided(built)
            &&& replacement_failure(detail) is Ok <==> has_text(direct, "assertion"@) || has_text(
                direct,
                "overflow"@,
            ) || has_text(direct, "division or modulo by zero"@)
        }),
{
    let direct = lowercased(detail);
    reveal_strlit("assertion");
    reveal_strlit("assertionerror");
    reveal_strlit("assertion failed");
    assert("assertionerror"@.subrange(0, 9) =~= "assertion"@);
    assert(stands_at("assertionerror"@, 0, "assertion"@));
    assert("assertion failed"@.subrange(0, 9) =~= "assertion"@);
    assert(stands_at("assertion failed"@, 0, "assertion"@));
    if has_text(direct, "assertionerror"@) {
        lemma_has_more(direct, "assertionerror"@, "assertion"@);
    }
    if has_text(direct, "assertion failed"@) {
        lemma_has_more(direct, "assertion failed"@, "assertion"@);
    }
}

} // verus!
