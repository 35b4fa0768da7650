//! Backend-selection identity and execution receipt.
//!
//! A build declares which backend it intends to use before anything runs ([`BackendSelection`]) and records
//! which backend actually ran afterwards ([`BackendExecutionReceipt`]). Both records carry an identity over
//! their content, so a stage that only holds a copy can check it before trusting it.

use crate::digest::{digest_content, text_identity};
use crate::text::{
    bool_spelling, bool_text, debug_quoted, debug_text, decimal, join_slices, joined, natural_text, same_text,
    slice_texts,
};
use crate::INCAN_VERSION;
use vstd::prelude::*;

verus! {

broadcast use vstd::string::group_string_axioms;

/// Current wire format for [`BackendSelection`] and [`BackendExecutionReceipt`].
pub const BACKEND_SELECTION_SCHEMA_VERSION: u32 = 1;

/// Implementation revision of the Rust-emission ("legacy") backend.
pub const LEGACY_BACKEND_REVISION: u32 = 1;

/// Implementation revision of the replacement backend.
pub const REPLACEMENT_BACKEND_REVISION: u32 = 0;

/// Compiler backend that can produce or execute a build unit.
#[derive(Debug, Clone, Copy, PartialEq, Eq, Hash, Structural)]
pub enum BackendKind {
    /// The Rust-source-emission pipeline.
    Legacy,
    /// The Body IR replacement backend. Selecting it produces an explicit outcome, never a silent legacy run.
    Replacement,
}

impl BackendKind {
    /// The name of the backend as records spell it.
    pub open spec fn spelling(self) -> Seq<char> {
        match self {
            BackendKind::Legacy => "Legacy"@,
            BackendKind::Replacement => "Replacement"@,
        }
    }

    /// Whether this backend can execute a compilation.
    pub open spec fn runs(self) -> bool {
        self is Legacy
    }

    /// Whether this backend can actually execute a compilation.
    #[must_use]
    pub fn is_implemented(self) -> (implemented: bool)
        ensures
            implemented == self.runs(),
    {
        matches!(self, BackendKind::Legacy)
    }

    /// Spells the backend's name.
    fn name(self) -> (text: &'static str)
        ensures
            text@ == self.spelling(),
    {
        match self {
            BackendKind::Legacy => "Legacy",
            BackendKind::Replacement => "Replacement",
        }
    }
}

/// Coverage a backend declares for the compilation it was selected for.
#[derive(Debug, Clone, Copy, PartialEq, Eq, Structural)]
pub enum CompatibilityProfile {
    /// Complete coverage of the active release's language and runtime contract.
    Full,
    /// Partial coverage only.
    Partial,
}

impl CompatibilityProfile {
    /// The name of the profile as records spell it.
    pub open spec fn spelling(self) -> Seq<char> {
        match self {
            CompatibilityProfile::Full => "Full"@,
            CompatibilityProfile::Partial => "Partial"@,
        }
    }

    /// Spells the profile's name.
    fn name(self) -> (text: &'static str)
        ensures
            text@ == self.spelling(),
    {
        match self {
            CompatibilityProfile::Full => "Full",
            CompatibilityProfile::Partial => "Partial",
        }
    }
}

/// Why a particular backend was selected.
#[derive(Debug, Clone, Copy, PartialEq, Eq, Structural)]
pub enum SelectionReason {
    /// No explicit backend was requested; the compiler-owned default was declared.
    Default,
    /// The caller explicitly requested this backend.
    ExplicitRequest,
}

impl SelectionReason {
    /// The name of the reason as records spell it.
    pub open spec fn spelling(self) -> Seq<char> {
        match self {
            SelectionReason::Default => "Default"@,
            SelectionReason::ExplicitRequest => "ExplicitRequest"@,
        }
    }

    /// Spells the reason's name.
    fn name(self) -> (text: &'static str)
        ensures
            text@ == self.spelling(),
    {
        match self {
            SelectionReason::Default => "Default",
            SelectionReason::ExplicitRequest => "ExplicitRequest",
        }
    }
}

/// Declared policy for what happens if the selected backend cannot execute.
#[derive(Debug, Clone, Copy, PartialEq, Eq, Structural)]
pub enum FallbackPolicy {
    /// Never substitute another backend; an unavailable selection fails visibly.
    Refuse,
    /// Fall back to the named backend and record the substitution in the execution receipt.
    AllowTo(BackendKind),
}

impl FallbackPolicy {
    /// The policy as records spell it.
    pub open spec fn spelling(self) -> Seq<char> {
        match self {
            FallbackPolicy::Refuse => "Refuse"@,
            FallbackPolicy::AllowTo(target) => "AllowTo("@ + target.spelling() + ")"@,
        }
    }

    /// Spells the policy.
    fn name(self) -> (text: String)
        ensures
            text@ == self.spelling(),
    {
        match self {
            FallbackPolicy::Refuse => "Refuse".to_owned(),
            FallbackPolicy::AllowTo(target) => "AllowTo(".to_owned().concat(target.name()).concat(")"),
        }
    }
}

/// Optional shadow-comparison outcome between the legacy backend and the replacement backend.
///
/// Recorded whenever a comparison was requested, even when it could not run, so an unavailable comparison is a
/// visible non-green state rather than a skipped one.
#[derive(Debug, PartialEq, Eq)]
pub enum ShadowComparisonState {
    /// No shadow comparison was requested for this compilation.
    NotRequested,
    /// A shadow comparison was requested but could not run, with the concrete reason.
    Unavailable {
        /// Why no comparison ran.
        reason: String,
    },
    /// A shadow comparison ran and both routes agreed on the compared observable.
    Matched {
        /// Stable kind of the comparison profile.
        profile_kind: String,
        /// Identity of the exact profile instance.
        profile_identity: String,
        /// The value that both routes observed.
        observable: String,
    },
    /// A shadow comparison ran and the routes disagreed.
    Diverged {
        /// Stable kind of the comparison profile.
        profile_kind: String,
        /// Identity of the exact profile instance.
        profile_identity: String,
        /// Human-readable summary of the difference.
        detail: String,
    },
}

impl ShadowComparisonState {
    /// The state as records spell it.
    pub open spec fn spelling(self) -> Seq<char> {
        match self {
            ShadowComparisonState::NotRequested => "NotRequested"@,
            ShadowComparisonState::Unavailable { reason } => "Unavailable { reason: "@ + debug_quoted(reason@) + " }"@,
            ShadowComparisonState::Matched { profile_kind, profile_identity, observable } => "Matched { profile_kind: "@
                + debug_quoted(profile_kind@) + ", profile_identity: "@ + debug_quoted(profile_identity@)
                + ", observable: "@ + debug_quoted(observable@) + " }"@,
            ShadowComparisonState::Diverged { profile_kind, profile_identity, detail } => "Diverged { profile_kind: "@
                + debug_quoted(profile_kind@) + ", profile_identity: "@ + debug_quoted(profile_identity@)
                + ", detail: "@ + debug_quoted(detail@) + " }"@,
        }
    }

    /// Spells the state.
    fn name(&self) -> (text: String)
        ensures
            text@ == self.spelling(),
    {
        match self {
            ShadowComparisonState::NotRequested => "NotRequested".to_owned(),
            ShadowComparisonState::Unavailable { reason } => "Unavailable { reason: ".to_owned().concat(
                debug_text(reason.as_str()).as_str(),
            ).concat(" }"),
            ShadowComparisonState::Matched { profile_kind, profile_identity, observable } =>
                "Matched { profile_kind: ".to_owned().concat(debug_text(profile_kind.as_str()).as_str()).concat(
                ", profile_identity: ",
            ).concat(debug_text(profile_identity.as_str()).as_str()).concat(", observable: ").concat(
                debug_text(observable.as_str()).as_str(),
            ).concat(" }"),
            ShadowComparisonState::Diverged { profile_kind, profile_identity, detail } =>
                "Diverged { profile_kind: ".to_owned().concat(debug_text(profile_kind.as_str()).as_str()).concat(
                ", profile_identity: ",
            ).concat(debug_text(profile_identity.as_str()).as_str()).concat(", detail: ").concat(
                debug_text(detail.as_str()).as_str(),
            ).concat(" }"),
        }
    }
}

/// What a shadow-comparison outcome says.
#[allow(inconsistent_fields)]
pub ghost enum StateModel {
    /// None was requested.
    NotRequested,
    /// None could run, for a reason.
    Unavailable(Seq<char>),
    /// Both routes agreed.
    Matched {
        /// Stable kind of the comparison profile.
        profile_kind: Seq<char>,
        /// Identity of the exact profile instance.
        profile_identity: Seq<char>,
        /// The value that both routes observed.
        observable: Seq<char>,
    },
    /// The routes disagreed.
    Diverged {
        /// Stable kind of the comparison profile.
        profile_kind: Seq<char>,
        /// Identity of the exact profile instance.
        profile_identity: Seq<char>,
        /// Summary of the difference.
        detail: Seq<char>,
    },
}

impl ShadowComparisonState {
    /// What the outcome says.
    pub open spec fn model(self) -> StateModel {
        match self {
            ShadowComparisonState::NotRequested => StateModel::NotRequested,
            ShadowComparisonState::Unavailable { reason } => StateModel::Unavailable(reason@),
            ShadowComparisonState::Matched { profile_kind, profile_identity, observable } => StateModel::Matched {
                profile_kind: profile_kind@,
                profile_identity: profile_identity@,
                observable: observable@,
            },
            ShadowComparisonState::Diverged { profile_kind, profile_identity, detail } => StateModel::Diverged {
                profile_kind: profile_kind@,
                profile_identity: profile_identity@,
                detail: detail@,
            },
        }
    }
}

impl Clone for ShadowComparisonState {
    fn clone(&self) -> (copy: Self)
        ensures
            copy == *self,
    {
        match self {
            ShadowComparisonState::NotRequested => ShadowComparisonState::NotRequested,
            ShadowComparisonState::Unavailable { reason } => ShadowComparisonState::Unavailable {
                reason: reason.clone(),
            },
            ShadowComparisonState::Matched { profile_kind, profile_identity, observable } =>
                ShadowComparisonState::Matched {
                profile_kind: profile_kind.clone(),
                profile_identity: profile_identity.clone(),
                observable: observable.clone(),
            },
            ShadowComparisonState::Diverged { profile_kind, profile_identity, detail } =>
                ShadowComparisonState::Diverged {
                profile_kind: profile_kind.clone(),
                profile_identity: profile_identity.clone(),
                detail: detail.clone(),
            },
        }
    }
}

/// Whether the backend that actually executed differed from the one declared in the selection.
#[derive(Debug, Clone, Copy, PartialEq, Eq, Structural)]
pub enum FallbackOutcome {
    /// The executed backend matches the selected backend.
    NotNeeded,
    /// The selected backend could not execute and the declared policy authorized this substitution.
    Declared {
        /// The backend that was selected.
        from: BackendKind,
        /// The backend that ran instead.
        to: BackendKind,
    },
}

impl FallbackOutcome {
    /// The outcome as records spell it.
    pub open spec fn spelling(self) -> Seq<char> {
        match self {
            FallbackOutcome::NotNeeded => "NotNeeded"@,
            FallbackOutcome::Declared { from, to } => "Declared { from: "@ + from.spelling() + ", to: "@
                + to.spelling() + " }"@,
        }
    }

    /// Spells the outcome.
    fn name(self) -> (text: String)
        ensures
            text@ == self.spelling(),
    {
        match self {
            FallbackOutcome::NotNeeded => "NotNeeded".to_owned(),
            FallbackOutcome::Declared { from, to } => "Declared { from: ".to_owned().concat(from.name()).concat(
                ", to: ",
            ).concat(to.name()).concat(" }"),
        }
    }
}

/// Pre-execution declaration of which backend a compilation will use.
///
/// `identity` covers every other field but the schema version, so a stage that only holds a stored copy can call
/// [`BackendSelection::verify_identity`] instead of trusting it.
#[derive(Debug, PartialEq, Eq)]
pub struct BackendSelection {
    /// Selection wire-schema version.
    pub schema_version: u32,
    /// Content-derived `sha256:` identity.
    pub identity: String,
    /// The backend declared for this compilation.
    pub selected_backend: BackendKind,
    /// Implementation revision of `selected_backend` at selection time.
    pub implementation_revision: u32,
    /// Compatibility coverage `selected_backend` declares for this compilation.
    pub compatibility_profile: CompatibilityProfile,
    /// Content-derived identity of the source input being compiled.
    pub source_identity: String,
    /// Why `selected_backend` was chosen.
    pub selection_reason: SelectionReason,
    /// What happens if `selected_backend` cannot execute.
    pub fallback_policy: FallbackPolicy,
    /// Whether a shadow comparison was requested alongside the normal execution.
    pub shadow_requested: bool,
}

impl Clone for BackendSelection {
    fn clone(&self) -> (copy: Self)
        ensures
            copy == *self,
    {
        BackendSelection {
            schema_version: self.schema_version,
            identity: self.identity.clone(),
            selected_backend: self.selected_backend,
            implementation_revision: self.implementation_revision,
            compatibility_profile: self.compatibility_profile,
            source_identity: self.source_identity.clone(),
            selection_reason: self.selection_reason,
            fallback_policy: self.fallback_policy,
            shadow_requested: self.shadow_requested,
        }
    }
}

/// Post-execution record of how a declared [`BackendSelection`] was actually carried out.
#[derive(Debug, PartialEq, Eq)]
pub struct BackendExecutionReceipt {
    /// Receipt wire-schema version.
    pub schema_version: u32,
    /// Content-derived `sha256:` identity, covering the bound selection's own identity.
    pub identity: String,
    /// Compiler version that produced this receipt.
    pub compiler_version: String,
    /// The selection this receipt is bound to.
    pub selection: BackendSelection,
    /// The backend that actually executed.
    pub executed_backend: BackendKind,
    /// Shadow-comparison outcome, always present and explicit.
    pub shadow_comparison: ShadowComparisonState,
    /// Whether a declared fallback occurred.
    pub fallback_outcome: FallbackOutcome,
    /// Diagnostic-contract version in force when this receipt was produced.
    pub diagnostic_contract_version: u32,
    /// Content-derived identity of the produced output or artifact.
    pub output_identity: String,
}

impl Clone for BackendExecutionReceipt {
    fn clone(&self) -> (copy: Self)
        ensures
            copy == *self,
    {
        BackendExecutionReceipt {
            schema_version: self.schema_version,
            identity: self.identity.clone(),
            compiler_version: self.compiler_version.clone(),
            selection: self.selection.clone(),
            executed_backend: self.executed_backend,
            shadow_comparison: self.shadow_comparison.clone(),
            fallback_outcome: self.fallback_outcome,
            diagnostic_contract_version: self.diagnostic_contract_version,
            output_identity: self.output_identity.clone(),
        }
    }
}

/// Typed failure while selecting a backend or verifying an identity.
#[derive(Debug)]
#[allow(inconsistent_fields)]
pub enum BackendSelectionError {
    /// A persisted selection uses an unsupported schema version.
    UnsupportedSelectionSchema {
        /// The version the record carries.
        found: u32,
        /// The version this library writes.
        expected: u32,
    },
    /// A selection's claimed content identity did not match its fields.
    SelectionIdentityMismatch {
        /// The identity the record claims.
        expected: String,
        /// The identity its fields give.
        actual: String,
    },
    /// A persisted receipt uses an unsupported schema version.
    UnsupportedReceiptSchema {
        /// The version the record carries.
        found: u32,
        /// The version this library writes.
        expected: u32,
    },
    /// A receipt's claimed content identity did not match its fields.
    ReceiptIdentityMismatch {
        /// The identity the record claims.
        expected: String,
        /// The identity its fields give.
        actual: String,
    },
    /// The selected backend cannot execute, so the build must stop instead of substituting another backend.
    Refused {
        /// The backend that could not execute.
        backend: BackendKind,
        /// Concrete reason it could not execute.
        reason: String,
    },
}

impl BackendSelectionError {
    /// The message that explains an error.
    pub open spec fn explanation(self) -> Seq<char> {
        match self {
            BackendSelectionError::UnsupportedSelectionSchema { found, expected } =>
                "unsupported backend-selection schema version "@ + decimal(found as nat) + "; expected "@ + decimal(
                expected as nat,
            ),
            BackendSelectionError::SelectionIdentityMismatch { expected, actual } =>
                "backend-selection identity mismatch: expected "@ + expected@ + ", got "@ + actual@,
            BackendSelectionError::UnsupportedReceiptSchema { found, expected } =>
                "unsupported backend-execution-receipt schema version "@ + decimal(found as nat) + "; expected "@
                + decimal(expected as nat),
            BackendSelectionError::ReceiptIdentityMismatch { expected, actual } =>
                "backend-execution-receipt identity mismatch: expected "@ + expected@ + ", got "@ + actual@,
            BackendSelectionError::Refused { backend, reason } => "backend `"@ + backend.spelling()
                + "` was selected but cannot execute yet ("@ + reason@
                + "); fallback policy is `refuse`, so the build stops instead of silently running another backend"@,
        }
    }

    /// Explains the error in one line.
    pub fn message(&self) -> (text: String)
        ensures
            text@ == self.explanation(),
    {
        match self {
            BackendSelectionError::UnsupportedSelectionSchema { found, expected } =>
                "unsupported backend-selection schema version ".to_owned().concat(
                natural_text(*found as u64).as_str(),
            ).concat("; expected ").concat(natural_text(*expected as u64).as_str()),
            BackendSelectionError::SelectionIdentityMismatch { expected, actual } =>
                "backend-selection identity mismatch: expected ".to_owned().concat(expected.as_str()).concat(
                ", got ",
            ).concat(actual.as_str()),
            BackendSelectionError::UnsupportedReceiptSchema { found, expected } =>
                "unsupported backend-execution-receipt schema version ".to_owned().concat(
                natural_text(*found as u64).as_str(),
            ).concat("; expected ").concat(natural_text(*expected as u64).as_str()),
            BackendSelectionError::ReceiptIdentityMismatch { expected, actual } =>
                "backend-execution-receipt identity mismatch: expected ".to_owned().concat(
                expected.as_str(),
            ).concat(", got ").concat(actual.as_str()),
            BackendSelectionError::Refused { backend, reason } => "backend `".to_owned().concat(
                backend.name(),
            ).concat("` was selected but cannot execute yet (").concat(reason.as_str()).concat(
                "); fallback policy is `refuse`, so the build stops instead of silently running another backend",
            ),
        }
    }
}

/// The content that a selection's identity covers: one line per field.
pub open spec fn selection_content(
    selected_backend: BackendKind,
    implementation_revision: u32,
    compatibility_profile: CompatibilityProfile,
    source_identity: Seq<char>,
    selection_reason: SelectionReason,
    fallback_policy: FallbackPolicy,
    shadow_requested: bool,
) -> Seq<char> {
    selected_backend.spelling() + "\n"@ + decimal(implementation_revision as nat) + "\n"@
        + compatibility_profile.spelling() + "\n"@ + source_identity + "\n"@ + selection_reason.spelling() + "\n"@
        + fallback_policy.spelling() + "\n"@ + bool_spelling(shadow_requested) + "\n"@
}

/// The content that a receipt's identity covers: one line per field.
pub open spec fn receipt_content(
    selection_identity: Seq<char>,
    compiler_version: Seq<char>,
    executed_backend: BackendKind,
    shadow_comparison: ShadowComparisonState,
    fallback_outcome: FallbackOutcome,
    diagnostic_contract_version: u32,
    output_identity: Seq<char>,
) -> Seq<char> {
    selection_identity + "\n"@ + compiler_version + "\n"@ + executed_backend.spelling() + "\n"@
        + shadow_comparison.spelling() + "\n"@ + fallback_outcome.spelling() + "\n"@ + decimal(
        diagnostic_contract_version as nat,
    ) + "\n"@ + output_identity + "\n"@
}

impl BackendSelection {
    /// The identity that this selection's fields give.
    pub open spec fn content_identity(self) -> Seq<char> {
        text_identity(
            selection_content(
                self.selected_backend,
                self.implementation_revision,
                self.compatibility_profile,
                self.source_identity@,
                self.selection_reason,
                self.fallback_policy,
                self.shadow_requested,
            ),
        )
    }

    /// Whether the recorded schema and identity are those of the fields.
    pub open spec fn authentic(self) -> bool {
        self.schema_version == BACKEND_SELECTION_SCHEMA_VERSION && self.identity@ == self.content_identity()
    }

    /// Whether this is what verifying the selection gives: success exactly where it is authentic, else a foreign
    /// schema before a foreign identity.
    pub open spec fn verified_as(self, outcome: Result<(), BackendSelectionError>) -> bool {
        match outcome {
            Ok(_) => self.authentic(),
            Err(error) => !self.authentic() && if self.schema_version != BACKEND_SELECTION_SCHEMA_VERSION {
                error == (BackendSelectionError::UnsupportedSelectionSchema {
                    found: self.schema_version,
                    expected: BACKEND_SELECTION_SCHEMA_VERSION,
                })
            } else {
                error matches BackendSelectionError::SelectionIdentityMismatch { expected, actual } && expected@
                    == self.identity@ && actual@ == self.content_identity()
            },
        }
    }
}

impl BackendExecutionReceipt {
    /// The identity that this receipt's fields give.
    pub open spec fn content_identity(self) -> Seq<char> {
        text_identity(
            receipt_content(
                self.selection.identity@,
                self.compiler_version@,
                self.executed_backend,
                self.shadow_comparison,
                self.fallback_outcome,
                self.diagnostic_contract_version,
                self.output_identity@,
            ),
        )
    }

    /// Whether the receipt and the selection it is bound to are both what their fields give.
    pub open spec fn authentic(self) -> bool {
        self.selection.authentic() && self.schema_version == BACKEND_SELECTION_SCHEMA_VERSION && self.identity@
            == self.content_identity()
    }

    /// Whether this is what verifying the receipt gives: success exactly where it is authentic, else what verifying
    /// its selection gives, a foreign schema, or a foreign identity, in this order.
    pub open spec fn verified_as(self, outcome: Result<(), BackendSelectionError>) -> bool {
        match outcome {
            Ok(_) => self.authentic(),
            Err(error) => !self.authentic() && if !self.selection.authentic() {
                self.selection.verified_as(outcome)
            } else if self.schema_version != BACKEND_SELECTION_SCHEMA_VERSION {
                error == (BackendSelectionError::UnsupportedReceiptSchema {
                    found: self.schema_version,
                    expected: BACKEND_SELECTION_SCHEMA_VERSION,
                })
            } else {
                error matches BackendSelectionError::ReceiptIdentityMismatch { expected, actual } && expected@
                    == self.identity@ && actual@ == self.content_identity()
            },
        }
    }
}

/// The implementation revision of a backend.
pub open spec fn revision_of(backend: BackendKind) -> u32 {
    match backend {
        BackendKind::Legacy => LEGACY_BACKEND_REVISION,
        BackendKind::Replacement => REPLACEMENT_BACKEND_REVISION,
    }
}

/// The coverage that a backend declares.
pub open spec fn coverage_of(backend: BackendKind) -> CompatibilityProfile {
    match backend {
        BackendKind::Legacy => CompatibilityProfile::Full,
        BackendKind::Replacement => CompatibilityProfile::Partial,
    }
}

/// Declares a backend selection for one compilation, before anything executes.
///
/// `explicit` distinguishes an operator-provided request from the compiler-owned default and is the sole input to
/// the recorded reason. Declaring never fails: availability is checked by [`resolve_execution`].
#[must_use]
pub fn select_backend(
    requested: BackendKind,
    explicit: bool,
    shadow_requested: bool,
    source_identity: &str,
    fallback_policy: FallbackPolicy,
) -> (selection: BackendSelection)
    ensures
        selection.authentic(),
        selection.schema_version == BACKEND_SELECTION_SCHEMA_VERSION,
        selection.selected_backend == requested,
        selection.implementation_revision == revision_of(requested),
        selection.compatibility_profile == coverage_of(requested),
        selection.source_identity@ == source_identity@,
        selection.selection_reason == (if explicit {
            SelectionReason::ExplicitRequest
        } else {
            SelectionReason::Default
        }),
        selection.fallback_policy == fallback_policy,
        selection.shadow_requested == shadow_requested,
{
    let implementation_revision: u32 = match requested {
        BackendKind::Legacy => LEGACY_BACKEND_REVISION,
        BackendKind::Replacement => REPLACEMENT_BACKEND_REVISION,
    };
    let compatibility_profile = match requested {
        BackendKind::Legacy => CompatibilityProfile::Full,
        BackendKind::Replacement => CompatibilityProfile::Partial,
    };
    let selection_reason = if explicit {
        SelectionReason::ExplicitRequest
    } else {
        SelectionReason::Default
    };
    let identity = selection_identity(
        requested,
        implementation_revision,
        compatibility_profile,
        source_identity,
        selection_reason,
        fallback_policy,
        shadow_requested,
    );
    BackendSelection {
        schema_version: BACKEND_SELECTION_SCHEMA_VERSION,
        identity,
        selected_backend: requested,
        implementation_revision,
        compatibility_profile,
        source_identity: source_identity.to_owned(),
        selection_reason,
        fallback_policy,
        shadow_requested,
    }
}

/// The backend that must run for a declared selection, or `None` where the selection must be refused.
pub open spec fn resolved(selection: BackendSelection, selected_available: bool) -> Option<BackendKind> {
    if selected_available {
        Some(selection.selected_backend)
    } else {
        match selection.fallback_policy {
            FallbackPolicy::Refuse => None,
            FallbackPolicy::AllowTo(target) => if target.runs() {
                Some(target)
            } else {
                None
            },
        }
    }
}

/// The refusal of an unavailable selection: the backend that is missing and why.
pub open spec fn refusal(selection: BackendSelection) -> (BackendKind, Seq<char>) {
    match selection.fallback_policy {
        FallbackPolicy::Refuse => (
            selection.selected_backend,
            selection.selected_backend.spelling() + " backend is not available for this compilation"@,
        ),
        FallbackPolicy::AllowTo(target) => (
            target,
            "declared fallback target "@ + target.spelling() + " is not available either; "@
                + selection.selected_backend.spelling() + " backend is also unavailable"@,
        ),
    }
}

/// Decides which backend a caller must actually invoke for a declared selection.
///
/// An unavailable selection is refused under [`FallbackPolicy::Refuse`], and also where the declared fallback
/// target cannot execute either.
pub fn resolve_execution(selection: &BackendSelection, selected_available: bool) -> (outcome: Result<
    BackendKind,
    BackendSelectionError,
>)
    ensures
        match outcome {
            Ok(backend) => resolved(*selection, selected_available) == Some(backend),
            Err(error) => {
                &&& resolved(*selection, selected_available) is None
                &&& error matches BackendSelectionError::Refused { backend, reason }
                &&& (backend, reason@) == refusal(*selection)
            },
        },
{
    if selected_available {
        return Ok(selection.selected_backend);
    }
    match selection.fallback_policy {
        FallbackPolicy::Refuse => Err(
            BackendSelectionError::Refused {
                backend: selection.selected_backend,
                reason: selection.selected_backend.name().to_owned().concat(
                    " backend is not available for this compilation",
                ),
            },
        ),
        FallbackPolicy::AllowTo(target) => if target.is_implemented() {
            Ok(target)
        } else {
            Err(
                BackendSelectionError::Refused {
                    backend: target,
                    reason: "declared fallback target ".to_owned().concat(target.name()).concat(
                        " is not available either; ",
                    ).concat(selection.selected_backend.name()).concat(" backend is also unavailable"),
                },
            )
        },
    }
}

/// The fallback that running one backend for a selection of another amounts to.
pub open spec fn fallback_of(selected: BackendKind, executed: BackendKind) -> FallbackOutcome {
    if executed == selected {
        FallbackOutcome::NotNeeded
    } else {
        FallbackOutcome::Declared { from: selected, to: executed }
    }
}

/// Binds an execution outcome to its declared selection, producing a versioned receipt.
///
/// The fallback policy is not validated again: a mismatch between the executed and the selected backend is
/// recorded as a declared fallback.
#[must_use]
pub fn finalize_receipt(
    selection: &BackendSelection,
    executed_backend: BackendKind,
    output_identity: &str,
    shadow_comparison: ShadowComparisonState,
    diagnostic_contract_version: u32,
) -> (receipt: BackendExecutionReceipt)
    ensures
        receipt.schema_version == BACKEND_SELECTION_SCHEMA_VERSION,
        receipt.identity@ == receipt.content_identity(),
        receipt.compiler_version@ == INCAN_VERSION@,
        receipt.selection == *selection,
        receipt.executed_backend == executed_backend,
        receipt.shadow_comparison == shadow_comparison,
        receipt.fallback_outcome == fallback_of(selection.selected_backend, executed_backend),
        receipt.diagnostic_contract_version == diagnostic_contract_version,
        receipt.output_identity@ == output_identity@,
        receipt.authentic() <==> selection.authentic(),
{
    let fallback_outcome = if executed_backend == selection.selected_backend {
        FallbackOutcome::NotNeeded
    } else {
        FallbackOutcome::Declared { from: selection.selected_backend, to: executed_backend }
    };
    let compiler_version: String = INCAN_VERSION.to_owned();
    let identity = receipt_identity(
        selection.identity.as_str(),
        compiler_version.as_str(),
        executed_backend,
        &shadow_comparison,
        fallback_outcome,
        diagnostic_contract_version,
        output_identity,
    );
    BackendExecutionReceipt {
        schema_version: BACKEND_SELECTION_SCHEMA_VERSION,
        identity,
        compiler_version,
        selection: selection.clone(),
        executed_backend,
        shadow_comparison,
        fallback_outcome,
        diagnostic_contract_version,
        output_identity: output_identity.to_owned(),
    }
}

impl BackendSelection {
    /// Recomputes this selection's content identity and confirms that it matches the recorded one.
    pub fn verify_identity(&self) -> (outcome: Result<(), BackendSelectionError>)
        ensures
            self.verified_as(outcome),
    {
        if self.schema_version != BACKEND_SELECTION_SCHEMA_VERSION {
            return Err(
                BackendSelectionError::UnsupportedSelectionSchema {
                    found: self.schema_version,
                    expected: BACKEND_SELECTION_SCHEMA_VERSION,
                },
            );
        }
        let actual = selection_identity(
            self.selected_backend,
            self.implementation_revision,
            self.compatibility_profile,
            self.source_identity.as_str(),
            self.selection_reason,
            self.fallback_policy,
            self.shadow_requested,
        );
        if !same_text(actual.as_str(), self.identity.as_str()) {
            return Err(
                BackendSelectionError::SelectionIdentityMismatch { expected: self.identity.clone(), actual },
            );
        }
        Ok(())
    }
}

impl BackendExecutionReceipt {
    /// Recomputes this receipt's content identity, and its selection's, and confirms both.
    pub fn verify_identity(&self) -> (outcome: Result<(), BackendSelectionError>)
        ensures
            self.verified_as(outcome),
    {
        match self.selection.verify_identity() {
            Ok(()) => {},
            Err(error) => return Err(error),
        }
        if self.schema_version != BACKEND_SELECTION_SCHEMA_VERSION {
            return Err(
                BackendSelectionError::UnsupportedReceiptSchema {
                    found: self.schema_version,
                    expected: BACKEND_SELECTION_SCHEMA_VERSION,
                },
            );
        }
        let actual = receipt_identity(
            self.selection.identity.as_str(),
            self.compiler_version.as_str(),
            self.executed_backend,
            &self.shadow_comparison,
            self.fallback_outcome,
            self.diagnostic_contract_version,
            self.output_identity.as_str(),
        );
        if !same_text(actual.as_str(), self.identity.as_str()) {
            return Err(BackendSelectionError::ReceiptIdentityMismatch { expected: self.identity.clone(), actual });
        }
        Ok(())
    }
}

/// Digests the fields that make up a selection's content identity.
fn selection_identity(
    selected_backend: BackendKind,
    implementation_revision: u32,
    compatibility_profile: CompatibilityProfile,
    source_identity: &str,
    selection_reason: SelectionReason,
    fallback_policy: FallbackPolicy,
    shadow_requested: bool,
) -> (identity: String)
    ensures
        identity@ == text_identity(
            selection_content(
                selected_backend,
                implementation_revision,
                compatibility_profile,
                source_identity@,
                selection_reason,
                fallback_policy,
                shadow_requested,
            ),
        ),
{
    let content: String = selected_backend.name().to_owned().concat("\n").concat(
        natural_text(implementation_revision as u64).as_str(),
    ).concat("\n").concat(compatibility_profile.name()).concat("\n").concat(source_identity).concat("\n").concat(
        selection_reason.name(),
    ).concat("\n").concat(fallback_policy.name().as_str()).concat("\n").concat(
        bool_text(shadow_requested).as_str(),
    ).concat("\n");
    digest_content(content.as_str())
}

/// Digests the fields that make up a receipt's content identity.
fn receipt_identity(
    selection_identity: &str,
    compiler_version: &str,
    executed_backend: BackendKind,
    shadow_comparison: &ShadowComparisonState,
    fallback_outcome: FallbackOutcome,
    diagnostic_contract_version: u32,
    output_identity: &str,
) -> (identity: String)
    ensures
        identity@ == text_identity(
            receipt_content(
                selection_identity@,
                compiler_version@,
                executed_backend,
                *shadow_comparison,
                fallback_outcome,
                diagnostic_contract_version,
                output_identity@,
            ),
        ),
{
    let content: String = selection_identity.to_owned().concat("\n").concat(compiler_version).concat("\n").concat(
        executed_backend.name(),
    ).concat("\n").concat(shadow_comparison.name().as_str()).concat("\n").concat(
        fallback_outcome.name().as_str(),
    ).concat("\n").concat(natural_text(diagnostic_contract_version as u64).as_str()).concat("\n").concat(
        output_identity,
    ).concat("\n");
    digest_content(content.as_str())
}

/// The identity of content fragments presented in a stable order.
pub open spec fn fragments_identity(parts: Seq<Seq<char>>) -> Seq<char> {
    text_identity(joined(parts, "\u{1}"@))
}

/// Digests one or more content fragments into a single content-derived identity.
///
/// `parts` must come in a stable, caller-chosen order.
#[must_use]
pub fn digest_output(parts: &[&str]) -> (identity: String)
    ensures
        identity@ == fragments_identity(slice_texts(parts@)),
{
    let content: String = join_slices(parts, "\u{1}");
    digest_content(content.as_str())
}

/// A refused selection leads to no executed backend, and an available one is never substituted.
pub proof fn law_resolution_never_substitutes_silently(selection: BackendSelection, selected_available: bool)
    ensures
        selected_available ==> resolved(selection, selected_available) == Some(selection.selected_backend),
        !selected_available && selection.fallback_policy is Refuse ==> resolved(selection, selected_available) is None,
        resolved(selection, false) matches Some(backend) ==> backend.runs() && selection.fallback_policy
            == FallbackPolicy::AllowTo(backend),
{
}

/// A receipt names a fallback exactly when the executed backend is not the selected one, and names both.
pub proof fn law_fallback_is_recorded(selected: BackendKind, executed: BackendKind)
    ensures
        fallback_of(selected, executed) is NotNeeded <==> selected == executed,
        fallback_of(selected, executed) matches FallbackOutcome::Declared { from, to } ==> from == selected && to
            == executed,
{
}

} // verus!
