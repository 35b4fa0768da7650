//! The legacy route under Oven authority.
//!
//! The emitted Rust is authorized by a receipt, an immutable plan is selected against the receipt's build unit, Oven
//! compiles the source without Cargo, and the produced program is run. Each step is decided here; performing it is
//! left to the caller. A failure before the program has run means that it was never observed.

use crate::shadow::comparison::LegacyRouteResult;
use crate::shadow::observation::{
    observe_legacy_process, observes_process, process_observable, LegacyExecutionAuthority, ObservableModel,
};
use crate::shadow::profile::{instance_identity, ShadowComparisonProfile};
use crate::shadow::{ShadowUnavailable, SHADOW_COMPARISON_PROFILE_ID};
use crate::text::{begins_with, lossy_text, lossy_utf8, same_text, starts_with, texts, trim, trimmed};
use vstd::prelude::*;

verus! {

broadcast use vstd::string::group_string_axioms;

/// The evidence key under which the emitted Rust is authorized.
pub const SOURCE_EVIDENCE_KEY: &'static str = "generated-root";

/// The project name in the comparison's receipt.
pub const LEGACY_PROJECT_NAME: &'static str = "incan-shadow-comparison";

/// The crate name of the produced program.
pub const LEGACY_CRATE_NAME: &'static str = "incan_shadow_comparison";

/// The variable that names the Incan home.
pub const INCAN_HOME_ENV: &'static str = "INCAN_SHADOW_OVEN_HOME";

/// The variable that names the receipt.
pub const RECEIPT_ENV: &'static str = "INCAN_SHADOW_OVEN_RECEIPT";

/// The variable that names the compiler.
pub const RUSTC_ENV: &'static str = "INCAN_SHADOW_RUSTC";

/// What the Incan home has to be.
pub const INCAN_HOME_ROLE: &'static str = "Incan home whose bounded Oven store holds a published direct-rustc plan";

/// What the receipt has to be.
pub const RECEIPT_ROLE: &'static str =
    "path to a verified Oven receipt from a project already baked with `incan oven bake`";

/// What the compiler has to be.
pub const RUSTC_ROLE: &'static str = "explicit Rust compiler executable Oven must use";

/// The variables that stage the legacy route, with what they name.
pub const CAPABILITY_ENVIRONMENT: [(&'static str, &'static str); 3] = [
    (INCAN_HOME_ENV, INCAN_HOME_ROLE),
    (RECEIPT_ENV, RECEIPT_ROLE),
    (RUSTC_ENV, RUSTC_ROLE),
];

// ---------------------------------------------------------------------------
// Capability
// ---------------------------------------------------------------------------

/// What a project is built for.
#[derive(Debug, Clone, PartialEq, Eq)]
pub struct OvenBuildIntent {
    /// The target.
    pub target: String,
    /// The toolchain.
    pub toolchain: String,
    /// The profile.
    pub profile: String,
    /// The features.
    pub features: Vec<String>,
}

/// A receipt of a baked project.
#[derive(Debug, Clone, PartialEq, Eq)]
pub struct OvenReceipt {
    /// Its identity.
    pub identity: String,
    /// The identity of the build unit.
    pub build_unit_identity: String,
    /// The project's version.
    pub project_version: String,
    /// What the project is built for.
    pub intent: OvenBuildIntent,
    /// The inputs of the build unit.
    pub build_unit_inputs: Vec<(String, String)>,
}

/// What is needed to run the legacy route.
#[derive(Debug)]
pub struct LegacyOvenCapability {
    /// The store that plans are selected from.
    pub store_root: String,
    /// The compiler.
    pub rustc: String,
    /// The receipt whose build unit is adopted.
    pub baked_receipt: OvenReceipt,
}

/// What reading a persisted receipt gave.
#[derive(Debug)]
#[allow(inconsistent_fields)]
pub enum ReceiptReading {
    /// The file could not be read.
    Unreadable(String),
    /// The file is no receipt.
    Unparsable(String),
    /// The receipt does not verify.
    Unverified(String),
    /// The verified receipt.
    Verified(OvenReceipt),
}

/// Why a persisted receipt gives no authority.
pub open spec fn receipt_refusal(path: Seq<char>, reading: ReceiptReading) -> Option<Seq<char>> {
    match reading {
        ReceiptReading::Unreadable(error) => Some(
            "the legacy route has no Oven authority: cannot read "@ + path + ": "@ + error@,
        ),
        ReceiptReading::Unparsable(error) => Some(
            "the legacy route's Oven receipt "@ + path + " could not be parsed: "@ + error@,
        ),
        ReceiptReading::Unverified(error) => Some(
            "the legacy route's Oven receipt "@ + path + " failed identity verification: "@ + error@,
        ),
        ReceiptReading::Verified(_) => None,
    }
}

/// The paths that stage a capability.
#[derive(Debug, PartialEq, Eq)]
pub struct CapabilityPaths {
    /// The Incan home.
    pub incan_home: String,
    /// The receipt.
    pub receipt: String,
    /// The compiler.
    pub rustc: String,
}

/// Whether a variable is set to something.
pub open spec fn is_set(value: Option<String>) -> bool {
    value matches Some(text) && text@.len() > 0
}

/// Why an unset variable stops the route.
pub open spec fn unstaged(variable: Seq<char>, role: Seq<char>) -> Seq<char> {
    "the legacy comparison route is not staged: "@ + variable + " is unset; it must name the "@ + role
}

/// Why the environment stages no capability: the first missing variable, in their order.
pub open spec fn environment_refusal(home: Option<String>, receipt: Option<String>, rustc: Option<String>) -> Option<
    Seq<char>,
> {
    if !is_set(home) {
        Some(unstaged(INCAN_HOME_ENV@, INCAN_HOME_ROLE@))
    } else if !is_set(receipt) {
        Some(unstaged(RECEIPT_ENV@, RECEIPT_ROLE@))
    } else if !is_set(rustc) {
        Some(unstaged(RUSTC_ENV@, RUSTC_ROLE@))
    } else {
        None
    }
}

/// The value of a variable that has to be set.
fn required(variable: &str, role: &str, value: Option<String>) -> (outcome: Result<String, ShadowUnavailable>)
    ensures
        match outcome {
            Ok(text) => value == Some(text) && text@.len() > 0,
            Err(unavailable) => !is_set(value) && unavailable.reason@ == unstaged(variable@, role@),
        },
{
    match value {
        Some(text) => {
            if text.as_str().unicode_len() > 0 {
                return Ok(text);
            }
        },
        None => {},
    }
    Err(
        ShadowUnavailable::new(
            "the legacy comparison route is not staged: ".to_owned().concat(variable).concat(
                " is unset; it must name the ",
            ).concat(role),
        ),
    )
}

/// What the comparison's own receipt is requested for: everything of the baked project but its sources.
#[derive(Debug)]
pub struct GeneratedProjectRequest {
    /// The project's name.
    pub project_name: String,
    /// The project's version.
    pub project_version: String,
    /// What the project is built for.
    pub intent: OvenBuildIntent,
    /// The key that the emitted source is authorized under.
    pub source_evidence_key: String,
    /// The inputs of the build unit.
    pub build_unit_inputs: Vec<(String, String)>,
}

/// Copies a list of names.
fn copy_names(names: &Vec<String>) -> (copy: Vec<String>)
    ensures
        copy@ == names@,
{
    let mut copy: Vec<String> = Vec::new();
    let mut i: usize = 0;
    while i < names.len()
        invariant
            i <= names@.len(),
            copy@ == names@.take(i as int),
        decreases names@.len() - i,
    {
        copy.push(names[i].clone());
        proof {
            assert(names@.take(i + 1) =~= names@.take(i as int).push(names@[i as int]));
        }
        i += 1;
    }
    proof {
        assert(names@.take(i as int) =~= names@);
    }
    copy
}

/// Copies a list of inputs.
fn copy_inputs(inputs: &Vec<(String, String)>) -> (copy: Vec<(String, String)>)
    ensures
        copy@ == inputs@,
{
    let mut copy: Vec<(String, String)> = Vec::new();
    let mut i: usize = 0;
    while i < inputs.len()
        invariant
            i <= inputs@.len(),
            copy@ == inputs@.take(i as int),
        decreases inputs@.len() - i,
    {
        let input: &(String, String) = &inputs[i];
        copy.push((input.0.clone(), input.1.clone()));
        proof {
            assert(inputs@.take(i + 1) =~= inputs@.take(i as int).push(inputs@[i as int]));
        }
        i += 1;
    }
    proof {
        assert(inputs@.take(i as int) =~= inputs@);
    }
    copy
}

impl LegacyOvenCapability {
    /// Adopts the build unit of a baked project whose persisted receipt was read.
    pub fn adopt_baked_project(store_root: &str, rustc: &str, receipt_path: &str, reading: ReceiptReading) -> (outcome:
        Result<Self, ShadowUnavailable>)
        ensures
            match outcome {
                Ok(capability) => reading == ReceiptReading::Verified(capability.baked_receipt)
                    && capability.store_root@ == store_root@ && capability.rustc@ == rustc@,
                Err(unavailable) => receipt_refusal(receipt_path@, reading) == Some(unavailable.reason@),
            },
    {
        let reason: String = match reading {
            ReceiptReading::Verified(baked_receipt) => {
                return Ok(
                    LegacyOvenCapability {
                        store_root: store_root.to_owned(),
                        rustc: rustc.to_owned(),
                        baked_receipt,
                    },
                );
            },
            ReceiptReading::Unreadable(error) => "the legacy route has no Oven authority: cannot read ".to_owned().concat(
                receipt_path,
            ).concat(": ").concat(error.as_str()),
            ReceiptReading::Unparsable(error) => "the legacy route's Oven receipt ".to_owned().concat(
                receipt_path,
            ).concat(" could not be parsed: ").concat(error.as_str()),
            ReceiptReading::Unverified(error) => "the legacy route's Oven receipt ".to_owned().concat(
                receipt_path,
            ).concat(" failed identity verification: ").concat(error.as_str()),
        };
        Err(ShadowUnavailable::new(reason))
    }

    /// What comparison builds are built for.
    #[must_use]
    pub fn intent(&self) -> (intent: &OvenBuildIntent)
        ensures
            *intent == self.baked_receipt.intent,
    {
        &self.baked_receipt.intent
    }

    /// The receipt whose build unit is adopted.
    #[must_use]
    pub fn adopted_receipt(&self) -> (receipt: &OvenReceipt)
        ensures
            *receipt == self.baked_receipt,
    {
        &self.baked_receipt
    }

    /// The paths that the values of the staging variables give, or the first one that is missing.
    pub fn from_environment(home: Option<String>, receipt: Option<String>, rustc: Option<String>) -> (outcome: Result<
        CapabilityPaths,
        ShadowUnavailable,
    >)
        ensures
            match outcome {
                Ok(paths) => environment_refusal(home, receipt, rustc) is None && home == Some(paths.incan_home)
                    && receipt == Some(paths.receipt) && rustc == Some(paths.rustc),
                Err(unavailable) => environment_refusal(home, receipt, rustc) == Some(unavailable.reason@),
            },
    {
        let incan_home: String = required(INCAN_HOME_ENV, INCAN_HOME_ROLE, home)?;
        let receipt: String = required(RECEIPT_ENV, RECEIPT_ROLE, receipt)?;
        let rustc: String = required(RUSTC_ENV, RUSTC_ROLE, rustc)?;
        Ok(CapabilityPaths { incan_home, receipt, rustc })
    }

    /// What the comparison's own receipt is requested for. The intent and the build-unit inputs stay those of the
    /// baked project, so its stored plan can be selected.
    pub fn receipt_for_generated_source(&self) -> (request: GeneratedProjectRequest)
        ensures
            request.project_name@ == LEGACY_PROJECT_NAME@,
            request.project_version@ == self.baked_receipt.project_version@,
            request.intent.target@ == self.baked_receipt.intent.target@,
            request.intent.toolchain@ == self.baked_receipt.intent.toolchain@,
            request.intent.profile@ == self.baked_receipt.intent.profile@,
            request.intent.features@ == self.baked_receipt.intent.features@,
            request.source_evidence_key@ == SOURCE_EVIDENCE_KEY@,
            request.build_unit_inputs@ == self.baked_receipt.build_unit_inputs@,
    {
        let intent: &OvenBuildIntent = &self.baked_receipt.intent;
        GeneratedProjectRequest {
            project_name: LEGACY_PROJECT_NAME.to_owned(),
            project_version: self.baked_receipt.project_version.clone(),
            intent: OvenBuildIntent {
                target: intent.target.clone(),
                toolchain: intent.toolchain.clone(),
                profile: intent.profile.clone(),
                features: copy_names(&intent.features),
            },
            source_evidence_key: SOURCE_EVIDENCE_KEY.to_owned(),
            build_unit_inputs: copy_inputs(&self.baked_receipt.build_unit_inputs),
        }
    }
}

// ---------------------------------------------------------------------------
// The route
// ---------------------------------------------------------------------------

/// What stopped a program from being emitted as Rust.
#[derive(Debug)]
#[allow(inconsistent_fields)]
pub enum EmissionFailure {
    /// It has no tokens.
    Lex(String),
    /// It has no syntax tree.
    Parse(String),
    /// It has type errors.
    Typecheck(String),
    /// The backend could not emit it.
    Emit(String),
}

/// What stopped emitted Rust from being written.
#[derive(Debug)]
#[allow(inconsistent_fields)]
pub enum WriteFailure {
    /// The path has no directory.
    NoParent(String),
    /// The directory could not be made.
    CreateDirectory(String, String),
    /// The file could not be written.
    Write(String, String),
}

/// What a finished build gave.
#[derive(Debug)]
pub struct BakedProgram {
    /// The program's path.
    pub program: String,
    /// Its digest.
    pub output_digest: String,
    /// Whether a Cargo process took part.
    pub cargo_process_started: bool,
}

/// What a finished program gave.
#[derive(Debug)]
pub struct FinishedProcess {
    /// The exit code, where it was not stopped by a signal.
    pub exit_code: Option<i32>,
    /// What it printed.
    pub stdout: Vec<u8>,
    /// What it complained of.
    pub stderr: Vec<u8>,
}

/// Where the route stands: what it waits for.
#[derive(Debug)]
#[allow(inconsistent_fields)]
pub enum LegacyRouteState {
    /// Rust for the program.
    Emitting,
    /// The Rust on disk.
    Writing,
    /// A receipt for the Rust.
    Receipting,
    /// A plan for the receipt's build unit.
    Selecting {
        /// The receipt.
        receipt_identity: String,
        /// The build unit.
        build_unit_identity: String,
    },
    /// The built program.
    Baking {
        /// The receipt.
        receipt_identity: String,
        /// The build unit.
        build_unit_identity: String,
        /// The plan.
        plan_identity: String,
    },
    /// The finished program.
    Running {
        /// What authorized the build.
        authority: LegacyExecutionAuthority,
        /// The program's path.
        program: String,
    },
}

/// What happened.
#[derive(Debug)]
#[allow(inconsistent_fields)]
pub enum LegacyEvent {
    /// Rust was emitted or not.
    Emitted(Result<String, EmissionFailure>),
    /// The Rust was written or not.
    Written(Result<(), WriteFailure>),
    /// The receipt was made, with its identity and that of its build unit, or not.
    Receipted(Result<(String, String), String>),
    /// The plan was selected, if one is staged, or not.
    Selected(Result<Option<String>, String>),
    /// The program was built or not.
    Baked(Result<BakedProgram, String>),
    /// The program was run or not.
    Ran(Result<FinishedProcess, String>),
}

/// What is to be done next.
#[derive(Debug)]
#[allow(inconsistent_fields)]
pub enum LegacyAction {
    /// Write Rust.
    WriteSource(String),
    /// Make a receipt for it.
    MakeReceipt,
    /// Select a plan.
    SelectPlan,
    /// Build the program by a plan.
    Bake(String),
    /// Run the program.
    Run(String),
}

/// How the route goes on.
#[derive(Debug)]
#[allow(inconsistent_fields)]
pub enum LegacyStep {
    /// Something is to be done.
    Perform(LegacyRouteState, LegacyAction),
    /// The event is not what the route waits for.
    Unexpected(LegacyRouteState),
    /// The route is through.
    Finished(Result<LegacyRouteResult, ShadowUnavailable>),
}

/// Why a program was not emitted.
pub open spec fn emission_failure(failure: EmissionFailure) -> Seq<char> {
    match failure {
        EmissionFailure::Lex(errors) => "the legacy program did not lex: "@ + errors@,
        EmissionFailure::Parse(errors) => "the legacy program did not parse: "@ + errors@,
        EmissionFailure::Typecheck(errors) => "the legacy program did not typecheck: "@ + errors@,
        EmissionFailure::Emit(error) => "the legacy backend could not emit Rust: "@ + error@,
    }
}

/// Why emitted Rust was not written.
pub open spec fn write_failure(failure: WriteFailure) -> Seq<char> {
    match failure {
        WriteFailure::NoParent(path) => "the legacy route's generated source path "@ + path@
            + " has no parent directory"@,
        WriteFailure::CreateDirectory(path, error) => "the legacy route could not create "@ + path@ + ": "@ + error@,
        WriteFailure::Write(path, error) => "the legacy route could not write "@ + path@ + ": "@ + error@,
    }
}

/// Whether the route is through without having observed anything, for a reason.
pub open spec fn gives_up(step: LegacyStep, reason: Seq<char>) -> bool {
    step matches LegacyStep::Finished(Err(unavailable)) && unavailable.reason@ == reason
}

/// Whether an authority is that of a build.
pub open spec fn authorizes(
    authority: LegacyExecutionAuthority,
    receipt_identity: String,
    build_unit_identity: String,
    plan_identity: String,
    baked: BakedProgram,
) -> bool {
    &&& authority.oven_receipt_identity == receipt_identity
    &&& authority.oven_build_unit_identity == build_unit_identity
    &&& authority.direct_rustc_plan_identity == plan_identity
    &&& authority.output_digest == baked.output_digest
    &&& authority.cargo_process_started == baked.cargo_process_started
}

/// Whether a step is the one that an event leads to.
pub open spec fn follows(
    profile: ShadowComparisonProfile,
    state: LegacyRouteState,
    event: LegacyEvent,
    step: LegacyStep,
) -> bool {
    match (state, event) {
        (LegacyRouteState::Emitting, LegacyEvent::Emitted(emitted)) => match emitted {
            Ok(rust) => step == LegacyStep::Perform(LegacyRouteState::Writing, LegacyAction::WriteSource(rust)),
            Err(failure) => gives_up(step, emission_failure(failure)),
        },
        (LegacyRouteState::Writing, LegacyEvent::Written(written)) => match written {
            Ok(_) => step == LegacyStep::Perform(LegacyRouteState::Receipting, LegacyAction::MakeReceipt),
            Err(failure) => gives_up(step, write_failure(failure)),
        },
        (LegacyRouteState::Receipting, LegacyEvent::Receipted(receipted)) => match receipted {
            Ok((receipt_identity, build_unit_identity)) => step == LegacyStep::Perform(
                LegacyRouteState::Selecting { receipt_identity, build_unit_identity },
                LegacyAction::SelectPlan,
            ),
            Err(error) => gives_up(
                step,
                "the legacy route could not receipt its generated source through Oven: "@ + error@,
            ),
        },
        (
            LegacyRouteState::Selecting { receipt_identity, build_unit_identity },
            LegacyEvent::Selected(selected),
        ) => match selected {
            Ok(Some(plan)) => step matches LegacyStep::Perform(
                LegacyRouteState::Baking { receipt_identity: r, build_unit_identity: u, plan_identity: p },
                LegacyAction::Bake(b),
            ) && r == receipt_identity && u == build_unit_identity && p == plan && b@ == plan@,
            Ok(None) => gives_up(
                step,
                "no immutable Oven direct-rustc plan is staged for build unit "@ + build_unit_identity@
                    + "; bake the adopted project once with `incan oven bake` before a legacy comparison route can run"@,
            ),
            Err(error) => gives_up(
                step,
                "the legacy route could not select an Oven direct-rustc plan: "@ + error@,
            ),
        },
        (
            LegacyRouteState::Baking { receipt_identity, build_unit_identity, plan_identity },
            LegacyEvent::Baked(baked),
        ) => match baked {
            Ok(baked) => if baked.cargo_process_started {
                gives_up(
                    step,
                    "a Cargo process participated in the legacy build, so the result is not Oven-owned execution evidence"@,
                )
            } else {
                step matches LegacyStep::Perform(
                    LegacyRouteState::Running { authority, program },
                    LegacyAction::Run(run),
                ) && authorizes(authority, receipt_identity, build_unit_identity, plan_identity, baked) && program
                    == baked.program && run@ == baked.program@
            },
            Err(error) => gives_up(
                step,
                "Oven did not build the legacy program, so it was never observed: "@ + error@,
            ),
        },
        (LegacyRouteState::Running { authority, program }, LegacyEvent::Ran(ran)) => match ran {
            Ok(process) => {
                let stderr = trimmed(lossy_utf8(process.stderr@));
                match step {
                    LegacyStep::Finished(Ok(result)) => result.authority == authority && observes_process(
                        result.observation,
                        SHADOW_COMPARISON_PROFILE_ID@,
                        instance_identity(profile),
                        authority,
                        process.exit_code,
                        process.stdout@,
                        stderr,
                    ),
                    LegacyStep::Finished(Err(unavailable)) => process_observable(
                        process.exit_code,
                        process.stdout@,
                        stderr,
                    ) == Err::<ObservableModel, Seq<char>>(unavailable.reason@),
                    _ => false,
                }
            },
            Err(error) => gives_up(
                step,
                "the legacy route could not run the Oven-produced program "@ + program@ + ": "@ + error@,
            ),
        },
        _ => step == LegacyStep::Unexpected(state),
    }
}

/// A route that is through without having observed anything.
fn give_up(reason: String) -> (step: LegacyStep)
    ensures
        gives_up(step, reason@),
{
    LegacyStep::Finished(Err(ShadowUnavailable::new(reason)))
}

/// Why a program was not emitted.
fn emission_failure_text(failure: &EmissionFailure) -> (text: String)
    ensures
        text@ == emission_failure(*failure),
{
    match failure {
        EmissionFailure::Lex(errors) => "the legacy program did not lex: ".to_owned().concat(errors.as_str()),
        EmissionFailure::Parse(errors) => "the legacy program did not parse: ".to_owned().concat(errors.as_str()),
        EmissionFailure::Typecheck(errors) => "the legacy program did not typecheck: ".to_owned().concat(
            errors.as_str(),
        ),
        EmissionFailure::Emit(error) => "the legacy backend could not emit Rust: ".to_owned().concat(error.as_str()),
    }
}

/// Why emitted Rust was not written.
fn write_failure_text(failure: &WriteFailure) -> (text: String)
    ensures
        text@ == write_failure(*failure),
{
    match failure {
        WriteFailure::NoParent(path) => "the legacy route's generated source path ".to_owned().concat(
            path.as_str(),
        ).concat(" has no parent directory"),
        WriteFailure::CreateDirectory(path, error) => "the legacy route could not create ".to_owned().concat(
            path.as_str(),
        ).concat(": ").concat(error.as_str()),
        WriteFailure::Write(path, error) => "the legacy route could not write ".to_owned().concat(
            path.as_str(),
        ).concat(": ").concat(error.as_str()),
    }
}

/// Observes what the produced program did.
fn observe_run(profile: &ShadowComparisonProfile, authority: LegacyExecutionAuthority, process: FinishedProcess) -> (
step: LegacyStep)
    ensures
        ({
            let stderr = trimmed(lossy_utf8(process.stderr@));
            match step {
                LegacyStep::Finished(Ok(result)) => result.authority == authority && observes_process(
                    result.observation,
                    SHADOW_COMPARISON_PROFILE_ID@,
                    instance_identity(*profile),
                    authority,
                    process.exit_code,
                    process.stdout@,
                    stderr,
                ),
                LegacyStep::Finished(Err(unavailable)) => process_observable(
                    process.exit_code,
                    process.stdout@,
                    stderr,
                ) == Err::<ObservableModel, Seq<char>>(unavailable.reason@),
                _ => false,
            }
        }),
{
    let stderr: String = trim(lossy_text(process.stderr.as_slice()).as_str());
    match observe_legacy_process(
        profile.profile_kind(),
        profile.profile_identity().as_str(),
        &authority,
        process.exit_code,
        process.stdout.as_slice(),
        stderr.as_str(),
    ) {
        Ok(observation) => LegacyStep::Finished(Ok(LegacyRouteResult { observation, authority })),
        Err(unavailable) => LegacyStep::Finished(Err(unavailable)),
    }
}

/// Decides how the legacy route goes on.
pub fn advance_legacy_route(profile: &ShadowComparisonProfile, state: LegacyRouteState, event: LegacyEvent) -> (step:
    LegacyStep)
    ensures
        follows(*profile, state, event, step),
{
    match (state, event) {
        (LegacyRouteState::Emitting, LegacyEvent::Emitted(emitted)) => match emitted {
            Ok(rust) => LegacyStep::Perform(LegacyRouteState::Writing, LegacyAction::WriteSource(rust)),
            Err(failure) => give_up(emission_failure_text(&failure)),
        },
        (LegacyRouteState::Writing, LegacyEvent::Written(written)) => match written {
            Ok(_) => LegacyStep::Perform(LegacyRouteState::Receipting, LegacyAction::MakeReceipt),
            Err(failure) => give_up(write_failure_text(&failure)),
        },
        (LegacyRouteState::Receipting, LegacyEvent::Receipted(receipted)) => match receipted {
            Ok((receipt_identity, build_unit_identity)) => LegacyStep::Perform(
                LegacyRouteState::Selecting { receipt_identity, build_unit_identity },
                LegacyAction::SelectPlan,
            ),
            Err(error) => give_up(
                "the legacy route could not receipt its generated source through Oven: ".to_owned().concat(
                    error.as_str(),
                ),
            ),
        },
        (
            LegacyRouteState::Selecting { receipt_identity, build_unit_identity },
            LegacyEvent::Selected(selected),
        ) => match selected {
            Ok(Some(plan)) => {
                let chosen: String = plan.clone();
                LegacyStep::Perform(
                    LegacyRouteState::Baking { receipt_identity, build_unit_identity, plan_identity: plan },
                    LegacyAction::Bake(chosen),
                )
            },
            Ok(None) => give_up(
                "no immutable Oven direct-rustc plan is staged for build unit ".to_owned().concat(
                    build_unit_identity.as_str(),
                ).concat(
                    "; bake the adopted project once with `incan oven bake` before a legacy comparison route can run",
                ),
            ),
            Err(error) => give_up(
                "the legacy route could not select an Oven direct-rustc plan: ".to_owned().concat(error.as_str()),
            ),
        },
        (
            LegacyRouteState::Baking { receipt_identity, build_unit_identity, plan_identity },
            LegacyEvent::Baked(baked),
        ) => match baked {
            Ok(baked) => {
                if baked.cargo_process_started {
                    return give_up(
                        "a Cargo process participated in the legacy build, so the result is not Oven-owned execution evidence".to_owned(),
                    );
                }
                let run: String = baked.program.clone();
                LegacyStep::Perform(
                    LegacyRouteState::Running {
                        authority: LegacyExecutionAuthority {
                            oven_receipt_identity: receipt_identity,
                            oven_build_unit_identity: build_unit_identity,
                            direct_rustc_plan_identity: plan_identity,
                            output_digest: baked.output_digest,
                            cargo_process_started: baked.cargo_process_started,
                        },
                        program: baked.program,
                    },
                    LegacyAction::Run(run),
                )
            },
            Err(error) => give_up(
                "Oven did not build the legacy program, so it was never observed: ".to_owned().concat(
                    error.as_str(),
                ),
            ),
        },
        (LegacyRouteState::Running { authority, program }, LegacyEvent::Ran(ran)) => match ran {
            Ok(process) => observe_run(profile, authority, process),
            Err(error) => give_up(
                "the legacy route could not run the Oven-produced program ".to_owned().concat(
                    program.as_str(),
                ).concat(": ").concat(error.as_str()),
            ),
        },
        (state, _) => LegacyStep::Unexpected(state),
    }
}

/// No program that a Cargo process helped to build is ever run, let alone observed.
pub proof fn law_cargo_builds_are_refused(
    profile: ShadowComparisonProfile,
    state: LegacyRouteState,
    baked: BakedProgram,
    step: LegacyStep,
)
    requires
        state is Baking,
        baked.cargo_process_started,
        follows(profile, state, LegacyEvent::Baked(Ok(baked)), step),
    ensures
        step matches LegacyStep::Finished(Err(_)),
{
}

// ---------------------------------------------------------------------------
// Environment
// ---------------------------------------------------------------------------

/// Whether a variable belongs to a surrounding Cargo process.
pub open spec fn cargo_variable(name: Seq<char>) -> bool {
    name == "CARGO"@ || begins_with(name, "CARGO_"@)
}

/// Decides whether a variable belongs to a surrounding Cargo process.
pub fn is_cargo_variable(name: &str) -> (found: bool)
    ensures
        found == cargo_variable(name@),
{
    same_text(name, "CARGO") || starts_with(name, "CARGO_")
}

/// The variables that the produced program must not inherit.
pub fn inherited_cargo_variables(names: &Vec<String>) -> (inherited: Vec<String>)
    ensures
        texts(inherited@) == texts(names@).filter(|name: Seq<char>| cargo_variable(name)),
{
    let mut inherited: Vec<String> = Vec::new();
    let ghost keeps = |name: Seq<char>| cargo_variable(name);
    let mut i: usize = 0;
    proof {
        reveal(Seq::filter);
        assert(texts(inherited@) =~= texts(names@).take(0).filter(keeps));
    }
    while i < names.len()
        invariant
            i <= names@.len(),
            keeps == (|name: Seq<char>| cargo_variable(name)),
            texts(inherited@) == texts(names@).take(i as int).filter(keeps),
        decreases names@.len() - i,
    {
        let ghost before = texts(inherited@);
        proof {
            reveal(Seq::filter);
            assert(texts(names@).take(i + 1).drop_last() =~= texts(names@).take(i as int));
            assert(texts(names@).take(i + 1).last() == names@[i as int]@);
        }
        if is_cargo_variable(names[i].as_str()) {
            inherited.push(names[i].clone());
            proof {
                assert(texts(inherited@) =~= before.push(names@[i as int]@));
            }
        }
        i += 1;
    }
    proof {
        assert(texts(names@).take(i as int) =~= texts(names@));
    }
    inherited
}

} // verus!
