//! The legacy route and its provider context.

use incan_backend::replacement::value::ReplacementValue;
use incan_backend::selection::digest_output;
use incan_backend::shadow::frame::{RESULT_BEGIN_MARKER, RESULT_END_MARKER};
use incan_backend::shadow::legacy_oven::{
    advance_legacy_route, inherited_cargo_variables, is_cargo_variable, BakedProgram, EmissionFailure,
    FinishedProcess, LegacyAction, LegacyEvent, LegacyOvenCapability, LegacyRouteState, LegacyStep, OvenBuildIntent,
    OvenReceipt, ReceiptReading, WriteFailure,
};
use incan_backend::shadow::observation::SourceObservable;
use incan_backend::shadow::profile::ShadowComparisonProfile;
use incan_backend::shadow::support::{
    canonical_oven_build_unit_inputs, native_imports, prepare_shadow_legacy_materialization, refuse_publication_mode,
    require_materializable_provider_plan, CollectedModule, ContextFailure, InputsAction, InputsEvent, InputsStage, InputsStep,
    PreparationAction, PreparationEvent, PreparationState, PreparationStep, ProviderPlan,
};

fn profile() -> ShadowComparisonProfile {
    ShadowComparisonProfile::new(
        "def echo(x: int) -> int:\n    return x\n",
        "echo",
        vec![ReplacementValue::Int(7)],
    )
}

fn perform(state: LegacyRouteState, event: LegacyEvent) -> (LegacyRouteState, LegacyAction) {
    match advance_legacy_route(&profile(), state, event) {
        LegacyStep::Perform(state, action) => (state, action),
        other => panic!("unexpected step {other:?}"),
    }
}

fn reason(state: LegacyRouteState, event: LegacyEvent) -> String {
    match advance_legacy_route(&profile(), state, event) {
        LegacyStep::Finished(Err(unavailable)) => unavailable.reason,
        other => panic!("unexpected step {other:?}"),
    }
}

fn baking() -> LegacyRouteState {
    LegacyRouteState::Baking {
        receipt_identity: "receipt".to_string(),
        build_unit_identity: "unit".to_string(),
        plan_identity: "plan".to_string(),
    }
}

fn baked(cargo_process_started: bool) -> LegacyEvent {
    LegacyEvent::Baked(Ok(BakedProgram {
        program: "bin/program".to_string(),
        output_digest: "sha256:digest".to_string(),
        cargo_process_started,
    }))
}

#[test]
fn the_route_goes_from_source_to_observation() {
    let (state, action) = perform(LegacyRouteState::Emitting, LegacyEvent::Emitted(Ok("fn main() {}".to_string())));
    assert!(matches!(&action, LegacyAction::WriteSource(rust) if rust == "fn main() {}"));
    let (state, action) = perform(state, LegacyEvent::Written(Ok(())));
    assert!(matches!(action, LegacyAction::MakeReceipt));
    let (state, action) = perform(
        state,
        LegacyEvent::Receipted(Ok(("receipt".to_string(), "unit".to_string()))),
    );
    assert!(matches!(action, LegacyAction::SelectPlan));
    let (state, action) = perform(state, LegacyEvent::Selected(Ok(Some("plan".to_string()))));
    assert!(matches!(&action, LegacyAction::Bake(plan) if plan == "plan"));
    let (state, action) = perform(state, baked(false));
    assert!(matches!(&action, LegacyAction::Run(program) if program == "bin/program"));
    let ran = LegacyEvent::Ran(Ok(FinishedProcess {
        exit_code: Some(0),
        stdout: format!("{RESULT_BEGIN_MARKER}\n7\n{RESULT_END_MARKER}\n").into_bytes(),
        stderr: Vec::new(),
    }));
    let LegacyStep::Finished(Ok(result)) = advance_legacy_route(&profile(), state, ran) else {
        panic!("the finished process must be observed");
    };
    assert_eq!(
        result.observation.observable,
        SourceObservable::Completed {
            result: "7".to_string()
        }
    );
    assert_eq!(result.observation.profile_identity, profile().profile_identity());
    assert_eq!(result.authority.direct_rustc_plan_identity, "plan");
    assert_eq!(result.authority.output_digest, "sha256:digest");
}

#[test]
fn cargo_builds_are_refused() {
    assert_eq!(
        reason(baking(), baked(true)),
        "a Cargo process participated in the legacy build, so the result is not Oven-owned execution evidence"
    );
}

#[test]
fn every_failure_has_its_reason() {
    assert_eq!(
        reason(
            LegacyRouteState::Emitting,
            LegacyEvent::Emitted(Err(EmissionFailure::Typecheck("[e]".to_string())))
        ),
        "the legacy program did not typecheck: [e]"
    );
    assert_eq!(
        reason(
            LegacyRouteState::Emitting,
            LegacyEvent::Emitted(Err(EmissionFailure::Emit("[e]".to_string())))
        ),
        "the legacy backend could not emit Rust: [e]"
    );
    assert_eq!(
        reason(
            LegacyRouteState::Writing,
            LegacyEvent::Written(Err(WriteFailure::NoParent("x.rs".to_string())))
        ),
        "the legacy route's generated source path x.rs has no parent directory"
    );
    assert_eq!(
        reason(LegacyRouteState::Receipting, LegacyEvent::Receipted(Err("full".to_string()))),
        "the legacy route could not receipt its generated source through Oven: full"
    );
    let selecting = || LegacyRouteState::Selecting {
        receipt_identity: "receipt".to_string(),
        build_unit_identity: "unit".to_string(),
    };
    assert!(reason(selecting(), LegacyEvent::Selected(Ok(None)))
        .starts_with("no immutable Oven direct-rustc plan is staged for build unit unit; bake"));
    assert!(reason(selecting(), LegacyEvent::Selected(Err("io".to_string()))).ends_with("plan: io"));
    assert!(reason(baking(), LegacyEvent::Baked(Err("rustc".to_string()))).ends_with("never observed: rustc"));
}

#[test]
fn events_out_of_turn_change_nothing() {
    let step = advance_legacy_route(&profile(), LegacyRouteState::Emitting, LegacyEvent::Written(Ok(())));
    assert!(matches!(step, LegacyStep::Unexpected(LegacyRouteState::Emitting)));
}

#[test]
fn complaints_are_trimmed_and_read_as_text() {
    let (state, _) = perform(baking(), baked(false));
    let step = advance_legacy_route(
        &profile(),
        state,
        LegacyEvent::Ran(Ok(FinishedProcess {
            exit_code: Some(101),
            stdout: Vec::new(),
            stderr: b"  \n\xFFattempt to divide with overflow\n ".to_vec(),
        })),
    );
    let LegacyStep::Finished(Ok(result)) = step else {
        panic!("a classified failure must be observed");
    };
    assert!(
        result
            .observation
            .detail
            .ends_with("stderr: \"\u{FFFD}attempt to divide with overflow\""),
        "{}",
        result.observation.detail
    );
}

fn receipt() -> OvenReceipt {
    OvenReceipt {
        identity: "sha256:receipt".to_string(),
        build_unit_identity: "sha256:unit".to_string(),
        project_version: "0.1.0".to_string(),
        intent: OvenBuildIntent {
            target: "x86_64".to_string(),
            toolchain: "stable".to_string(),
            profile: "release".to_string(),
            features: vec!["std".to_string()],
        },
        build_unit_inputs: vec![("key".to_string(), "value".to_string())],
    }
}

#[test]
fn receipts_are_adopted_once_verified() {
    let Ok(capability) =
        LegacyOvenCapability::adopt_baked_project("store", "rustc", "r.json", ReceiptReading::Verified(receipt()))
    else {
        panic!("a verified receipt must be adopted");
    };
    assert_eq!(capability.adopted_receipt(), &receipt());
    assert_eq!(capability.intent().target, "x86_64");
    let request = capability.receipt_for_generated_source();
    assert_eq!(request.project_name, "incan-shadow-comparison");
    assert_eq!(request.source_evidence_key, "generated-root");
    assert_eq!(request.intent, receipt().intent);
    assert_eq!(request.build_unit_inputs, receipt().build_unit_inputs);
    for (reading, expected) in [
        (
            ReceiptReading::Unreadable("gone".to_string()),
            "the legacy route has no Oven authority: cannot read r.json: gone",
        ),
        (
            ReceiptReading::Unparsable("eof".to_string()),
            "the legacy route's Oven receipt r.json could not be parsed: eof",
        ),
        (
            ReceiptReading::Unverified("digest".to_string()),
            "the legacy route's Oven receipt r.json failed identity verification: digest",
        ),
    ] {
        let Err(unavailable) = LegacyOvenCapability::adopt_baked_project("store", "rustc", "r.json", reading) else {
            panic!("a receipt that was not verified must be refused");
        };
        assert_eq!(unavailable.reason, expected);
    }
}

#[test]
fn every_variable_must_be_set() {
    let set = |text: &str| Some(text.to_string());
    let Ok(paths) = LegacyOvenCapability::from_environment(set("home"), set("receipt"), set("rustc")) else {
        panic!("all variables are set");
    };
    assert_eq!(paths.incan_home, "home");
    assert_eq!(paths.receipt, "receipt");
    assert_eq!(paths.rustc, "rustc");
    let Err(unavailable) = LegacyOvenCapability::from_environment(set("home"), set(""), None) else {
        panic!("an empty variable is unset");
    };
    assert!(
        unavailable
            .reason
            .starts_with("the legacy comparison route is not staged: INCAN_SHADOW_OVEN_RECEIPT is unset; it must name the"),
        "{}",
        unavailable.reason
    );
}

#[test]
fn cargo_variables_are_not_inherited() {
    assert!(is_cargo_variable("CARGO"));
    assert!(is_cargo_variable("CARGO_HOME"));
    assert!(!is_cargo_variable("CARGOES"));
    let names = ["PATH", "CARGO_PKG_NAME", "HOME", "CARGO"].map(str::to_string).to_vec();
    assert_eq!(inherited_cargo_variables(&names), ["CARGO_PKG_NAME", "CARGO"]);
}

fn go_on(entry: &str, state: PreparationState, event: PreparationEvent) -> (PreparationState, PreparationAction) {
    match prepare_shadow_legacy_materialization(entry, state, event) {
        PreparationStep::Perform(state, action) => (state, action),
        other => panic!("unexpected step {other:?}"),
    }
}

fn reason_of(entry: &str, state: PreparationState, event: PreparationEvent) -> String {
    match prepare_shadow_legacy_materialization(entry, state, event) {
        PreparationStep::Finished(Err(unavailable)) => unavailable.reason,
        other => panic!("unexpected step {other:?}"),
    }
}

#[test]
fn missing_source_context_is_unavailable() {
    let entry = "missing-shadow-source.incn";
    let (state, action) = go_on(entry, PreparationState::Starting, PreparationEvent::Started(None));
    assert!(matches!(action, PreparationAction::Discover));
    let reason = reason_of(entry, state, PreparationEvent::Discovered(Err("no such file".to_string())));
    assert!(reason.contains("legacy comparison provider context"));
    assert_eq!(
        reason,
        "the legacy comparison provider context is unavailable for missing-shadow-source.incn: no such file"
    );
}

#[test]
fn empty_provider_plan_cannot_prepare_legacy_materialization() {
    let plan = ProviderPlan {
        not_ready: None,
        sdk_link_roots: Vec::new(),
    };
    let Err(unavailable) = require_materializable_provider_plan(&plan, "shadow-profile.incn") else {
        panic!("an empty provider plan must not materialize legacy generated Rust");
    };
    assert!(unavailable.reason.contains("no compiled SDK link root"));
}

fn module(path: &str, source: &str, crates: &[&str]) -> CollectedModule {
    CollectedModule {
        path: path.to_string(),
        source: source.to_string(),
        crates: crates.iter().map(|name| name.to_string()).collect(),
    }
}

fn linked_plan() -> ProviderPlan {
    ProviderPlan {
        not_ready: None,
        sdk_link_roots: vec!["sdk".to_string()],
    }
}

fn planning() -> PreparationState {
    PreparationState::Planning {
        entry_source_identity: "identity".to_string(),
        crates: Vec::new(),
    }
}

#[test]
fn complete_contexts_are_prepared() {
    let entry = "main.incn";
    let (state, _) = go_on(entry, PreparationState::Starting, PreparationEvent::Started(Some("0".to_string())));
    let (state, action) = go_on(entry, state, PreparationEvent::Discovered(Ok(())));
    assert!(matches!(action, PreparationAction::Collect));
    let modules = vec![
        module("/src/helper.incn", "def help() -> None:\n    pass\n", &["std", "rand"]),
        module("/src/main.incn", "def main() -> None:\n    pass\n", &["incan_stdlib", "time"]),
    ];
    let (state, action) = go_on(
        entry,
        state,
        PreparationEvent::Collected("/src/main.incn".to_string(), Ok(modules)),
    );
    assert!(matches!(action, PreparationAction::ResolvePlan));
    let (state, action) = go_on(entry, state, PreparationEvent::Planned(Ok(linked_plan())));
    assert!(matches!(action, PreparationAction::Inputs(InputsAction::CollectRequirements)));
    let (state, action) = go_on(entry, state, PreparationEvent::Inputs(InputsEvent::Required(Ok(()))));
    assert!(matches!(action, PreparationAction::Inputs(InputsAction::ExtendRequirements)));
    let (state, action) = go_on(entry, state, PreparationEvent::Inputs(InputsEvent::Extended(Ok(()))));
    let PreparationAction::Inputs(InputsAction::ResolveDependencies(crates)) = action else {
        panic!("dependencies are resolved next");
    };
    assert_eq!(crates, ["rand", "time"]);
    let (state, action) = go_on(entry, state, PreparationEvent::Inputs(InputsEvent::Resolved(Ok(()))));
    assert!(matches!(action, PreparationAction::Inputs(InputsAction::MergeRequirements)));
    let (state, action) = go_on(entry, state, PreparationEvent::Inputs(InputsEvent::Merged(Ok(()))));
    assert!(matches!(action, PreparationAction::Inputs(InputsAction::DeriveInputs)));
    let inputs = vec![("a".to_string(), "b".to_string())];
    let step = prepare_shadow_legacy_materialization(
        entry,
        state,
        PreparationEvent::Inputs(InputsEvent::Derived(Ok(inputs.clone()))),
    );
    let PreparationStep::Finished(Ok(prepared)) = step else {
        panic!("a complete context must be prepared");
    };
    assert_eq!(
        prepared.entry_source_identity,
        digest_output(&["def main() -> None:\n    pass\n"])
    );
    assert_eq!(prepared.provider_plan.sdk_link_roots, ["sdk"]);
    assert_eq!(prepared.oven_build_unit_inputs, inputs);
}

#[test]
fn incomplete_contexts_say_what_is_missing() {
    let entry = "main.incn";
    assert!(reason_of(entry, PreparationState::Starting, PreparationEvent::Started(Some("1".to_string())))
        .contains("refuses explicit Oven Loaf publication mode"));
    assert_eq!(
        reason_of(
            entry,
            PreparationState::Collecting,
            PreparationEvent::Collected("/main.incn".to_string(), Err("cycle".to_string())),
        ),
        "the legacy comparison provider context could not collect main.incn: cycle"
    );
    assert_eq!(
        reason_of(
            entry,
            PreparationState::Collecting,
            PreparationEvent::Collected("/main.incn".to_string(), Ok(vec![module("/other.incn", "", &[])])),
        ),
        "the legacy comparison provider context did not collect its entry source main.incn"
    );
    assert_eq!(
        reason_of(entry, planning(), PreparationEvent::Planned(Err("no inventory".to_string()))),
        "the legacy comparison provider context could not resolve main.incn: no inventory"
    );
    let unready = ProviderPlan {
        not_ready: Some("stale".to_string()),
        sdk_link_roots: vec!["sdk".to_string()],
    };
    assert_eq!(
        reason_of(entry, planning(), PreparationEvent::Planned(Ok(unready))),
        "the legacy comparison provider context is not compilation-ready for main.incn: stale"
    );
    let deriving = PreparationState::Deriving {
        entry_source_identity: "identity".to_string(),
        crates: Vec::new(),
        provider_plan: linked_plan(),
        stage: InputsStage::Merging,
    };
    assert_eq!(
        reason_of(
            entry,
            deriving,
            PreparationEvent::Inputs(InputsEvent::Merged(Err("conflict".to_string()))),
        ),
        "the legacy comparison provider context could not merge native requirements: conflict"
    );
    let step = prepare_shadow_legacy_materialization(
        entry,
        PreparationState::Starting,
        PreparationEvent::Discovered(Ok(())),
    );
    assert!(matches!(step, PreparationStep::Unexpected(PreparationState::Starting)));
}

#[test]
fn no_reply_is_skipped() {
    let derived = || InputsEvent::Derived(Ok(Vec::new()));
    for stage in [
        InputsStage::Requiring,
        InputsStage::Extending,
        InputsStage::Resolving,
        InputsStage::Merging,
    ] {
        assert!(matches!(
            canonical_oven_build_unit_inputs(&Vec::new(), stage, derived()),
            InputsStep::Unexpected
        ));
    }
    assert!(matches!(
        canonical_oven_build_unit_inputs(&Vec::new(), InputsStage::Deriving, derived()),
        InputsStep::Derived(_)
    ));
    let (state, _) = go_on("main.incn", planning(), PreparationEvent::Planned(Ok(linked_plan())));
    let step = prepare_shadow_legacy_materialization("main.incn", state, PreparationEvent::Inputs(derived()));
    assert!(matches!(
        step,
        PreparationStep::Unexpected(PreparationState::Deriving {
            stage: InputsStage::Requiring,
            ..
        })
    ));
}

#[test]
fn failed_inputs_are_told_apart() {
    let failed = |stage: InputsStage, event: InputsEvent| match canonical_oven_build_unit_inputs(
        &Vec::new(),
        stage,
        event,
    ) {
        InputsStep::Failed(failure) => failure.unavailable("main.incn").reason,
        other => panic!("unexpected step {other:?}"),
    };
    let error = || "broken".to_string();
    let prefix = "the legacy comparison provider context could not ";
    assert_eq!(
        failed(InputsStage::Requiring, InputsEvent::Required(Err(error()))),
        format!("{prefix}collect native requirements: broken")
    );
    assert_eq!(
        failed(InputsStage::Extending, InputsEvent::Extended(Err(error()))),
        format!("{prefix}extend native requirements: broken")
    );
    assert_eq!(
        failed(InputsStage::Resolving, InputsEvent::Resolved(Err(vec![error()]))),
        format!("{prefix}resolve native dependencies: broken")
    );
    assert_eq!(
        failed(InputsStage::Deriving, InputsEvent::Derived(Err(error()))),
        format!("{prefix}derive native build inputs: broken")
    );
}

#[test]
fn dependency_errors_are_joined_and_trimmed() {
    let failure = ContextFailure::Dependencies(vec!["first\n".to_string(), "second\n\n".to_string()]);
    assert_eq!(
        failure.unavailable("main.incn").reason,
        "the legacy comparison provider context could not resolve native dependencies: first\nsecond"
    );
}

#[test]
fn publication_is_refused() {
    assert!(refuse_publication_mode(Some("1".to_string())).is_err());
    assert!(refuse_publication_mode(Some("0".to_string())).is_ok());
    assert!(refuse_publication_mode(None).is_ok());
}

#[test]
fn own_crates_are_no_native_imports() {
    let crates = ["rand", "std", "incan_stdlib", "time"].map(str::to_string).to_vec();
    assert_eq!(native_imports(&crates), ["rand", "time"]);
}
