//! The comparison of a direct execution with a legacy process.

use std::rc::Rc;

use incan_backend::body_ir::{
    BinOp, Block, Body, BodyIrModule, CallableParam, CallableParamDefault, ClosureBody, HirSourceSpan,
    IncanPrimitiveType, IncanType, LocalDecl, LocalId, LocalOrigin, Operand, OwnershipFact, Place, PlaceOperand, Rvalue, Statement,
    StatementKind,
};
use incan_backend::replacement::value::{ReplacementCallable, ReplacementValue};
use incan_backend::selection::{digest_output, CompatibilityProfile, SelectionReason, ShadowComparisonState};
use incan_backend::shadow::comparison::{
    assemble_comparison, observe_execution, observe_replacement_route, LegacyRouteResult, ReplacementRouteResult, RouteEvidence,
};
use incan_backend::shadow::frame::{decode_framed_result, RESULT_BEGIN_MARKER, RESULT_END_MARKER};
use incan_backend::shadow::observation::{
    classify_legacy_failure, classify_observations, classify_replacement_failure, observe_legacy_process,
    LegacyExecutionAuthority, RouteObservation, RuntimeFailureClass, SourceObservable,
};
use incan_backend::shadow::profile::{incan_string_literal, ShadowComparisonProfile};
use incan_backend::shadow::{
    ShadowUnavailable, PROGRAM_ENTRYPOINT_UNAVAILABLE_REASON, SHADOW_COMPARISON_PROFILE_ID,
};

fn profile() -> ShadowComparisonProfile {
    ShadowComparisonProfile::new(
        "def add(x: int, y: int) -> int:\n    return x + y\n",
        "add",
        vec![ReplacementValue::Int(40), ReplacementValue::Int(2)],
    )
}

fn authority() -> LegacyExecutionAuthority {
    LegacyExecutionAuthority {
        oven_receipt_identity: "sha256:oven-receipt".to_string(),
        oven_build_unit_identity: "sha256:build-unit".to_string(),
        direct_rustc_plan_identity: "sha256:plan".to_string(),
        output_digest: "sha256:output".to_string(),
        cargo_process_started: false,
    }
}

fn observation(profile_identity: &str, observable: SourceObservable, detail: &str) -> RouteObservation {
    RouteObservation {
        profile_kind: SHADOW_COMPARISON_PROFILE_ID.to_string(),
        profile_identity: profile_identity.to_string(),
        output_identity: digest_output(&["test", detail]),
        observable,
        detail: detail.to_string(),
    }
}

fn completed(result: &str) -> SourceObservable {
    SourceObservable::Completed {
        result: result.to_string(),
    }
}

fn framed(payload: &str) -> Vec<u8> {
    format!("{RESULT_BEGIN_MARKER}\n{payload}\n{RESULT_END_MARKER}\n").into_bytes()
}

fn span() -> HirSourceSpan {
    HirSourceSpan { start: 0, end: 1 }
}

fn parameter(name: &str, id: u32) -> CallableParam {
    CallableParam {
        name: name.to_string(),
        local: LocalId(id),
        default: CallableParamDefault::Required,
        span: span(),
    }
}

fn local(name: Option<&str>, id: u32, origin: LocalOrigin) -> LocalDecl {
    LocalDecl {
        id: LocalId(id),
        name: name.map(str::to_string),
        origin,
        ty: IncanType::Primitive(IncanPrimitiveType::Int),
        ty_text: "int".to_string(),
        span: span(),
    }
}

fn read(id: u32) -> Operand {
    Operand::Place(PlaceOperand {
        place: Place {
            local: LocalId(id),
            projection: Vec::new(),
        },
        fact: OwnershipFact::Copy,
        last_use: true,
    })
}

/// The body of `add(x, y)`, which returns the sum.
fn add_module() -> BodyIrModule {
    BodyIrModule {
        module_id: "module".to_string(),
        bodies: vec![Rc::new(Body {
            name: "add".to_string(),
            direct_call_id: "module.add".to_string(),
            span: span(),
            params: vec![parameter("x", 0), parameter("y", 1)],
            locals: vec![
                local(Some("x"), 0, LocalOrigin::Parameter),
                local(Some("y"), 1, LocalOrigin::Parameter),
                local(None, 2, LocalOrigin::Temporary),
            ],
            block: Block {
                stmts: Rc::new(vec![
                    Statement {
                        kind: StatementKind::Assign {
                            place: Place {
                                local: LocalId(2),
                                projection: Vec::new(),
                            },
                            rvalue: Rvalue::BinaryOp(BinOp::Add, read(0), read(1)),
                        },
                        span: span(),
                    },
                    Statement {
                        kind: StatementKind::Return { value: Some(read(2)) },
                        span: span(),
                    },
                ]),
            },
            is_async: false,
            yields: false,
            runtime_requirements: Vec::new(),
            snapshot: "body add".to_string(),
        })],
    }
}

/// The functions that the source declares.
fn declared(names: &[&str]) -> Result<Vec<String>, ShadowUnavailable> {
    Ok(names.iter().map(|name| name.to_string()).collect())
}

// ============================================================================
// Lossless transport
// ============================================================================

#[test]
fn a_framed_result_round_trips_exactly() -> Result<(), ShadowUnavailable> {
    assert_eq!(decode_framed_result(&framed("42"))?, "42");
    assert_eq!(decode_framed_result(&framed(""))?, "");
    assert_eq!(decode_framed_result(&framed("  padded  "))?, "  padded  ");
    Ok(())
}

#[test]
fn trailing_newlines_in_a_result_survive_transport() -> Result<(), ShadowUnavailable> {
    assert_eq!(decode_framed_result(&framed("x"))?, "x");
    assert_eq!(decode_framed_result(&framed("x\n"))?, "x\n");
    assert_eq!(decode_framed_result(&framed("\n"))?, "\n");
    assert_ne!(
        completed(&decode_framed_result(&framed("x"))?),
        completed(&decode_framed_result(&framed("x\n"))?)
    );
    Ok(())
}

#[test]
fn a_result_containing_the_end_marker_is_still_recovered_exactly() -> Result<(), ShadowUnavailable> {
    let payload = format!("before\n{RESULT_END_MARKER}\nafter");
    assert_eq!(decode_framed_result(&framed(&payload))?, payload);
    Ok(())
}

#[test]
fn unframed_output_is_unavailable_rather_than_guessed() {
    assert!(decode_framed_result(b"42\n").is_err());
    assert!(decode_framed_result(b"").is_err());
    assert!(decode_framed_result(format!("{RESULT_BEGIN_MARKER}\n42\n").as_bytes()).is_err());
    let mut leading_noise = b"unexpected\n".to_vec();
    leading_noise.extend_from_slice(&framed("42"));
    assert!(decode_framed_result(&leading_noise).is_err());
}

#[test]
fn a_non_utf8_result_is_unavailable_rather_than_lossily_converted() {
    let mut output = format!("{RESULT_BEGIN_MARKER}\n").into_bytes();
    output.push(0xFF);
    output.extend_from_slice(format!("\n{RESULT_END_MARKER}\n").as_bytes());
    assert!(decode_framed_result(&output).is_err());
}

#[test]
fn a_result_of_several_scripts_is_transported() -> Result<(), ShadowUnavailable> {
    assert_eq!(decode_framed_result(&framed("Grüße, 世界 🦀"))?, "Grüße, 世界 🦀");
    Ok(())
}

#[test]
fn the_generated_entrypoint_frames_the_observed_call() -> Result<(), ShadowUnavailable> {
    let program = profile().legacy_program_source(declared(&["add"]))?;
    assert!(program.contains("def add(x: int, y: int) -> int:"), "{program}");
    assert!(
        program.contains(&format!("println(\"{RESULT_BEGIN_MARKER}\")")),
        "{program}"
    );
    assert!(program.contains("println(add(40, 2))"), "{program}");
    assert!(
        program.contains(&format!("println(\"{RESULT_END_MARKER}\")")),
        "{program}"
    );
    Ok(())
}

// ============================================================================
// Classification
// ============================================================================

#[test]
fn agreeing_observations_record_the_profile_and_the_compared_value() {
    let state = classify_observations(
        &observation("sha256:profile", completed("42"), "legacy"),
        &observation("sha256:profile", completed("42"), "replacement"),
    );
    assert_eq!(
        state,
        ShadowComparisonState::Matched {
            profile_kind: SHADOW_COMPARISON_PROFILE_ID.to_string(),
            profile_identity: "sha256:profile".to_string(),
            observable: "completed(\"42\")".to_string(),
        }
    );
}

#[test]
fn differing_results_diverge_and_name_both_sides() {
    let state = classify_observations(
        &observation("sha256:profile", completed("42"), "legacy detail"),
        &observation("sha256:profile", completed("43"), "replacement detail"),
    );
    let ShadowComparisonState::Diverged {
        profile_kind,
        profile_identity,
        detail,
    } = state
    else {
        panic!("differing observables must diverge");
    };
    assert_eq!(profile_kind, SHADOW_COMPARISON_PROFILE_ID);
    assert_eq!(profile_identity, "sha256:profile");
    assert!(detail.contains("completed(\"42\")"), "{detail}");
    assert!(detail.contains("completed(\"43\")"), "{detail}");
}

#[test]
fn a_whitespace_only_difference_diverges_and_stays_visible_in_the_detail() {
    let state = classify_observations(
        &observation("sha256:profile", completed("x"), "legacy"),
        &observation("sha256:profile", completed("x\n"), "replacement"),
    );
    let ShadowComparisonState::Diverged { detail, .. } = state else {
        panic!("`x` and `x\\n` are different results and must diverge");
    };
    assert!(detail.contains(r#"completed("x")"#), "{detail}");
    assert!(detail.contains(r#"completed("x\n")"#), "{detail}");
}

#[test]
fn observations_of_different_profiles_are_never_compared() {
    let state = classify_observations(
        &observation("sha256:profile-a", completed("42"), "legacy"),
        &observation("sha256:profile-b", completed("43"), "replacement"),
    );
    let ShadowComparisonState::Unavailable { reason } = state else {
        panic!("cross-profile observations must not produce a comparison verdict");
    };
    assert!(reason.contains("different comparison profiles"), "{reason}");
}

#[test]
fn a_completed_result_never_matches_a_runtime_failure() {
    let state = classify_observations(
        &observation(
            "sha256:profile",
            SourceObservable::Failed {
                failure: RuntimeFailureClass::Assertion,
            },
            "legacy",
        ),
        &observation("sha256:profile", completed("0"), "replacement"),
    );
    assert!(matches!(state, ShadowComparisonState::Diverged { .. }));
}

#[test]
fn different_failure_classes_diverge_rather_than_agreeing_that_something_broke() {
    let state = classify_observations(
        &observation(
            "sha256:profile",
            SourceObservable::Failed {
                failure: RuntimeFailureClass::ArithmeticOverflow,
            },
            "legacy",
        ),
        &observation(
            "sha256:profile",
            SourceObservable::Failed {
                failure: RuntimeFailureClass::DivisionByZero,
            },
            "replacement",
        ),
    );
    assert!(matches!(state, ShadowComparisonState::Diverged { .. }));
}

#[test]
fn an_overflow_is_not_classified_as_a_division_by_zero() -> Result<(), ShadowUnavailable> {
    assert_eq!(
        classify_replacement_failure("integer division overflow")?,
        RuntimeFailureClass::ArithmeticOverflow
    );
    assert_eq!(
        classify_replacement_failure("division or modulo by zero")?,
        RuntimeFailureClass::DivisionByZero
    );
    assert_eq!(
        classify_legacy_failure("attempt to divide with overflow")?,
        RuntimeFailureClass::ArithmeticOverflow
    );
    assert_eq!(
        classify_legacy_failure("ZeroDivisionError: division by zero")?,
        RuntimeFailureClass::DivisionByZero
    );
    Ok(())
}

#[test]
fn capitals_do_not_matter_for_a_classification() -> Result<(), ShadowUnavailable> {
    assert_eq!(
        classify_legacy_failure("ATTEMPT TO DIVIDE WITH OVERFLOW")?,
        RuntimeFailureClass::ArithmeticOverflow
    );
    Ok(())
}

#[test]
fn an_unclassifiable_failure_stays_unavailable_on_both_routes() {
    assert!(classify_legacy_failure("Segmentation fault").is_err());
    assert!(classify_replacement_failure("something went wrong").is_err());
}

#[test]
fn a_failing_legacy_exit_is_never_read_as_a_result() {
    let observed = observe_legacy_process(
        SHADOW_COMPARISON_PROFILE_ID,
        "sha256:profile",
        &authority(),
        Some(101),
        &framed("42"),
        "",
    );
    assert!(
        observed.is_err(),
        "an unclassifiable failing exit must not yield a result"
    );
}

#[test]
fn the_legacy_output_identity_covers_its_oven_authority() -> Result<(), ShadowUnavailable> {
    let baseline = observe_legacy_process(
        SHADOW_COMPARISON_PROFILE_ID,
        "sha256:profile",
        &authority(),
        Some(0),
        &framed("42"),
        "",
    )?;
    let mut other_plan = authority();
    other_plan.direct_rustc_plan_identity = "sha256:different-plan".to_string();
    let under_other_plan = observe_legacy_process(
        SHADOW_COMPARISON_PROFILE_ID,
        "sha256:profile",
        &other_plan,
        Some(0),
        &framed("42"),
        "",
    )?;
    assert_eq!(baseline.observable, under_other_plan.observable);
    assert_ne!(
        baseline.output_identity, under_other_plan.output_identity,
        "the same observed result under a different Oven authority is different evidence"
    );
    Ok(())
}

// ============================================================================
// Partial evidence
// ============================================================================

#[test]
fn an_executed_replacement_route_survives_an_unavailable_legacy_route() -> Result<(), String> {
    let profile = profile();
    let module = add_module();
    let replacement = observe_replacement_route(&profile, Ok(&module))
        .map_err(|unavailable| unavailable.reason)?;
    let comparison = assemble_comparison(
        &profile,
        Ok(replacement),
        Err(ShadowUnavailable::new("no Oven plan is staged".to_string())),
    );

    let reason = comparison
        .unavailable_reason()
        .ok_or("a missing legacy route must record an unavailable comparison")?;
    assert!(reason.contains("no Oven plan is staged"), "{reason}");
    assert!(!comparison.matched());
    assert!(comparison.legacy.is_none(), "the legacy route did not execute");

    let replacement_evidence = comparison
        .replacement
        .as_ref()
        .ok_or("an executed replacement route must keep its receipt")?;
    let replacement_receipt = replacement_evidence.receipt()?;
    replacement_receipt.verify_identity().map_err(|error| error.message())?;
    assert_eq!(replacement_receipt.shadow_comparison, comparison.state);
    assert_eq!(
        replacement_evidence.observation.observable,
        completed("42"),
        "the retained observation must be the one that was really executed"
    );
    let execution = comparison
        .replacement_execution
        .as_ref()
        .ok_or("an executed replacement route must keep its Body-IR execution")?;
    assert_eq!(execution.value, ReplacementValue::Int(42));
    assert_eq!(execution.body_snapshot, "body add");
    Ok(())
}

#[test]
fn an_execution_that_does_not_settle_is_unavailable() -> Result<(), String> {
    let profile = ShadowComparisonProfile::new(
        "def add(x: int, y: int) -> int:\n    return x + y\n",
        "add",
        vec![ReplacementValue::Int(i64::MAX), ReplacementValue::Int(1)],
    );
    let Err(unavailable) = observe_replacement_route(&profile, Ok(&add_module())) else {
        return Err("an overflow must not be observed as a result".to_string());
    };
    assert_eq!(
        unavailable.reason,
        "the replacement route did not settle: an integer left its range or calls nested too deeply"
    );
    Ok(())
}

#[test]
fn an_execution_that_printed_is_not_compared() -> Result<(), String> {
    let profile = profile();
    let module = add_module();
    let execution = observe_replacement_route(&profile, Ok(&module))
        .map_err(|unavailable| unavailable.reason)?
        .execution
        .ok_or("a completed execution is kept")?;
    let Err(unavailable) = observe_execution(&profile, Ok(execution.clone()), 2) else {
        return Err("printed lines must stop the comparison".to_string());
    };
    assert!(unavailable.reason.starts_with(
        "the replacement route emitted 2 line(s) of program output, which this profile cannot compare: the legacy"
    ));
    assert!(observe_execution(&profile, Ok(execution), 0).is_ok());
    Ok(())
}

#[test]
fn descriptions_tell_observables_apart() {
    let all = [
        completed("x"),
        completed("x\n"),
        completed("failed(division-by-zero)"),
        SourceObservable::Failed {
            failure: RuntimeFailureClass::Assertion,
        },
        SourceObservable::Failed {
            failure: RuntimeFailureClass::DivisionByZero,
        },
        SourceObservable::Failed {
            failure: RuntimeFailureClass::ArithmeticOverflow,
        },
    ];
    for a in &all {
        assert!(!a.describe().contains('\n'));
        for b in &all {
            assert_eq!(a.describe() == b.describe(), a == b);
        }
    }
    assert_eq!(completed("x\n").describe(), "completed(\"x\\n\")");
}

#[test]
fn receipts_of_routes_are_explicit_requests() -> Result<(), String> {
    let profile = profile();
    let module = add_module();
    let replacement = observe_replacement_route(&profile, Ok(&module)).map_err(|unavailable| unavailable.reason)?;
    let comparison = assemble_comparison(
        &profile,
        Ok(replacement),
        Err(ShadowUnavailable::new("not staged".to_string())),
    );
    let evidence = comparison.replacement.as_ref().ok_or("the route executed")?;
    let receipt = evidence.receipt()?;
    assert_eq!(receipt.selection.selection_reason, SelectionReason::ExplicitRequest);
    assert_eq!(receipt.selection.implementation_revision, 0);
    assert_eq!(receipt.selection.compatibility_profile, CompatibilityProfile::Partial);
    assert_eq!(receipt.compiler_version, "0.6.0");
    Ok(())
}

#[test]
fn agreeing_routes_match() -> Result<(), String> {
    let profile = profile();
    let module = add_module();
    let replacement: ReplacementRouteResult = observe_replacement_route(&profile, Ok(&module))
        .map_err(|unavailable| unavailable.reason)?;
    let observed = observe_legacy_process(
        profile.profile_kind(),
        &profile.profile_identity(),
        &authority(),
        Some(0),
        &framed("42"),
        "",
    )
    .map_err(|unavailable| unavailable.reason)?;
    let comparison = assemble_comparison(
        &profile,
        Ok(replacement),
        Ok(LegacyRouteResult {
            observation: observed,
            authority: authority(),
        }),
    );
    assert!(comparison.matched());
    assert!(comparison.unavailable_reason().is_none());
    assert_eq!(comparison.legacy_authority, Some(authority()));
    let legacy = comparison.legacy.as_ref().ok_or("the legacy route ran")?;
    assert_eq!(legacy.receipt()?.shadow_comparison, comparison.state);
    Ok(())
}

#[test]
fn an_executed_route_without_a_receipt_reports_that_rather_than_vanishing() {
    let evidence = RouteEvidence {
        receipt: None,
        observation: observation("sha256:profile", completed("42"), "legacy"),
    };
    let Err(reason) = evidence.receipt() else {
        panic!("an evidence entry with no receipt must not report one");
    };
    assert!(reason.contains("could not be finalized"), "{reason}");
    assert_eq!(
        evidence.observation.observable,
        completed("42"),
        "the observation must survive a missing receipt"
    );
}

#[test]
fn a_comparison_with_no_executed_route_keeps_no_receipts() {
    let comparison = assemble_comparison(
        &profile(),
        Err(ShadowUnavailable::new("replacement refused".to_string())),
        Err(ShadowUnavailable::new("legacy unstaged".to_string())),
    );
    let Some(reason) = comparison.unavailable_reason() else {
        panic!("two failed routes must record an unavailable comparison");
    };
    assert!(reason.contains("replacement refused"), "{reason}");
    assert!(reason.contains("legacy unstaged"), "{reason}");
    assert!(comparison.legacy.is_none());
    assert!(comparison.replacement.is_none());
    assert!(comparison.legacy_authority.is_none());
}

// ============================================================================
// Profile boundaries
// ============================================================================

#[test]
fn observing_a_program_entrypoint_is_outside_the_profile() {
    let profile = ShadowComparisonProfile::new("def main() -> int:\n    return 42\n", "main", vec![]);
    let Err(unavailable) = profile.legacy_program_source(declared(&["main"])) else {
        panic!("a `main` observation must be refused");
    };
    assert_eq!(unavailable.reason, PROGRAM_ENTRYPOINT_UNAVAILABLE_REASON);
}

#[test]
fn a_non_scalar_argument_is_refused_rather_than_guessed() {
    let profile = ShadowComparisonProfile::new(
        "def echo(value: int) -> int:\n    return value\n",
        "echo",
        vec![ReplacementValue::Tuple(vec![ReplacementValue::Int(1)])],
    );
    let Err(unavailable) = profile.legacy_program_source(declared(&["echo"])) else {
        panic!("a tuple argument has no source literal and must be refused");
    };
    assert!(unavailable.reason.contains("source literals"), "{}", unavailable.reason);
}

#[test]
fn string_arguments_are_escaped_into_incan_literals() -> Result<(), ShadowUnavailable> {
    let profile = ShadowComparisonProfile::new(
        "def greet(name: str) -> str:\n    return \"hello, \" + name\n",
        "greet",
        vec![ReplacementValue::Str("A\"da\\".to_string())],
    );
    let program = profile.legacy_program_source(declared(&["greet"]))?;
    assert!(program.contains(r#"println(greet("A\"da\\"))"#), "{program}");
    Ok(())
}

#[test]
fn an_undeclared_function_is_refused() {
    let Err(unavailable) = profile().legacy_program_source(declared(&["other"])) else {
        panic!("a function that the source does not declare must be refused");
    };
    assert!(unavailable.reason.contains("`add` is absent"), "{}", unavailable.reason);
}

#[test]
fn literals_stay_on_one_line() -> Result<(), ShadowUnavailable> {
    let literal = incan_string_literal("a\nb\t\"c\"")?;
    assert!(!literal.contains('\n'), "{literal}");
    assert_ne!(literal, incan_string_literal("a\nb\t'c'")?);
    Ok(())
}

#[test]
fn profiles_are_told_apart() {
    let with = |function: &str, arguments: Vec<ReplacementValue>| {
        ShadowComparisonProfile::new("def f() -> int:\n    return 1\n", function, arguments).profile_identity()
    };
    let text = |value: &str| ReplacementValue::Str(value.to_string());
    let identities = [
        with("f", vec![]),
        with("g", vec![]),
        with("f", vec![ReplacementValue::Int(1)]),
        with("f", vec![text("1")]),
        with("f", vec![text("a, b")]),
        with("f", vec![text("a"), text("b")]),
        with("f", vec![text("a\", \"b")]),
        with("f", vec![ReplacementValue::Bool(true)]),
        with("f", vec![text("true")]),
        with("f", vec![ReplacementValue::Unit]),
    ];
    for (i, identity) in identities.iter().enumerate() {
        assert!(!identities[..i].contains(identity), "the identity of case {i} is not its own");
    }
}

#[test]
fn refused_arguments_are_named() {
    let profile = ShadowComparisonProfile::new(
        "def echo(value: int) -> int:\n    return value\n",
        "echo",
        vec![ReplacementValue::List {
            elements: vec![
                ReplacementValue::Tuple(vec![ReplacementValue::Int(-1), ReplacementValue::Unit]),
                ReplacementValue::Float("1.5".to_string()),
            ],
            next: 2,
        }],
    );
    let Err(unavailable) = profile.legacy_program_source(declared(&["echo"])) else {
        panic!("a list has no source literal");
    };
    assert_eq!(
        unavailable.reason,
        "the bounded source-observable comparison profile can only pass `int`, `bool`, and `str` arguments as source \
         literals; got List { elements: [Tuple([Int(-1), Unit]), Float(\"1.5\")], next: 2 }"
    );
}

#[test]
fn refused_callables_are_spelled_out() {
    let argument = ReplacementValue::Callable(Box::new(ReplacementCallable {
        params: Rc::new(Vec::new()),
        captures: vec![(LocalId(0), ReplacementValue::Bool(true))],
        body: Rc::new(ClosureBody {
            capture_locals: vec![LocalId(0)],
            stmts: Vec::new(),
            result: read(0),
        }),
    }));
    let profile = ShadowComparisonProfile::new(
        "def echo(value: int) -> int:\n    return value\n",
        "echo",
        vec![argument],
    );
    let Err(unavailable) = profile.legacy_program_source(declared(&["echo"])) else {
        panic!("a callable has no source literal");
    };
    assert!(
        unavailable.reason.ends_with(
            "; got Callable(ReplacementCallable { params: [], captures: [(LocalId(0), Bool(true))], body: ClosureBody \
             { capture_locals: [LocalId(0)], stmts: [], result: Place(PlaceOperand { place: Place { local: \
             LocalId(0), projection: [] }, fact: Copy, last_use: true }) } })"
        ),
        "{}",
        unavailable.reason
    );
}

#[test]
fn control_characters_have_no_literal() {
    let Err(unavailable) = incan_string_literal("a\u{1}b") else {
        panic!("a control character cannot be spelled");
    };
    assert!(unavailable.reason.contains("U+0001"), "{}", unavailable.reason);
}

#[test]
fn arguments_are_part_of_the_profile_identity() {
    let source = "def add(x: int, y: int) -> int:\n    return x + y\n";
    let first = ShadowComparisonProfile::new(source, "add", vec![ReplacementValue::Int(40), ReplacementValue::Int(2)]);
    let second = ShadowComparisonProfile::new(source, "add", vec![ReplacementValue::Int(40), ReplacementValue::Int(3)]);
    assert_ne!(first.profile_identity(), second.profile_identity());
    assert_eq!(
        first.source_identity(),
        second.source_identity(),
        "the same module must keep one source identity across argument lists"
    );
}
