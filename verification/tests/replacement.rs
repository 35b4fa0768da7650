//! Direct execution of Body IR.

use std::rc::Rc;

use incan_backend::body_ir::{
    AbiV0RuntimeRequirement, AggregateKind, ArgumentBinding, ArgumentElement, BinOp, Block, Body, BodyIrModule,
    BoundArgument, CallableParam, CallableParamDefault, CallableTarget, Callee, ClosureBody, CollectionTypeId,
    Constant, DefaultComputation, GeneratorBody, HelperOp, HirSourceSpan, IncanPrimitiveType, IncanType, IterProtocol,
    LocalCallableTarget, LocalDecl, LocalId, LocalOrigin, MatchArm, MethodTarget, NamedCallableTarget, Operand,
    OwnershipFact, Place, PlaceElem, PlaceOperand, ProviderOperation, ProviderOperationPlan, RaceArm, Rvalue,
    Statement, StatementKind, UnOp,
};
use incan_backend::likeness::are_alike_statements;
use incan_backend::replacement::compatibility::replacement_compatibility_direct_execution_contribution;
use incan_backend::replacement::equality::is_equal_value;
use incan_backend::replacement::error::ReplacementExecutionError;
use incan_backend::replacement::execute::{
    python_floor_div_i64, python_mod_i64, BodyExecutor, ExecutionStop, Flow,
};
use incan_backend::replacement::admission::prepare_free_function_execution;
use incan_backend::replacement::free_function::{
    attempt_free_function, execute_free_function, execute_prevalidated_free_function, ReplacementExecution,
};
use incan_backend::replacement::hashed::{HashedKey, ReplacementDict, ReplacementSet};
use incan_backend::replacement::provider_preflight::{validate, ProviderRuntime};
use incan_backend::replacement::semantics::MAX_EXECUTION_STEPS;
use incan_backend::replacement::value::{
    GeneratorCursor, GeneratorFrame, Locals, ReplacementAdapter, ReplacementAdapterKind, ReplacementCallable,
    ReplacementGenerator, ReplacementValue,
};
use incan_backend::spelling::{spell_body, spell_statements};

fn span() -> HirSourceSpan {
    HirSourceSpan { start: 0, end: 1 }
}

fn place(id: u32) -> Place {
    Place {
        local: LocalId(id),
        projection: Vec::new(),
    }
}

fn read(id: u32) -> Operand {
    Operand::Place(PlaceOperand {
        place: place(id),
        fact: OwnershipFact::Copy,
        last_use: false,
    })
}

fn consume(id: u32) -> Operand {
    Operand::Place(PlaceOperand {
        place: place(id),
        fact: OwnershipFact::Move,
        last_use: true,
    })
}

fn number(value: i64) -> Operand {
    Operand::Constant(Constant::Int(value))
}

fn flag(value: bool) -> Operand {
    Operand::Constant(Constant::Bool(value))
}

fn text(value: &str) -> Operand {
    Operand::Constant(Constant::Str(value.to_string()))
}

fn statement(kind: StatementKind) -> Statement {
    Statement { kind, span: span() }
}

fn assign(id: u32, rvalue: Rvalue) -> Statement {
    statement(StatementKind::Assign {
        place: place(id),
        rvalue,
    })
}

fn give_back(value: Operand) -> Statement {
    statement(StatementKind::Return { value: Some(value) })
}

fn block(stmts: Vec<Statement>) -> Block {
    Block { stmts: Rc::new(stmts) }
}

fn parameter(name: &str, id: u32) -> CallableParam {
    CallableParam {
        name: name.to_string(),
        local: LocalId(id),
        default: CallableParamDefault::Required,
        span: span(),
    }
}

fn local(id: u32, origin: LocalOrigin, ty: IncanPrimitiveType) -> LocalDecl {
    LocalDecl {
        id: LocalId(id),
        name: Some(format!("v{id}")),
        origin,
        ty: IncanType::Primitive(ty),
        ty_text: "int".to_string(),
        span: span(),
    }
}

/// A body whose first locals are its integer parameters.
fn body(name: &str, params: u32, locals: u32, stmts: Vec<Statement>) -> Body {
    Body {
        name: name.to_string(),
        direct_call_id: format!("module.{name}"),
        span: span(),
        params: (0..params).map(|id| parameter(&format!("v{id}"), id)).collect(),
        locals: (0..locals)
            .map(|id| {
                let origin = if id < params {
                    LocalOrigin::Parameter
                } else {
                    LocalOrigin::UserBinding
                };
                local(id, origin, IncanPrimitiveType::Int)
            })
            .collect(),
        block: block(stmts),
        is_async: false,
        yields: false,
        runtime_requirements: Vec::new(),
        snapshot: format!("body {name}"),
    }
}

fn module(bodies: Vec<Body>) -> BodyIrModule {
    BodyIrModule {
        module_id: "module".to_string(),
        bodies: bodies.into_iter().map(Rc::new).collect(),
    }
}

fn run(module: &BodyIrModule, name: &str, args: &[ReplacementValue]) -> ReplacementExecution {
    attempt_free_function(module, name, args)
        .expect("the execution must settle")
        .unwrap_or_else(|error| panic!("{}", error.message()))
}

fn failure(module: &BodyIrModule, name: &str, args: &[ReplacementValue]) -> ReplacementExecutionError {
    match attempt_free_function(module, name, args).expect("the execution must settle") {
        Ok(execution) => panic!("unexpected value {:?}", execution.value),
        Err(error) => error,
    }
}

fn whole(value: i64) -> ReplacementValue {
    ReplacementValue::Int(value)
}

fn operation(operator: BinOp) -> BodyIrModule {
    module(vec![body(
        "compute",
        2,
        3,
        vec![
            assign(2, Rvalue::BinaryOp(operator, read(0), read(1))),
            give_back(read(2)),
        ],
    )])
}

fn compute(operator: BinOp, left: i64, right: i64) -> ReplacementValue {
    run(&operation(operator), "compute", &[whole(left), whole(right)]).value
}

#[test]
fn generator_resume_counts_the_parent_budget_before_polling_its_frame() {
    let module = BodyIrModule {
        module_id: "replacement.generator_budget_test".to_string(),
        bodies: Vec::new(),
    };
    let mut executor = BodyExecutor::with_locals(&module, Locals::new(), MAX_EXECUTION_STEPS);
    let generator = ReplacementGenerator {
        frame: GeneratorFrame::new(
            Locals::new(),
            Rc::new(vec![statement(StatementKind::Yield { value: number(1) })]),
        ),
        named_body: None,
        frame_evidence: None,
    };

    let result = executor.resume_generator(generator, span(), 100);
    assert!(
        matches!(
            result,
            Err(ExecutionStop::Error(ReplacementExecutionError::RuntimeFailure { .. }))
        ),
        "the first generator poll must consume the caller's already-exhausted execution budget"
    );
}

#[test]
fn a_fresh_generator_yields_its_value() {
    let module = module(Vec::new());
    let mut executor = BodyExecutor::with_locals(&module, Locals::new(), 0);
    let generator = ReplacementGenerator {
        frame: GeneratorFrame::new(
            Locals::new(),
            Rc::new(vec![statement(StatementKind::Yield { value: number(1) })]),
        ),
        named_body: None,
        frame_evidence: None,
    };
    let Ok((generator, first)) = executor.resume_generator(generator, span(), 100) else {
        panic!("the generator must yield");
    };
    assert_eq!(first, Some(whole(1)));
    let Ok((generator, second)) = executor.resume_generator(generator, span(), 100) else {
        panic!("the generator must finish");
    };
    assert_eq!(second, None);
    assert!(generator.frame.exhausted);
}

#[test]
fn more_fuel_changes_nothing() {
    let module = module(Vec::new());
    let stmts = vec![
        assign(0, Rvalue::Use(number(1))),
        assign(0, Rvalue::BinaryOp(BinOp::Add, read(0), number(2))),
        give_back(read(0)),
    ];
    for fuel in [50, 5_000] {
        let mut executor = BodyExecutor::with_locals(&module, Locals::new(), 0);
        let flow = executor.execute_block(&stmts, fuel);
        assert!(matches!(&flow, Ok(Flow::Return(Some(ReplacementValue::Int(3))))));
        assert_eq!(executor.steps, 3);
        assert_eq!(executor.ownership_reads.len(), 2);
    }
}

#[test]
fn generators_keep_their_locals_to_themselves() {
    let module = module(Vec::new());
    let mut outer = Locals::new();
    outer.insert(LocalId(0), whole(7));
    let mut executor = BodyExecutor::with_locals(&module, outer, 0);
    let mut inner = Locals::new();
    inner.insert(LocalId(0), whole(1));
    let generator = ReplacementGenerator {
        frame: GeneratorFrame::new(
            inner,
            Rc::new(vec![
                assign(0, Rvalue::Use(number(2))),
                statement(StatementKind::Yield { value: read(0) }),
            ]),
        ),
        named_body: None,
        frame_evidence: Some("executed frame".to_string()),
    };
    let Ok((generator, item)) = executor.resume_generator(generator, span(), 100) else {
        panic!("the generator must yield");
    };
    assert_eq!(item, Some(whole(2)));
    assert_eq!(generator.frame.locals.get(LocalId(0)), Some(&whole(2)));
    assert_eq!(executor.locals.get(LocalId(0)), Some(&whole(7)));
    assert_eq!(executor.body_snapshots, ["executed frame"]);
}

#[test]
fn integers_are_computed() {
    assert_eq!(compute(BinOp::Add, 40, 2), whole(42));
    assert_eq!(compute(BinOp::Sub, 40, 2), whole(38));
    assert_eq!(compute(BinOp::Mul, -6, 7), whole(-42));
    assert_eq!(compute(BinOp::FloorDiv, -7, 2), whole(-4));
    assert_eq!(compute(BinOp::Mod, -7, 2), whole(1));
    assert_eq!(compute(BinOp::Mod, 7, -2), whole(-1));
    assert_eq!(compute(BinOp::Lt, 1, 2), ReplacementValue::Bool(true));
    assert_eq!(compute(BinOp::Ne, 2, 2), ReplacementValue::Bool(false));
}

#[test]
fn division_rounds_towards_negative_infinity() {
    assert_eq!(python_floor_div_i64(7, -2), -4);
    assert_eq!(python_floor_div_i64(-8, 2), -4);
    assert_eq!(python_mod_i64(-8, 3), 1);
    assert_eq!(python_mod_i64(i64::MIN, -1), 0);
}

#[test]
fn division_by_zero_is_a_runtime_failure() {
    for operator in [BinOp::FloorDiv, BinOp::Mod, BinOp::Div] {
        let error = failure(&operation(operator), "compute", &[whole(1), whole(0)]);
        assert!(
            matches!(&error, ReplacementExecutionError::RuntimeFailure { detail, .. } if detail == "division or modulo by zero"),
            "{error:?}"
        );
    }
}

#[test]
fn an_unrepresentable_quotient_is_an_overflow() {
    let error = failure(&operation(BinOp::FloorDiv), "compute", &[whole(i64::MIN), whole(-1)]);
    assert!(
        matches!(&error, ReplacementExecutionError::RuntimeFailure { detail, .. } if detail == "integer division overflow"),
        "{error:?}"
    );
}

#[test]
fn a_sum_out_of_range_does_not_settle() {
    assert!(attempt_free_function(&operation(BinOp::Add), "compute", &[whole(i64::MAX), whole(1)]).is_none());
}

#[test]
fn unknown_operations_are_refused() {
    let error = failure(&operation(BinOp::And), "compute", &[whole(1), whole(1)]);
    assert!(
        matches!(&error, ReplacementExecutionError::Unsupported { description, .. }
            if description == "boolean conjunction between int and int"),
        "{error:?}"
    );
    assert_eq!(error.primary_span(), Some(span()));
}

#[test]
fn admitted_functions_are_executed() {
    let module = operation(BinOp::Add);
    let args = [whole(20), whole(22)];
    let Ok(execution) = execute_free_function(&module, "compute", &args) else {
        panic!("the sum must be computed");
    };
    let Ok(plan) = prepare_free_function_execution(&module, "compute", &args) else {
        panic!("the function must be admitted");
    };
    let Ok(admitted) = execute_prevalidated_free_function(plan) else {
        panic!("the sum must be computed");
    };
    assert_eq!(execution.value, whole(42));
    assert_eq!(execution, admitted);
}

#[test]
fn refusals_carry_their_place() {
    let error = ReplacementExecutionError::unsupported_profile("a lambda", HirSourceSpan { start: 3, end: 8 });
    assert_eq!(
        error.message(),
        "replacement backend does not support a lambda at original Incan source span 3..8"
    );
    assert!(!error.diagnostic_code().is_empty());
}

#[test]
fn missing_functions_and_surplus_arguments_are_refused() {
    let module = operation(BinOp::Add);
    let error = failure(&module, "other", &[]);
    assert!(matches!(&error, ReplacementExecutionError::MissingFunction { name } if name == "other"));
    assert_eq!(error.primary_span(), None);
    let error = failure(&module, "compute", &[whole(1), whole(2), whole(3)]);
    assert!(matches!(
        &error,
        ReplacementExecutionError::ArgumentCount { expected: 2, actual: 3, .. }
    ));
}

#[test]
fn async_bodies_are_refused() {
    let mut task = body("task", 0, 0, vec![give_back(number(1))]);
    task.is_async = true;
    let error = failure(&module(vec![task]), "task", &[]);
    assert!(
        matches!(&error, ReplacementExecutionError::Unsupported { description, .. } if description == "async task body"),
        "{error:?}"
    );
}

#[test]
fn a_declared_range_is_ambiguous() {
    let module = module(vec![
        body("range", 0, 0, vec![give_back(number(1))]),
        body("f", 0, 0, vec![give_back(number(1))]),
    ]);
    let error = failure(&module, "f", &[]);
    assert!(
        matches!(&error, ReplacementExecutionError::Unsupported { description, .. }
            if description.starts_with("same-module `range` declaration")),
        "{error:?}"
    );
}

#[test]
fn loops_count_until_they_break() {
    let module = module(vec![body(
        "count",
        1,
        3,
        vec![
            assign(1, Rvalue::Use(number(0))),
            statement(StatementKind::Loop {
                body: block(vec![
                    assign(2, Rvalue::BinaryOp(BinOp::Ge, read(1), read(0))),
                    statement(StatementKind::If {
                        cond: read(2),
                        then_block: block(vec![statement(StatementKind::Break { value: None })]),
                        else_block: None,
                    }),
                    assign(1, Rvalue::BinaryOp(BinOp::Add, read(1), number(1))),
                ]),
            }),
            give_back(read(1)),
        ],
    )]);
    assert_eq!(run(&module, "count", &[whole(5)]).value, whole(5));
}

#[test]
fn endless_loops_reach_their_limit() {
    let module = module(vec![body(
        "spin",
        0,
        0,
        vec![statement(StatementKind::Loop { body: block(vec![]) })],
    )]);
    let error = failure(&module, "spin", &[]);
    assert!(
        matches!(&error, ReplacementExecutionError::RuntimeFailure { detail, .. }
            if detail == "normalized loop exceeded the 100000-step replacement profile limit"
                || detail == "replacement profile exceeded the 100000-step execution limit"),
        "{error:?}"
    );
}

#[test]
fn failed_assertions_are_runtime_failures() {
    let module = module(vec![body(
        "check",
        0,
        0,
        vec![
            statement(StatementKind::Assert {
                cond: flag(false),
                message: Some(text("must hold")),
                may_panic: true,
            }),
            give_back(number(1)),
        ],
    )]);
    let error = failure(&module, "check", &[]);
    assert!(
        matches!(&error, ReplacementExecutionError::RuntimeFailure { detail, .. } if detail.contains("must hold")),
        "{error:?}"
    );
}

#[test]
fn strings_are_concatenated() {
    let mut greet = body(
        "greet",
        1,
        2,
        vec![
            statement(StatementKind::Call {
                destination: Some(place(1)),
                callee: Callee::Helper(HelperOp::StrConcat),
                args: vec![ArgumentElement::One(text("hello, ")), ArgumentElement::One(consume(0))],
                may_panic: false,
            }),
            give_back(consume(1)),
        ],
    );
    for decl in &mut greet.locals {
        decl.ty = IncanType::Primitive(IncanPrimitiveType::Str);
        decl.ty_text = "str".to_string();
    }
    let execution = run(&module(vec![greet]), "greet", &[ReplacementValue::Str("Ada".to_string())]);
    assert_eq!(execution.value, ReplacementValue::Str("hello, Ada".to_string()));
    assert_eq!(execution.value.observable_text(), "hello, Ada");
}

#[test]
fn named_calls_execute_their_bodies() {
    let mut double = body(
        "double",
        1,
        2,
        vec![
            assign(1, Rvalue::BinaryOp(BinOp::Mul, read(0), number(2))),
            give_back(read(1)),
        ],
    );
    double.runtime_requirements = vec![AbiV0RuntimeRequirement::Allocator];
    let caller = body(
        "caller",
        1,
        2,
        vec![
            statement(StatementKind::Call {
                destination: Some(place(1)),
                callee: Callee::Function(CallableTarget::Named(NamedCallableTarget {
                    name: "double".to_string(),
                    binding: ArgumentBinding::Resolved {
                        arguments: vec![BoundArgument {
                            slot: 0,
                            written_position: 0,
                        }],
                        defaulted_slots: Vec::new(),
                    },
                    builtin: false,
                    direct_call_id: Some("module.double".to_string()),
                })),
                args: vec![ArgumentElement::One(read(0))],
                may_panic: false,
            }),
            give_back(read(1)),
        ],
    );
    let module = module(vec![caller, double]);
    let execution = run(&module, "caller", &[whole(21)]);
    assert_eq!(execution.value, whole(42));
    assert!(execution.body_snapshot.contains("body caller"), "{}", execution.body_snapshot);
    assert!(execution.body_snapshot.contains("body double"), "{}", execution.body_snapshot);
    let requirements = execution.runtime_requirement_evidence();
    assert_eq!(requirements.len(), 1);
    assert_eq!(requirements[0].requirement, "allocator");
    let reads = execution.ownership_evidence();
    assert_eq!(reads.len(), 4);
    assert!(reads.iter().all(|read| read.fact == "copy"));
}

#[test]
fn identities_cover_the_result() {
    let module = operation(BinOp::Add);
    let first = run(&module, "compute", &[whole(1), whole(2)]);
    let again = run(&module, "compute", &[whole(1), whole(2)]);
    let other = run(&module, "compute", &[whole(1), whole(3)]);
    assert!(first.output_identity.starts_with("sha256:"));
    assert_eq!(first.output_identity, again.output_identity);
    assert_ne!(first.output_identity, other.output_identity);
}

#[test]
fn negation_is_computed() {
    let module = module(vec![body(
        "negate",
        1,
        2,
        vec![assign(1, Rvalue::UnaryOp(UnOp::Neg, read(0))), give_back(read(1))],
    )]);
    assert_eq!(run(&module, "negate", &[whole(5)]).value, whole(-5));
    assert!(attempt_free_function(&module, "negate", &[whole(i64::MIN)]).is_none());
}

#[test]
fn values_are_rendered() {
    assert_eq!(whole(-3).observable_text(), "-3");
    assert_eq!(ReplacementValue::Bool(true).observable_text(), "true");
    assert_eq!(ReplacementValue::Unit.observable_text(), "None");
    assert_eq!(ReplacementValue::Float("1.5".to_string()).observable_text(), "1.5");
    assert_eq!(
        ReplacementValue::Range { next: 0, end: 3, step: 1 }.observable_text(),
        "range(0, 3, 1)"
    );
    assert_eq!(
        ReplacementValue::Tuple(vec![whole(1), ReplacementValue::Str("a".to_string())]).observable_text(),
        "(1, a)"
    );
    assert_eq!(
        ReplacementValue::List {
            elements: vec![whole(1), whole(2)],
            next: 0
        }
        .observable_text(),
        "[1, 2]"
    );
}

// ---------------------------------------------------------------------------
// Hashed containers
// ---------------------------------------------------------------------------

fn string(value: &str) -> ReplacementValue {
    ReplacementValue::Str(value.to_string())
}

#[test]
fn sets_hold_scalars() {
    let Ok(set) = ReplacementSet::from_elements(vec![whole(2), whole(1), whole(2), string("a")]) else {
        panic!("scalars must be admitted");
    };
    assert_eq!(set.contains(whole(1)), Ok(true));
    assert_eq!(set.contains(whole(3)), Ok(false));
    assert_eq!(set.contains(ReplacementValue::Bool(true)), Ok(false));
    assert_eq!(set.observable_text(), "{1, 2, a}");
    let Err(refusal) = set.contains(ReplacementValue::Float("1.0".to_string())) else {
        panic!("a float must be refused");
    };
    assert_eq!(
        refusal.message(),
        "a float value cannot key a hashed container in the replacement profile"
    );
    assert_eq!(ReplacementSet::empty().observable_text(), "Set()");
    assert!(ReplacementSet::empty().contains(ReplacementValue::Tuple(Vec::new())).is_err());
    assert_eq!(HashedKey::try_from_value(ReplacementValue::Unit), Ok(HashedKey::Unit));
}

#[test]
fn sets_forget_the_order_of_their_elements() {
    let Ok(left) = ReplacementSet::from_elements(vec![string("b"), whole(1), string("a")]) else {
        panic!("scalars must be admitted");
    };
    let Ok(right) = ReplacementSet::from_elements(vec![string("a"), string("b"), whole(1)]) else {
        panic!("scalars must be admitted");
    };
    assert!(left.equals(&right));
    assert_eq!(left.observable_text(), right.observable_text());
    assert!(!left.equals(&ReplacementSet::empty()));
}

#[test]
fn the_first_refused_element_is_named() {
    let Err(refusal) = ReplacementSet::from_elements(vec![
        whole(1),
        ReplacementValue::Tuple(Vec::new()),
        ReplacementValue::Float("1".to_string()),
    ]) else {
        panic!("a tuple must be refused");
    };
    assert_eq!(refusal.kind, "tuple");
}

#[test]
fn later_entries_win() {
    let Ok(dict) = ReplacementDict::from_entries(vec![
        (string("b"), whole(1)),
        (string("a"), whole(2)),
        (string("b"), whole(3)),
    ]) else {
        panic!("scalar keys must be admitted");
    };
    assert_eq!(dict.observable_text(), "{a: 2, b: 3}");
    assert_eq!(dict.contains_key(string("a")), Ok(true));
    assert_eq!(dict.contains_key(whole(2)), Ok(false));
    assert!(dict.contains_key(ReplacementValue::Tuple(Vec::new())).is_err());
    assert_eq!(ReplacementDict::empty().observable_text(), "{}");
}

#[test]
fn dictionaries_are_compared_by_keys_and_values() {
    let dict = |entries: Vec<(ReplacementValue, ReplacementValue)>| match ReplacementDict::from_entries(entries) {
        Ok(dict) => dict,
        Err(refusal) => panic!("{}", refusal.message()),
    };
    let one = dict(vec![(string("a"), whole(1)), (string("b"), whole(2))]);
    let same = dict(vec![(string("b"), whole(2)), (string("a"), whole(1))]);
    let other = dict(vec![(string("a"), whole(1)), (string("b"), whole(3))]);
    assert!(one.equals(&same));
    assert!(!one.equals(&other));
    assert!(!one.equals(&ReplacementDict::empty()));
}

fn callable(captured: i64, stmts: Vec<Statement>) -> ReplacementCallable {
    ReplacementCallable {
        params: Rc::new(vec![parameter("x", 0)]),
        captures: vec![(LocalId(1), ReplacementValue::Int(captured))],
        body: Rc::new(ClosureBody {
            capture_locals: vec![LocalId(1)],
            stmts,
            result: read(0),
        }),
    }
}

fn adding(amount: i64) -> Vec<Statement> {
    vec![assign(2, Rvalue::BinaryOp(BinOp::Add, read(0), number(amount)))]
}

fn suspended(entries: Vec<(LocalId, ReplacementValue)>, amount: i64) -> ReplacementGenerator {
    ReplacementGenerator {
        frame: GeneratorFrame {
            locals: Locals { entries },
            cursors: vec![GeneratorCursor {
                statements: Rc::new(adding(amount)),
                next: 0,
                is_loop: false,
            }],
            exhausted: false,
            steps: 3,
        },
        named_body: Some(Rc::new(body("numbers", 1, 3, adding(amount)))),
        frame_evidence: Some("frame".to_string()),
    }
}

#[test]
fn callables_are_compared_by_what_they_hold() {
    let held = |callable: ReplacementCallable| ReplacementValue::Callable(Box::new(callable));
    assert!(is_equal_value(&held(callable(1, adding(2))), &held(callable(1, adding(2)))));
    assert!(!is_equal_value(&held(callable(1, adding(2))), &held(callable(5, adding(2)))));
    assert!(!is_equal_value(&held(callable(1, adding(2))), &held(callable(1, adding(3)))));
    assert!(!is_equal_value(&held(callable(1, adding(2))), &held(callable(1, Vec::new()))));
    assert!(!is_equal_value(&held(callable(1, adding(2))), &ReplacementValue::Unit));
    let mapped = |kind: ReplacementAdapterKind| {
        ReplacementValue::Adapter(Box::new(ReplacementAdapter {
            source: ReplacementValue::Range {
                next: 0,
                end: 3,
                step: 1,
            },
            callback: callable(1, adding(2)),
            kind,
        }))
    };
    assert!(is_equal_value(
        &mapped(ReplacementAdapterKind::MapItems),
        &mapped(ReplacementAdapterKind::MapItems)
    ));
    assert!(!is_equal_value(
        &mapped(ReplacementAdapterKind::MapItems),
        &mapped(ReplacementAdapterKind::FilterItems)
    ));
    let dict = |amount: i64| match ReplacementDict::from_entries(vec![(whole(1), held(callable(1, adding(amount))))]) {
        Ok(dict) => dict,
        Err(refusal) => panic!("{}", refusal.message()),
    };
    assert!(dict(2).equals(&dict(2)));
    assert!(!dict(2).equals(&dict(4)));
}

#[test]
fn values_are_spelled_with_all_they_hold() {
    let spelled_callable = "ReplacementCallable { params: [CallableParam { name: \"x\", local: LocalId(0), default: \
        Required, span: HirSourceSpan { start: 0, end: 1 } }], captures: [(LocalId(1), Int(4))], body: ClosureBody { \
        capture_locals: [LocalId(1)], stmts: [Statement { kind: Drop { local: LocalId(2) }, span: HirSourceSpan { \
        start: 0, end: 1 } }], result: Constant(Int(7)) } }";
    let held = || ReplacementCallable {
        params: Rc::new(vec![parameter("x", 0)]),
        captures: vec![(LocalId(1), ReplacementValue::Int(4))],
        body: Rc::new(ClosureBody {
            capture_locals: vec![LocalId(1)],
            stmts: vec![statement(StatementKind::Drop { local: LocalId(2) })],
            result: number(7),
        }),
    };
    let callable = ReplacementValue::Callable(Box::new(held()));
    assert_eq!(callable.structure_text(), format!("Callable({spelled_callable})"));
    assert_eq!(callable.structure_text(), format!("{callable:?}"));
    let adapter = ReplacementValue::Adapter(Box::new(ReplacementAdapter {
        source: ReplacementValue::Unit,
        callback: held(),
        kind: ReplacementAdapterKind::FilterItems,
    }));
    assert_eq!(
        adapter.structure_text(),
        format!("Adapter(ReplacementAdapter {{ source: Unit, callback: {spelled_callable}, kind: Filter }})")
    );
    let generator = suspended(vec![(LocalId(5), whole(5)), (LocalId(1), whole(1)), (LocalId(5), whole(6))], 2);
    let statements = format!("{:?}", adding(2));
    let declaration = format!("{:?}", body("numbers", 1, 3, adding(2)));
    assert_eq!(
        ReplacementValue::Generator(Box::new(generator)).structure_text(),
        format!(
            "Generator(ReplacementGenerator {{ frame: GeneratorFrame {{ locals: {{LocalId(1): Int(1), LocalId(5): \
             Int(6)}}, cursors: [GeneratorCursor {{ statements: {statements}, next: 0, is_loop: false }}], exhausted: \
             false, steps: 3 }}, named_body: Some({declaration}), frame_evidence: Some(\"frame\") }})"
        )
    );
}

/// Statements in which every form of Body IR occurs.
fn every_form() -> Vec<Statement> {
    let indexed = || {
        Operand::Place(PlaceOperand {
            place: Place {
                local: LocalId(3),
                projection: vec![
                    PlaceElem::Field("x".to_string()),
                    PlaceElem::Index(Box::new(read(0))),
                    PlaceElem::Slice,
                ],
            },
            fact: OwnershipFact::MutBorrow,
            last_use: true,
        })
    };
    let resolved = || ArgumentBinding::Resolved {
        arguments: vec![BoundArgument {
            slot: 1,
            written_position: 0,
        }],
        defaulted_slots: vec![0, 2],
    };
    let calling = |callee: Callee, args: Vec<ArgumentElement>| {
        statement(StatementKind::Call {
            destination: Some(place(1)),
            callee,
            args,
            may_panic: true,
        })
    };
    let defaulted = |default: CallableParamDefault| CallableParam {
        name: "p".to_string(),
        local: LocalId(1),
        default,
        span: span(),
    };
    vec![
        assign(1, Rvalue::Use(indexed())),
        assign(1, Rvalue::UnaryOp(UnOp::Neg, Operand::Constant(Constant::Float("1.5".to_string())))),
        assign(
            1,
            Rvalue::Aggregate(
                AggregateKind::Constructor("P".to_string()),
                vec![ArgumentElement::One(text("a\"b")), ArgumentElement::Spread(flag(true))],
            ),
        ),
        assign(1, Rvalue::Format(vec![Operand::Constant(Constant::Unit)])),
        assign(
            1,
            Rvalue::Closure {
                params: Rc::new(vec![
                    defaulted(CallableParamDefault::Source(DefaultComputation {
                        stmts: adding(1),
                        result: number(-1),
                        span: span(),
                    })),
                    defaulted(CallableParamDefault::PartialPreset { capture: LocalId(4) }),
                    defaulted(CallableParamDefault::Unsupported {
                        span: span(),
                        description: "odd".to_string(),
                    }),
                ]),
                captured_operands: vec![consume(1)],
                body: Rc::new(ClosureBody {
                    capture_locals: Vec::new(),
                    stmts: Vec::new(),
                    result: read(1),
                }),
            },
        ),
        assign(
            1,
            Rvalue::Generator {
                source: read(1),
                captured_operands: Vec::new(),
                body: GeneratorBody {
                    source_local: LocalId(1),
                    capture_locals: vec![LocalId(2)],
                    stmts: Rc::new(adding(3)),
                },
            },
        ),
        assign(
            1,
            Rvalue::Match {
                arms: vec![MatchArm {
                    guard_stmts: adding(1),
                    body_stmts: Vec::new(),
                }],
            },
        ),
        calling(
            Callee::Function(CallableTarget::Named(NamedCallableTarget {
                name: "f".to_string(),
                binding: resolved(),
                builtin: false,
                direct_call_id: Some("m.f".to_string()),
            })),
            Vec::new(),
        ),
        calling(
            Callee::Function(CallableTarget::Local(LocalCallableTarget {
                operand: PlaceOperand {
                    place: place(2),
                    fact: OwnershipFact::Borrow,
                    last_use: false,
                },
                binding: ArgumentBinding::UnresolvedPositional,
                label: "g".to_string(),
            })),
            Vec::new(),
        ),
        calling(
            Callee::Method(MethodTarget {
                name: "push".to_string(),
                binding: resolved(),
            }),
            Vec::new(),
        ),
        calling(Callee::Helper(HelperOp::StrConcat), Vec::new()),
        calling(
            Callee::ProviderOperation(ProviderOperationPlan {
                operation: provided("core", "clock.now"),
                call_span: span(),
            }),
            Vec::new(),
        ),
        statement(StatementKind::If {
            cond: flag(false),
            then_block: block(vec![statement(StatementKind::Continue)]),
            else_block: Some(block(vec![statement(StatementKind::Break { value: None })])),
        }),
        statement(StatementKind::Loop {
            body: block(vec![statement(StatementKind::Yield { value: read(1) })]),
        }),
        give_back(read(1)),
        statement(StatementKind::Assert {
            cond: flag(true),
            message: Some(text("m")),
            may_panic: false,
        }),
        statement(StatementKind::Expr { value: read(0) }),
        statement(StatementKind::IterNext {
            destination: place(1),
            iterator: read(2),
            protocol: IterProtocol::Method,
        }),
        statement(StatementKind::Await { value: read(0) }),
        statement(StatementKind::Race {
            arms: vec![RaceArm {
                body: block(Vec::new()),
            }],
        }),
        statement(StatementKind::TryPropagate { value: read(0) }),
        statement(StatementKind::Unsupported {
            description: "x".to_string(),
        }),
    ]
}

#[test]
fn every_form_is_spelled_and_compared() {
    assert_eq!(spell_statements(&every_form()), format!("{:?}", every_form()));
    assert!(are_alike_statements(&every_form(), &every_form()));
    for at in 0..every_form().len() {
        let mut changed = every_form();
        changed[at] = statement(StatementKind::Drop { local: LocalId(9) });
        assert!(!are_alike_statements(&every_form(), &changed));
    }
    let mut declared = body("numbers", 1, 2, every_form());
    declared.locals[1].ty = IncanType::Generic {
        collection: Some(CollectionTypeId::List),
        args: vec![
            IncanType::Tuple(vec![IncanType::Primitive(IncanPrimitiveType::Str)]),
            IncanType::Named("T".to_string()),
        ],
    };
    declared.runtime_requirements = vec![
        AbiV0RuntimeRequirement::RuntimeHelper("h".to_string()),
        AbiV0RuntimeRequirement::Allocator,
    ];
    assert_eq!(spell_body(&declared), format!("{declared:?}"));
    assert_eq!(
        spell_statements(&vec![assign(1, Rvalue::Use(Operand::Constant(Constant::NoneLiteral)))]),
        "[Statement { kind: Assign { place: Place { local: LocalId(1), projection: [] }, rvalue: \
         Use(Constant(None)) }, span: HirSourceSpan { start: 0, end: 1 } }]"
    );
}

#[test]
fn generators_are_compared_by_their_environments() {
    let held = |entries: Vec<(LocalId, ReplacementValue)>, amount: i64| {
        ReplacementValue::Generator(Box::new(suspended(entries, amount)))
    };
    let one = || (LocalId(1), whole(1));
    let two = || (LocalId(2), whole(2));
    assert!(is_equal_value(&held(vec![one(), two()], 1), &held(vec![two(), one()], 1)));
    assert!(is_equal_value(
        &held(vec![(LocalId(1), whole(9)), one()], 1),
        &held(vec![one()], 1)
    ));
    assert!(!is_equal_value(&held(vec![one()], 1), &held(vec![one(), two()], 1)));
    assert!(!is_equal_value(&held(vec![one(), two()], 1), &held(vec![one()], 1)));
    assert!(!is_equal_value(&held(vec![one()], 1), &held(vec![one()], 2)));
}

// ---------------------------------------------------------------------------
// Providers
// ---------------------------------------------------------------------------

fn provided(provider: &str, name: &str) -> ProviderOperation {
    ProviderOperation {
        provider: provider.to_string(),
        declaration_name: name.to_string(),
    }
}

fn operating(name: &str, operation: &str) -> Body {
    body(
        name,
        0,
        0,
        vec![statement(StatementKind::Call {
            destination: None,
            callee: Callee::ProviderOperation(ProviderOperationPlan {
                operation: provided("core", operation),
                call_span: HirSourceSpan { start: 7, end: 9 },
            }),
            args: Vec::new(),
            may_panic: false,
        })],
    )
}

#[test]
fn reachable_operations_need_a_host() {
    let module = module(vec![operating("f", "clock.now"), operating("unused", "disk.read")]);
    let entry = module.bodies[0].clone();
    let hosted = ProviderRuntime {
        operations: vec![provided("core", "clock.now")],
    };
    assert!(validate(&module, &entry, Some(&hosted)).is_ok());
    let Err(error) = validate(&module, &entry, None) else {
        panic!("an operation without a host must be refused");
    };
    assert!(error.message().contains("clock.now"), "{}", error.message());
    assert_eq!(error.primary_span(), Some(HirSourceSpan { start: 7, end: 9 }));
    let other = ProviderRuntime {
        operations: vec![provided("core", "disk.read"), provided("extra", "clock.now")],
    };
    assert!(validate(&module, &entry, Some(&other)).is_err());
}

#[test]
fn contributions_link_features_to_requirements() {
    let contribution = replacement_compatibility_direct_execution_contribution();
    assert_eq!(contribution.identity, "backend.replacement.bounded-scalar-control");
    assert_eq!(contribution.features.len(), 2);
    assert_eq!(contribution.requirements.len(), 2);
    for link in &contribution.links {
        assert!(contribution.features.iter().any(|feature| feature.feature == link.feature));
        assert!(contribution
            .requirements
            .iter()
            .any(|requirement| requirement.requirement == link.requirement));
    }
}
