//! What executing Body IR means.
//!
//! A run takes a machine state to the next one and a result, or halts. `fuel` bounds how deeply calls and rounds
//! nest: a run that is given too little is exhausted, and one that is given enough does not depend on it.

use crate::body_ir::{
    AbiV0RuntimeRequirement, AggregateKind, ArgumentBinding, ArgumentElement, BinOp, Body, BodyIrModule,
    BoundArgument, CallableParam, CallableParamDefault, CallableTarget, Callee, ClosureBody, DefaultComputation,
    GeneratorBody, HelperOp, HirSourceSpan, IterProtocol, LocalCallableTarget, LocalId, NamedCallableTarget, Operand,
    OwnershipFact, Place, PlaceElem, PlaceOperand, Rvalue, Statement, StatementKind, UnOp,
};
use crate::replacement::admission::{body_refusal, callable_body};
use crate::replacement::error::ErrorModel;
use crate::replacement::profile::{
    aggregate_spelling, all_single, bare_refusal, callee_spelling, element_operands, tuple_field,
};
use crate::replacement::value::{
    copy_shaped, environment, kind_of, literal, observable, scalar, scalar_pair, scalar_pairs, CallableModel,
    GeneratorCursor, GeneratorModel, ReplacementAdapterKind, ValueModel,
};
use crate::text::decimal;
use std::rc::Rc;
use vstd::prelude::*;

verus! {

/// Bounded statement count for one execution.
///
/// The bound turns an accidental infinite loop into an explicit failure.
pub const MAX_EXECUTION_STEPS: usize = 100_000;

/// One place read observed while executing.
#[derive(Debug, Clone, Copy, PartialEq, Eq, Structural)]
pub struct OwnershipRead {
    /// The source span of the statement with the read.
    pub span: HirSourceSpan,
    /// The ownership fact that was honored.
    pub fact: OwnershipFact,
    /// Whether lowering marked this read as the local's last use.
    pub last_use: bool,
}

/// The state of one execution frame and the evidence it has gathered.
#[verifier::ext_equal]
pub struct Machine {
    /// The values of the frame's locals.
    pub locals: Map<LocalId, ValueModel>,
    /// Every ownership decision, in execution order.
    pub reads: Seq<OwnershipRead>,
    /// The runtime requirements of the consumed bodies, in first-seen order.
    pub requirements: Seq<AbiV0RuntimeRequirement>,
    /// The snapshots and frame markers of what was executed.
    pub snapshots: Seq<Seq<char>>,
    /// The number of executed statements.
    pub steps: usize,
}

/// Why a run stopped without a result.
pub enum Halt {
    /// It was refused or failed.
    Error(ErrorModel),
    /// An integer result left the range of its type.
    Overflow(HirSourceSpan),
    /// It nests more deeply than its fuel allows.
    Exhausted,
}

/// How control leaves a statement.
pub enum FlowModel {
    /// To the next statement.
    Next,
    /// Out of the innermost loop.
    Break,
    /// To the next round of the innermost loop.
    Continue,
    /// Out of the function.
    Return(Option<ValueModel>),
}

/// A state and a result, or a halt.
pub type Run<T> = Result<(Machine, T), Halt>;

/// A run that was refused.
pub open spec fn refused<T>(description: Seq<char>, span: HirSourceSpan) -> Run<T> {
    Err(Halt::Error(ErrorModel::Unsupported(description, span)))
}

/// A run that failed.
pub open spec fn failed<T>(detail: Seq<char>, span: HirSourceSpan) -> Run<T> {
    Err(Halt::Error(ErrorModel::RuntimeFailure(detail, span)))
}

// ---------------------------------------------------------------------------
// State changes
// ---------------------------------------------------------------------------

/// The state with one more read noted.
pub open spec fn noted(m: Machine, read: PlaceOperand, span: HirSourceSpan) -> Machine {
    Machine {
        reads: m.reads.push(OwnershipRead { span, fact: read.fact, last_use: read.last_use }),
        ..m
    }
}

/// The state with a local given a value.
pub open spec fn assigned(m: Machine, local: LocalId, value: ValueModel) -> Machine {
    Machine { locals: m.locals.insert(local, value), ..m }
}

/// The state without a local's value.
pub open spec fn dropped(m: Machine, local: LocalId) -> Machine {
    Machine { locals: m.locals.remove(local), ..m }
}

/// The state with one more snapshot or frame marker.
pub open spec fn evidenced(m: Machine, evidence: Seq<char>) -> Machine {
    Machine { snapshots: m.snapshots.push(evidence), ..m }
}

/// The label of a runtime requirement.
pub open spec fn requirement_spelling(requirement: AbiV0RuntimeRequirement) -> Seq<char> {
    match requirement {
        AbiV0RuntimeRequirement::RuntimeHelper(name) => "runtime_helper("@ + name@ + ")"@,
        AbiV0RuntimeRequirement::HostedStd => "hosted_std"@,
        AbiV0RuntimeRequirement::Allocator => "allocator"@,
        AbiV0RuntimeRequirement::PanicStrategy => "panic_strategy"@,
        AbiV0RuntimeRequirement::AsyncRuntime => "async_runtime"@,
    }
}

/// Whether two requirements ask for the same thing.
pub open spec fn same_requirement(a: AbiV0RuntimeRequirement, b: AbiV0RuntimeRequirement) -> bool {
    match (a, b) {
        (AbiV0RuntimeRequirement::RuntimeHelper(x), AbiV0RuntimeRequirement::RuntimeHelper(y)) => x@ == y@,
        (AbiV0RuntimeRequirement::HostedStd, AbiV0RuntimeRequirement::HostedStd) => true,
        (AbiV0RuntimeRequirement::Allocator, AbiV0RuntimeRequirement::Allocator) => true,
        (AbiV0RuntimeRequirement::PanicStrategy, AbiV0RuntimeRequirement::PanicStrategy) => true,
        (AbiV0RuntimeRequirement::AsyncRuntime, AbiV0RuntimeRequirement::AsyncRuntime) => true,
        _ => false,
    }
}

/// Whether a run of requirements asks for something.
pub open spec fn asks_for(requirements: Seq<AbiV0RuntimeRequirement>, wanted: AbiV0RuntimeRequirement) -> bool {
    exists|i: int| 0 <= i < requirements.len() && same_requirement(#[trigger] requirements[i], wanted)
}

/// Requirements extended by those of another run, from a place in it on, that are not yet asked for.
pub open spec fn requirements_with(
    requirements: Seq<AbiV0RuntimeRequirement>,
    more: Seq<AbiV0RuntimeRequirement>,
    from: int,
) -> Seq<AbiV0RuntimeRequirement>
    decreases more.len() - from,
{
    if from < 0 || from >= more.len() {
        requirements
    } else if asks_for(requirements, more[from]) {
        requirements_with(requirements, more, from + 1)
    } else {
        requirements_with(requirements.push(more[from]), more, from + 1)
    }
}

/// The state after a declaration's body was recorded as consumed.
pub open spec fn recorded(m: Machine, body: Body) -> Machine {
    Machine {
        snapshots: m.snapshots.push(body.snapshot@),
        requirements: requirements_with(m.requirements, body.runtime_requirements@, 0),
        ..m
    }
}

/// A fresh frame.
pub open spec fn frame(locals: Map<LocalId, ValueModel>, steps: usize) -> Machine {
    Machine { locals, reads: Seq::empty(), requirements: Seq::empty(), snapshots: Seq::empty(), steps }
}

/// The caller's state after a nested frame executed: its evidence joins, its locals are gone.
pub open spec fn merged(m: Machine, child: Machine) -> Machine {
    Machine {
        locals: m.locals,
        reads: m.reads + child.reads,
        requirements: requirements_with(m.requirements, child.requirements, 0),
        snapshots: m.snapshots + child.snapshots,
        steps: child.steps,
    }
}

/// The step count after one more statement.
pub open spec fn next_step(steps: usize) -> usize {
    if steps < usize::MAX {
        (steps + 1) as usize
    } else {
        steps
    }
}

/// The state after one more statement was counted, or the failure at the limit.
pub open spec fn stepped(m: Machine, span: HirSourceSpan) -> Result<Machine, Halt> {
    let steps = next_step(m.steps);
    if steps > MAX_EXECUTION_STEPS {
        Err(
            Halt::Error(
                ErrorModel::RuntimeFailure(
                    "replacement profile exceeded the 100000-step execution limit"@,
                    span,
                ),
            ),
        )
    } else {
        Ok(Machine { steps, ..m })
    }
}

// ---------------------------------------------------------------------------
// Operands and operators
// ---------------------------------------------------------------------------

/// Reading one field of a pair.
pub open spec fn field_of(m: Machine, value: ValueModel, field: Seq<char>, span: HirSourceSpan) -> Run<ValueModel> {
    if !tuple_field(field) {
        refused("non-numeric tuple field projection outside the scalar tuple collection profile"@, span)
    } else if scalar_pair(value) {
        Ok((m, value->Tuple_0[if field == "0"@ { 0 } else { 1 }]))
    } else {
        refused(
            "tuple field projection `."@ + field + "` using "@ + kind_of(value)
                + " outside the scalar tuple collection profile"@,
            span,
        )
    }
}

/// Reading one collected item.
pub open spec fn item_of(m: Machine, value: ValueModel, index: ValueModel, span: HirSourceSpan) -> Run<ValueModel> {
    match index {
        ValueModel::Int(at) => if at < 0 || at > usize::MAX {
            failed("collected generator index is negative"@, span)
        } else {
            match value {
                ValueModel::CollectedGenerator { elements, .. } => if at < elements.len() {
                    Ok((m, elements[at as int]))
                } else {
                    failed("collected generator index is out of range"@, span)
                },
                _ => refused(
                    "indexing "@ + kind_of(value) + " outside the generator-expression collect profile"@,
                    span,
                ),
            }
        },
        _ => refused("collected generator index using a non-int value"@, span),
    }
}

/// Going from a local's value to the part of it that a place means.
pub open spec fn projected(m: Machine, value: ValueModel, place: Place, span: HirSourceSpan) -> Run<ValueModel>
    decreases place,
{
    if place.projection@.len() == 0 {
        Ok((m, value))
    } else if place.projection@.len() == 1 {
        match place.projection@[0] {
            PlaceElem::Field(field) => field_of(m, value, field@, span),
            PlaceElem::Index(index) => match operand_run(m, *index, span) {
                Err(halt) => Err(halt),
                Ok((m, index)) => item_of(m, value, index, span),
            },
            PlaceElem::Slice => refused("place projection outside the scalar tuple collection profile"@, span),
        }
    } else {
        refused("place projection outside the scalar tuple collection profile"@, span)
    }
}

/// Taking a local's value as its ownership decision says, before any projection.
pub open spec fn taken(m: Machine, read: PlaceOperand, span: HirSourceSpan) -> Run<ValueModel> {
    let local = read.place.local;
    match read.fact {
        OwnershipFact::Move => if read.place.projection@.len() != 0 {
            refused("move through a tuple field projection outside the scalar tuple collection profile"@, span)
        } else if m.locals.contains_key(local) {
            Ok((dropped(m, local), m.locals[local]))
        } else {
            failed("read of a moved or dropped local"@, span)
        },
        OwnershipFact::Unknown => refused("unknown ownership fact"@, span),
        _ => if m.locals.contains_key(local) {
            Ok((m, m.locals[local]))
        } else {
            failed("read of an unavailable local"@, span)
        },
    }
}

/// Evaluating an operand.
pub open spec fn operand_run(m: Machine, operand: Operand, span: HirSourceSpan) -> Run<ValueModel>
    decreases operand,
{
    match operand {
        Operand::Constant(constant) => Ok((m, literal(constant))),
        Operand::Place(read) => match taken(noted(m, read, span), read, span) {
            Err(halt) => Err(halt),
            Ok((m, value)) => match projected(m, value, read.place, span) {
                Err(halt) => Err(halt),
                Ok((m, value)) => if read.fact is Copy && !copy_shaped(value) {
                    refused("copy of a non-copy or unavailable local"@, span)
                } else {
                    Ok((m, value))
                },
            },
        },
    }
}

/// Evaluating operands one after the other, behind values already evaluated.
pub open spec fn operands_run(
    m: Machine,
    operands: Seq<Operand>,
    from: int,
    values: Seq<ValueModel>,
    span: HirSourceSpan,
) -> Run<Seq<ValueModel>>
    decreases operands.len() - from,
{
    if from < 0 || from >= operands.len() {
        Ok((m, values))
    } else {
        match operand_run(m, operands[from], span) {
            Err(halt) => Err(halt),
            Ok((m, value)) => operands_run(m, operands, from + 1, values.push(value), span),
        }
    }
}

/// A condition's flag.
pub open spec fn condition(m: Machine, value: ValueModel, span: HirSourceSpan) -> Run<bool> {
    match value {
        ValueModel::Bool(flag) => Ok((m, flag)),
        _ => refused("boolean condition using "@ + kind_of(value), span),
    }
}

/// An operand's flag.
pub open spec fn condition_run(m: Machine, operand: Operand, span: HirSourceSpan) -> Run<bool> {
    match operand_run(m, operand, span) {
        Err(halt) => Err(halt),
        Ok((m, value)) => condition(m, value, span),
    }
}

/// The name of a unary operator.
pub open spec fn unary_spelling(operator: UnOp) -> Seq<char> {
    match operator {
        UnOp::Neg => "negation"@,
        UnOp::Not => "boolean negation"@,
        UnOp::Invert => "bitwise inversion"@,
    }
}

/// The name of a binary operator.
pub open spec fn binary_spelling(operator: BinOp) -> Seq<char> {
    match operator {
        BinOp::Add => "addition"@,
        BinOp::Sub => "subtraction"@,
        BinOp::Mul => "multiplication"@,
        BinOp::Div => "division"@,
        BinOp::FloorDiv => "floor division"@,
        BinOp::Mod => "modulo"@,
        BinOp::Eq => "equality comparison"@,
        BinOp::Ne => "inequality comparison"@,
        BinOp::Lt => "less-than comparison"@,
        BinOp::Le => "less-or-equal comparison"@,
        BinOp::Gt => "greater-than comparison"@,
        BinOp::Ge => "greater-or-equal comparison"@,
        BinOp::And => "boolean conjunction"@,
        BinOp::Or => "boolean disjunction"@,
    }
}

/// An integer result, where the type can represent it.
pub open spec fn ranged(m: Machine, value: int, span: HirSourceSpan) -> Run<ValueModel> {
    if i64::MIN <= value <= i64::MAX {
        Ok((m, ValueModel::Int(value as i64)))
    } else {
        Err(Halt::Overflow(span))
    }
}

/// What a unary operator gives.
pub open spec fn unary_result(m: Machine, operator: UnOp, value: ValueModel, span: HirSourceSpan) -> Run<ValueModel> {
    match (operator, value) {
        (UnOp::Neg, ValueModel::Int(value)) => ranged(m, -value, span),
        (UnOp::Not, ValueModel::Bool(value)) => Ok((m, ValueModel::Bool(!value))),
        (UnOp::Invert, ValueModel::Int(value)) => ranged(m, -value - 1, span),
        _ => refused(unary_spelling(operator) + " applied to "@ + kind_of(value), span),
    }
}

/// The quotient rounded towards negative infinity.
pub open spec fn floor_quotient(left: int, right: int) -> int {
    if right > 0 || left % right == 0 {
        left / right
    } else {
        left / right - 1
    }
}

/// The remainder that takes the divisor's sign.
pub open spec fn floor_remainder(left: int, right: int) -> int {
    if right > 0 || left % right == 0 {
        left % right
    } else {
        left % right + right
    }
}

/// What a binary operator gives.
pub open spec fn binary_result(
    m: Machine,
    operator: BinOp,
    left: ValueModel,
    right: ValueModel,
    span: HirSourceSpan,
) -> Run<ValueModel> {
    let unsupported = refused(
        binary_spelling(operator) + " between "@ + kind_of(left) + " and "@ + kind_of(right),
        span,
    );
    match (left, right) {
        (ValueModel::Int(a), ValueModel::Int(b)) => match operator {
            BinOp::Add => ranged(m, a + b, span),
            BinOp::Sub => ranged(m, a - b, span),
            BinOp::Mul => ranged(m, a * b, span),
            BinOp::Div => if b == 0 {
                failed("division or modulo by zero"@, span)
            } else {
                unsupported
            },
            BinOp::FloorDiv => if b == 0 {
                failed("division or modulo by zero"@, span)
            } else if a == i64::MIN && b == -1 {
                failed("integer division overflow"@, span)
            } else {
                Ok((m, ValueModel::Int(floor_quotient(a as int, b as int) as i64)))
            },
            BinOp::Mod => if b == 0 {
                failed("division or modulo by zero"@, span)
            } else {
                Ok((m, ValueModel::Int(floor_remainder(a as int, b as int) as i64)))
            },
            BinOp::Eq => Ok((m, ValueModel::Bool(a == b))),
            BinOp::Ne => Ok((m, ValueModel::Bool(a != b))),
            BinOp::Lt => Ok((m, ValueModel::Bool(a < b))),
            BinOp::Le => Ok((m, ValueModel::Bool(a <= b))),
            BinOp::Gt => Ok((m, ValueModel::Bool(a > b))),
            BinOp::Ge => Ok((m, ValueModel::Bool(a >= b))),
            _ => unsupported,
        },
        (ValueModel::Bool(a), ValueModel::Bool(b)) => match operator {
            BinOp::Eq => Ok((m, ValueModel::Bool(a == b))),
            BinOp::Ne => Ok((m, ValueModel::Bool(a != b))),
            BinOp::And => Ok((m, ValueModel::Bool(a && b))),
            BinOp::Or => Ok((m, ValueModel::Bool(a || b))),
            _ => unsupported,
        },
        _ => if scalar(left) && scalar(right) && operator is Eq {
            Ok((m, ValueModel::Bool(left == right)))
        } else if scalar(left) && scalar(right) && operator is Ne {
            Ok((m, ValueModel::Bool(left != right)))
        } else {
            unsupported
        },
    }
}

/// What an aggregate builds.
pub open spec fn aggregate_run(
    m: Machine,
    kind: AggregateKind,
    elements: Seq<ArgumentElement>,
    span: HirSourceSpan,
) -> Run<ValueModel> {
    if !all_single(elements) {
        refused(aggregate_spelling(kind) + " aggregate with a spread element"@, span)
    } else {
        match operands_run(m, element_operands(elements), 0, Seq::empty(), span) {
            Err(halt) => Err(halt),
            Ok((m, values)) => match kind {
                AggregateKind::Tuple => if scalar_pair(ValueModel::Tuple(values)) {
                    Ok((m, ValueModel::Tuple(values)))
                } else {
                    refused("tuple aggregate outside the two-scalar collection-element profile"@, span)
                },
                AggregateKind::List => if scalar_pairs(values) {
                    Ok((m, ValueModel::List { elements: values, next: 0 }))
                } else {
                    refused("list aggregate outside the list[tuple[scalar, scalar]] profile"@, span)
                },
                _ => refused(aggregate_spelling(kind) + " aggregate"@, span),
            },
        }
    }
}

/// Values bound to locals, one for one.
pub open spec fn paired(locals: Seq<LocalId>, values: Seq<ValueModel>) -> Seq<(LocalId, ValueModel)> {
    Seq::new(values.len(), |i: int| (locals[i], values[i]))
}

/// Building a callable: its captured values are evaluated now.
pub open spec fn callable_run(
    m: Machine,
    params: Rc<Vec<CallableParam>>,
    captured: Seq<Operand>,
    body: Rc<ClosureBody>,
    span: HirSourceSpan,
) -> Run<ValueModel> {
    if captured.len() != body.capture_locals@.len() {
        refused("callable capture metadata mismatch"@, span)
    } else {
        match operands_run(m, captured, 0, Seq::empty(), span) {
            Err(halt) => Err(halt),
            Ok((m, values)) => Ok(
                (
                    m,
                    ValueModel::Callable(
                        CallableModel { params, captures: paired(body.capture_locals@, values), body },
                    ),
                ),
            ),
        }
    }
}

/// Binding captured values to fresh locals, from a place in the run on.
pub open spec fn captured_env(
    env: Map<LocalId, ValueModel>,
    locals: Seq<LocalId>,
    values: Seq<ValueModel>,
    from: int,
) -> Option<Map<LocalId, ValueModel>>
    decreases values.len() - from,
{
    if from < 0 || from >= values.len() {
        Some(env)
    } else if env.contains_key(locals[from]) {
        None
    } else {
        captured_env(env.insert(locals[from], values[from]), locals, values, from + 1)
    }
}

/// The marker of a generator expression's frame.
pub open spec fn expression_evidence(body: GeneratorBody, span: HirSourceSpan) -> Seq<char> {
    "executed generator-expression frame span="@ + decimal(span.start as nat) + ".."@ + decimal(span.end as nat)
        + " source_local=_"@ + decimal(body.source_local.0 as nat) + " captures="@ + decimal(
        body.capture_locals@.len(),
    ) + " statements="@ + decimal(body.stmts@.len())
}

/// A generator that starts at the first of its statements.
pub open spec fn suspended(
    locals: Map<LocalId, ValueModel>,
    stmts: Rc<Vec<Statement>>,
    named_body: Option<Rc<Body>>,
    evidence: Seq<char>,
) -> ValueModel {
    ValueModel::Generator(
        GeneratorModel {
            locals,
            cursors: seq![GeneratorCursor { statements: stmts, next: 0, is_loop: false }],
            exhausted: false,
            steps: 0,
            named_body,
            frame_evidence: Some(evidence),
        },
    )
}

/// Building a generator: its source and captured values are evaluated now, its body is not run.
pub open spec fn generator_run(
    m: Machine,
    source: Operand,
    captured: Seq<Operand>,
    body: GeneratorBody,
    span: HirSourceSpan,
) -> Run<ValueModel> {
    if captured.len() != body.capture_locals@.len() {
        refused("generator capture metadata mismatch"@, span)
    } else {
        match operand_run(m, source, span) {
            Err(halt) => Err(halt),
            Ok((m, source)) => match operands_run(m, captured, 0, Seq::empty(), span) {
                Err(halt) => Err(halt),
                Ok((m, values)) => match captured_env(
                    Map::empty().insert(body.source_local, source),
                    body.capture_locals@,
                    values,
                    0,
                ) {
                    None => refused("generator capture aliases its source local"@, span),
                    Some(env) => Ok((m, suspended(env, body.stmts, None, expression_evidence(body, span)))),
                },
            },
        }
    }
}

/// Evaluating an rvalue.
pub open spec fn rvalue_run(m: Machine, rvalue: Rvalue, span: HirSourceSpan) -> Run<ValueModel> {
    match rvalue {
        Rvalue::Use(operand) => operand_run(m, operand, span),
        Rvalue::UnaryOp(operator, operand) => match operand_run(m, operand, span) {
            Err(halt) => Err(halt),
            Ok((m, value)) => unary_result(m, operator, value, span),
        },
        Rvalue::BinaryOp(operator, left, right) => match operand_run(m, left, span) {
            Err(halt) => Err(halt),
            Ok((m, left)) => match operand_run(m, right, span) {
                Err(halt) => Err(halt),
                Ok((m, right)) => binary_result(m, operator, left, right, span),
            },
        },
        Rvalue::Aggregate(kind, elements) => aggregate_run(m, kind, elements@, span),
        Rvalue::Format(_) => refused("f-string"@, span),
        Rvalue::Closure { params, captured_operands, body } => callable_run(
            m,
            params,
            captured_operands@,
            body,
            span,
        ),
        Rvalue::Generator { source, captured_operands, body } => generator_run(
            m,
            source,
            captured_operands@,
            body,
            span,
        ),
        Rvalue::Match { .. } => refused("match expression"@, span),
    }
}

/// The integers of a run of values, or the first value that is none.
pub open spec fn integers(values: Seq<ValueModel>, from: int) -> Option<ValueModel>
    decreases values.len() - from,
{
    if from < 0 || from >= values.len() {
        None
    } else if values[from] is Int {
        integers(values, from + 1)
    } else {
        Some(values[from])
    }
}

/// Building a range from its evaluated arguments.
pub open spec fn range_result(m: Machine, values: Seq<ValueModel>, span: HirSourceSpan) -> Run<ValueModel> {
    match integers(values, 0) {
        Some(other) => refused("range argument using "@ + kind_of(other), span),
        None => if values.len() == 1 {
            Ok((m, ValueModel::Range { next: 0, end: values[0]->Int_0, step: 1 }))
        } else if values.len() == 2 {
            Ok((m, ValueModel::Range { next: values[0]->Int_0, end: values[1]->Int_0, step: 1 }))
        } else if values.len() == 3 {
            if values[2]->Int_0 == 0 {
                failed("range step cannot be zero"@, span)
            } else {
                Ok(
                    (
                        m,
                        ValueModel::Range {
                            next: values[0]->Int_0,
                            end: values[1]->Int_0,
                            step: values[2]->Int_0,
                        },
                    ),
                )
            }
        } else {
            refused("range call arity"@, span)
        },
    }
}

/// Building a range.
pub open spec fn range_run(m: Machine, args: Seq<Operand>, span: HirSourceSpan) -> Run<ValueModel> {
    match operands_run(m, args, 0, Seq::empty(), span) {
        Err(halt) => Err(halt),
        Ok((m, values)) => range_result(m, values, span),
    }
}

/// Concatenating two strings.
pub open spec fn concat_run(m: Machine, args: Seq<Operand>, span: HirSourceSpan) -> Run<ValueModel> {
    if args.len() != 2 {
        refused("string-concatenation call arity"@, span)
    } else {
        match operand_run(m, args[0], span) {
            Err(halt) => Err(halt),
            Ok((m, left)) => match left {
                ValueModel::Str(left) => match operand_run(m, args[1], span) {
                    Err(halt) => Err(halt),
                    Ok((m, right)) => match right {
                        ValueModel::Str(right) => Ok((m, ValueModel::Str(left + right))),
                        _ => refused("string operation using "@ + kind_of(right), span),
                    },
                },
                _ => refused("string operation using "@ + kind_of(left), span),
            },
        }
    }
}

/// Taking a local out of the frame for a consumer of iterators.
pub open spec fn receiver_run(
    m: Machine,
    receiver: Operand,
    span: HirSourceSpan,
    no_place: Seq<char>,
    missing: Seq<char>,
) -> Run<ValueModel> {
    match receiver {
        Operand::Constant(_) => refused(no_place, span),
        Operand::Place(read) => match bare_refusal(read.place, span) {
            Some(error) => Err(Halt::Error(error)),
            None => {
                let m = noted(m, read, span);
                if m.locals.contains_key(read.place.local) {
                    Ok((dropped(m, read.place.local), m.locals[read.place.local]))
                } else {
                    failed(missing, span)
                }
            },
        },
    }
}

/// Whether a value is a lazy iterator.
pub open spec fn lazy(value: ValueModel) -> bool {
    value is Generator || value is Adapter
}

/// Taking the receiver of `collect`.
pub open spec fn collect_receiver_run(m: Machine, receiver: Operand, span: HirSourceSpan) -> Run<ValueModel> {
    match receiver_run(
        m,
        receiver,
        span,
        "non-place generator collect receiver"@,
        "read of an unavailable generator receiver"@,
    ) {
        Err(halt) => Err(halt),
        Ok((m, value)) => if lazy(value) {
            Ok((m, value))
        } else {
            refused("collecting "@ + kind_of(value) + " outside the generator profile"@, span)
        },
    }
}

/// Taking the receiver of a lazy adapter.
pub open spec fn adapter_receiver_run(m: Machine, receiver: Operand, span: HirSourceSpan) -> Run<ValueModel> {
    match receiver_run(
        m,
        receiver,
        span,
        "non-place generator adapter receiver"@,
        "read of an unavailable generator adapter receiver"@,
    ) {
        Err(halt) => Err(halt),
        Ok((m, value)) => if lazy(value) {
            Ok((m, value))
        } else {
            refused(kind_of(value) + " adapter outside the generator profile"@, span)
        },
    }
}

/// Building a lazy adapter.
pub open spec fn adapter_run(m: Machine, name: Seq<char>, args: Seq<Operand>, span: HirSourceSpan) -> Run<ValueModel> {
    if args.len() != 2 {
        refused("generator "@ + name + " adapter arity"@, span)
    } else {
        match adapter_receiver_run(m, args[0], span) {
            Err(halt) => Err(halt),
            Ok((m, source)) => match operand_run(m, args[1], span) {
                Err(halt) => Err(halt),
                Ok((m, callback)) => match callback {
                    ValueModel::Callable(callback) => Ok(
                        (
                            m,
                            ValueModel::Adapter {
                                source: Box::new(source),
                                callback,
                                kind: if name == "map"@ {
                                    ReplacementAdapterKind::MapItems
                                } else {
                                    ReplacementAdapterKind::FilterItems
                                },
                            },
                        ),
                    ),
                    _ => refused("generator "@ + name + " adapter callback is not a stored callable"@, span),
                },
            },
        }
    }
}

/// Taking the callable that a call by value calls.
pub open spec fn callee_run(m: Machine, read: PlaceOperand, span: HirSourceSpan) -> Run<CallableModel> {
    match bare_refusal(read.place, span) {
        Some(error) => Err(Halt::Error(error)),
        None => {
            let m = noted(m, read, span);
            let local = read.place.local;
            if read.fact is Unknown || !m.locals.contains_key(local) {
                failed("read of an unavailable callable receiver"@, span)
            } else {
                let after = if read.fact is Move {
                    dropped(m, local)
                } else {
                    m
                };
                match m.locals[local] {
                    ValueModel::Callable(callable) => Ok((after, callable)),
                    _ => refused(
                        "calling "@ + kind_of(m.locals[local]) + " outside the stored-callable profile"@,
                        span,
                    ),
                }
            }
        },
    }
}

// ---------------------------------------------------------------------------
// Binding arguments
// ---------------------------------------------------------------------------

/// The argument that is written first among those not yet done, from a place in the run on.
pub open spec fn earliest(arguments: Seq<BoundArgument>, done: Seq<bool>, from: int, best: Option<int>) -> Option<int>
    decreases arguments.len() - from,
{
    if from < 0 || from >= arguments.len() {
        best
    } else {
        let better = !done[from] && (match best {
            None => true,
            Some(b) => arguments[from].written_position < arguments[b].written_position,
        });
        earliest(
            arguments,
            done,
            from + 1,
            if better {
                Some(from)
            } else {
                best
            },
        )
    }
}

/// Whether an argument's written position is its own.
pub open spec fn written_once(arguments: Seq<BoundArgument>, at: int) -> bool {
    forall|i: int|
        0 <= i < arguments.len() && i != at ==> (#[trigger] arguments[i]).written_position
            != arguments[at].written_position
}

/// Evaluating a call's arguments in written order into their slots.
pub open spec fn arguments_run(
    m: Machine,
    arguments: Seq<BoundArgument>,
    args: Seq<Operand>,
    done: Seq<bool>,
    round: int,
    supplied: Seq<Option<ValueModel>>,
    span: HirSourceSpan,
) -> Run<Seq<Option<ValueModel>>>
    decreases arguments.len() - round,
{
    if round < 0 || round >= arguments.len() {
        Ok((m, supplied))
    } else {
        match earliest(arguments, done, 0, None) {
            None => Ok((m, supplied)),
            Some(at) => {
                let slot = arguments[at].slot as int;
                if slot >= supplied.len() || supplied[slot] is Some || !written_once(arguments, at) {
                    refused("invalid resolved callable argument binding"@, span)
                } else {
                    match operand_run(m, args[at], span) {
                        Err(halt) => Err(halt),
                        Ok((m, value)) => arguments_run(
                            m,
                            arguments,
                            args,
                            done.update(at, true),
                            round + 1,
                            supplied.update(slot, Some(value)),
                            span,
                        ),
                    }
                }
            },
        }
    }
}

/// The first slot, from a place in the run on, that has neither a value nor a default-binding fact.
pub open spec fn omitted(supplied: Seq<Option<ValueModel>>, defaulted: Seq<usize>, from: int) -> Option<int>
    decreases supplied.len() - from,
{
    if from < 0 || from >= supplied.len() {
        None
    } else if supplied[from] is None && !(exists|k: int|
        0 <= k < defaulted.len() && #[trigger] defaulted[k] == from) {
        Some(from)
    } else {
        omitted(supplied, defaulted, from + 1)
    }
}

/// Whether a default-binding fact names no slot, or one that has a value.
pub open spec fn misdefaulted(supplied: Seq<Option<ValueModel>>, defaulted: Seq<usize>) -> bool {
    exists|k: int|
        0 <= k < defaulted.len() && ((#[trigger] defaulted[k]) >= supplied.len() || supplied[defaulted[k] as int] is Some)
}

/// No values for a number of slots.
pub open spec fn no_values(count: nat) -> Seq<Option<ValueModel>> {
    Seq::new(count, |i: int| None)
}

/// Evaluating a call's arguments into the callee's slots, leaving slots that take their default empty.
pub open spec fn supplied_run(
    m: Machine,
    params: Seq<CallableParam>,
    args: Seq<Operand>,
    binding: ArgumentBinding,
    span: HirSourceSpan,
) -> Run<Seq<Option<ValueModel>>> {
    match binding {
        ArgumentBinding::UnresolvedPositional => refused(
            "call with unresolved parameter binding outside the callable replacement profile"@,
            span,
        ),
        ArgumentBinding::Resolved { arguments, defaulted_slots } => if arguments@.len() != args.len() {
            refused("call argument-binding metadata mismatch"@, span)
        } else {
            match arguments_run(
                m,
                arguments@,
                args,
                Seq::new(arguments@.len(), |i: int| false),
                0,
                no_values(params.len()),
                span,
            ) {
                Err(halt) => Err(halt),
                Ok((m, supplied)) => match omitted(supplied, defaulted_slots@, 0) {
                    Some(slot) => refused(
                        "call omitted parameter `"@ + params[slot].name@ + "` without a default-binding fact"@,
                        span,
                    ),
                    None => if misdefaulted(supplied, defaulted_slots@) {
                        refused("invalid defaulted callable parameter binding"@, span)
                    } else {
                        Ok((m, supplied))
                    },
                },
            }
        },
    }
}

/// Whether two captured values share a local.
pub open spec fn recaptured(captures: Seq<(LocalId, ValueModel)>) -> bool {
    exists|i: int, j: int| 0 <= i < j < captures.len() && (#[trigger] captures[i]).0 == (#[trigger] captures[j]).0
}

// ---------------------------------------------------------------------------
// Generator cursors
// ---------------------------------------------------------------------------

/// The innermost entered loop among the first blocks of a run.
pub open spec fn innermost_loop(cursors: Seq<GeneratorCursor>, before: int) -> Option<int>
    decreases before,
{
    if before <= 0 || before > cursors.len() {
        None
    } else if cursors[before - 1].is_loop {
        Some(before - 1)
    } else {
        innermost_loop(cursors, before - 1)
    }
}

/// The entered blocks after the innermost loop was left.
pub open spec fn loop_left(cursors: Seq<GeneratorCursor>, span: HirSourceSpan) -> Result<Seq<GeneratorCursor>, Halt> {
    match innermost_loop(cursors, cursors.len() as int) {
        Some(at) => Ok(cursors.take(at)),
        None => Err(Halt::Error(ErrorModel::Unsupported("generator break outside a loop"@, span))),
    }
}

/// The entered blocks after the innermost loop was started over.
pub open spec fn loop_restarted(cursors: Seq<GeneratorCursor>, span: HirSourceSpan) -> Result<
    Seq<GeneratorCursor>,
    Halt,
> {
    match innermost_loop(cursors, cursors.len() as int) {
        Some(at) => Ok(cursors.take(at).push(GeneratorCursor { next: 0, ..cursors[at] })),
        None => Err(Halt::Error(ErrorModel::Unsupported("generator continue outside a loop"@, span))),
    }
}

/// The entered blocks with the innermost one moved to another statement.
pub open spec fn moved(cursors: Seq<GeneratorCursor>, next: usize) -> Seq<GeneratorCursor> {
    cursors.update(cursors.len() - 1, GeneratorCursor { next, ..cursors.last() })
}

/// The entered blocks with one more inside.
pub open spec fn entered(cursors: Seq<GeneratorCursor>, stmts: Rc<Vec<Statement>>, is_loop: bool) -> Seq<GeneratorCursor> {
    cursors.push(GeneratorCursor { statements: stmts, next: 0, is_loop })
}

/// Where a generator stands after it was resumed: its entered blocks, whether it is exhausted, and what it yielded.
pub type Resumption = (Seq<GeneratorCursor>, bool, Option<ValueModel>);

// ---------------------------------------------------------------------------
// Statements, calls and generators
// ---------------------------------------------------------------------------

/// A run with less fuel than it needs.
pub open spec fn exhausted<T>() -> Run<T> {
    Err(Halt::Exhausted)
}

/// Executing the statements of a block from a place in it on, counting each.
pub open spec fn block_run(p: BodyIrModule, fuel: nat, m: Machine, stmts: Seq<Statement>, from: int) -> Run<FlowModel>
    decreases fuel, stmts.len() - from,
{
    if from < 0 || from >= stmts.len() {
        Ok((m, FlowModel::Next))
    } else if fuel == 0 {
        exhausted()
    } else {
        match stepped(m, stmts[from].span) {
            Err(halt) => Err(halt),
            Ok(m) => match statement_run(p, (fuel - 1) as nat, m, stmts[from]) {
                Err(halt) => Err(halt),
                Ok((m, flow)) => match flow {
                    FlowModel::Next => block_run(p, fuel, m, stmts, from + 1),
                    _ => Ok((m, flow)),
                },
            },
        }
    }
}

/// Executing the statements of an expression's frame from a place in them on. They may not leave the frame.
pub open spec fn sequence_run(
    p: BodyIrModule,
    fuel: nat,
    m: Machine,
    stmts: Seq<Statement>,
    from: int,
    complaint: Seq<char>,
) -> Run<()>
    decreases fuel, stmts.len() - from,
{
    if from < 0 || from >= stmts.len() {
        Ok((m, ()))
    } else if fuel == 0 {
        exhausted()
    } else {
        match statement_run(p, (fuel - 1) as nat, m, stmts[from]) {
            Err(halt) => Err(halt),
            Ok((m, flow)) => match flow {
                FlowModel::Next => sequence_run(p, fuel, m, stmts, from + 1, complaint),
                _ => refused(complaint, stmts[from].span),
            },
        }
    }
}

/// Executing one statement.
pub open spec fn statement_run(p: BodyIrModule, fuel: nat, m: Machine, statement: Statement) -> Run<FlowModel>
    decreases fuel, 0int,
{
    let span = statement.span;
    if fuel == 0 {
        exhausted()
    } else {
        let less = (fuel - 1) as nat;
        match statement.kind {
            StatementKind::Assign { place, rvalue } => match bare_refusal(place, span) {
                Some(error) => Err(Halt::Error(error)),
                None => match rvalue_run(m, rvalue, span) {
                    Err(halt) => Err(halt),
                    Ok((m, value)) => Ok((assigned(m, place.local, value), FlowModel::Next)),
                },
            },
            StatementKind::Call { destination, callee, args, .. } => call_run(
                p,
                less,
                m,
                destination,
                callee,
                args@,
                span,
            ),
            StatementKind::Drop { local } => Ok((dropped(m, local), FlowModel::Next)),
            StatementKind::If { cond, then_block, else_block } => match condition_run(m, cond, span) {
                Err(halt) => Err(halt),
                Ok((m, holds)) => if holds {
                    block_run(p, less, m, then_block.stmts@, 0)
                } else {
                    match else_block {
                        Some(block) => block_run(p, less, m, block.stmts@, 0),
                        None => Ok((m, FlowModel::Next)),
                    }
                },
            },
            StatementKind::Loop { body } => loop_run(p, less, m, body.stmts@, span),
            StatementKind::Break { value } => match value {
                Some(_) => refused("value-carrying loop break"@, span),
                None => Ok((m, FlowModel::Break)),
            },
            StatementKind::Continue => Ok((m, FlowModel::Continue)),
            StatementKind::Return { value } => match value {
                None => Ok((m, FlowModel::Return(None))),
                Some(operand) => match operand_run(m, operand, span) {
                    Err(halt) => Err(halt),
                    Ok((m, value)) => Ok((m, FlowModel::Return(Some(value)))),
                },
            },
            StatementKind::Assert { cond, message, .. } => match condition_run(m, cond, span) {
                Err(halt) => Err(halt),
                Ok((m, holds)) => if holds {
                    Ok((m, FlowModel::Next))
                } else {
                    match message {
                        None => failed("assertion failed"@, span),
                        Some(operand) => match operand_run(m, operand, span) {
                            Err(halt) => Err(halt),
                            Ok((m, text)) => failed("assertion failed: "@ + observable(text), span),
                        },
                    }
                },
            },
            StatementKind::Expr { value } => match operand_run(m, value, span) {
                Err(halt) => Err(halt),
                Ok((m, _)) => Ok((m, FlowModel::Next)),
            },
            StatementKind::IterNext { destination, iterator, protocol } => match protocol {
                IterProtocol::Builtin => iterate_run(p, less, m, destination, iterator, span),
                IterProtocol::Method => refused("non-range iteration"@, span),
            },
            StatementKind::Yield { .. } => refused("generator yield outside a generator expression"@, span),
            StatementKind::TryPropagate { .. } => refused("try propagation"@, span),
            StatementKind::Await { .. } => refused("async await suspension"@, span),
            StatementKind::Race { .. } => refused("async race selection"@, span),
            StatementKind::Unsupported { description } => refused(description@, span),
        }
    }
}

/// Repeating a block until something leaves it. A round that executes no statement counts as one.
pub open spec fn loop_run(p: BodyIrModule, fuel: nat, m: Machine, stmts: Seq<Statement>, span: HirSourceSpan) -> Run<
    FlowModel,
>
    decreases fuel, 0int,
{
    if fuel == 0 {
        exhausted()
    } else {
        let less = (fuel - 1) as nat;
        match block_run(p, less, m, stmts, 0) {
            Err(halt) => Err(halt),
            Ok((m, flow)) => match flow {
                FlowModel::Break => Ok((m, FlowModel::Next)),
                FlowModel::Return(value) => Ok((m, FlowModel::Return(value))),
                _ => {
                    let m = if stmts.len() == 0 {
                        Machine { steps: next_step(m.steps), ..m }
                    } else {
                        m
                    };
                    if m.steps >= MAX_EXECUTION_STEPS {
                        failed("normalized loop exceeded the 100000-step replacement profile limit"@, span)
                    } else {
                        loop_run(p, less, m, stmts, span)
                    }
                },
            },
        }
    }
}

/// Polling an iterator that a local holds: exhaustion leaves the innermost loop.
pub open spec fn iterate_run(
    p: BodyIrModule,
    fuel: nat,
    m: Machine,
    destination: Place,
    iterator: Operand,
    span: HirSourceSpan,
) -> Run<FlowModel>
    decreases fuel, 0int,
{
    if fuel == 0 {
        exhausted()
    } else {
        match receiver_run(
            m,
            iterator,
            span,
            "non-place builtin iterator"@,
            "read of an unavailable builtin iterator"@,
        ) {
            Err(halt) => Err(halt),
            Ok((m, value)) => match poll_run(p, (fuel - 1) as nat, m, value, span) {
                Err(halt) => Err(halt),
                Ok((m, (value, item))) => {
                    let m = assigned(m, iterator->Place_0.place.local, value);
                    match item {
                        None => Ok((m, FlowModel::Break)),
                        Some(item) => match bare_refusal(destination, span) {
                            Some(error) => Err(Halt::Error(error)),
                            None => Ok((assigned(m, destination.local, item), FlowModel::Next)),
                        },
                    }
                },
            },
        }
    }
}

/// Executing a call and storing its result.
pub open spec fn call_run(
    p: BodyIrModule,
    fuel: nat,
    m: Machine,
    destination: Option<Place>,
    callee: Callee,
    args: Seq<ArgumentElement>,
    span: HirSourceSpan,
) -> Run<FlowModel>
    decreases fuel, 0int,
{
    if fuel == 0 {
        exhausted()
    } else if !all_single(args) {
        refused("call to "@ + callee_spelling(callee) + " with a spread argument"@, span)
    } else {
        match destination {
            None => refused("discarded string-concatenation result"@, span),
            Some(place) => match bare_refusal(place, span) {
                Some(error) => Err(Halt::Error(error)),
                None => match callee_value_run(p, (fuel - 1) as nat, m, callee, element_operands(args), span) {
                    Err(halt) => Err(halt),
                    Ok((m, value)) => Ok((assigned(m, place.local, value), FlowModel::Next)),
                },
            },
        }
    }
}

/// The value of a call with fixed arguments.
pub open spec fn callee_value_run(
    p: BodyIrModule,
    fuel: nat,
    m: Machine,
    callee: Callee,
    args: Seq<Operand>,
    span: HirSourceSpan,
) -> Run<ValueModel>
    decreases fuel, 0int,
{
    if fuel == 0 {
        exhausted()
    } else {
        let less = (fuel - 1) as nat;
        match callee {
            Callee::Helper(HelperOp::StrConcat) => concat_run(m, args, span),
            Callee::Function(CallableTarget::Named(target)) => if target.name@ == "range"@ {
                range_run(m, args, span)
            } else {
                named_run(p, less, m, target, args, span)
            },
            Callee::Function(CallableTarget::Local(target)) => local_run(p, less, m, target, args, span),
            Callee::Method(target) => if target.name@ == "collect"@ {
                if args.len() != 1 {
                    refused("generator collect call arity"@, span)
                } else {
                    match collect_receiver_run(m, args[0], span) {
                        Err(halt) => Err(halt),
                        Ok((m, iterator)) => collect_run(p, less, m, iterator, Seq::empty(), span),
                    }
                }
            } else if target.name@ == "map"@ || target.name@ == "filter"@ {
                adapter_run(m, target.name@, args, span)
            } else {
                refused("call to "@ + callee_spelling(callee), span)
            },
            _ => refused("call to "@ + callee_spelling(callee), span),
        }
    }
}

/// Calling a callable that a local holds.
pub open spec fn local_run(
    p: BodyIrModule,
    fuel: nat,
    m: Machine,
    target: LocalCallableTarget,
    args: Seq<Operand>,
    span: HirSourceSpan,
) -> Run<ValueModel>
    decreases fuel, 0int,
{
    if fuel == 0 {
        exhausted()
    } else {
        let less = (fuel - 1) as nat;
        match callee_run(m, target.operand, span) {
            Err(halt) => Err(halt),
            Ok((m, callable)) => if recaptured(callable.captures) {
                refused("duplicate callable capture local"@, span)
            } else {
                match supplied_run(m, callable.params@, args, target.binding, span) {
                    Err(halt) => Err(halt),
                    Ok((m, supplied)) => match bound_run(
                        p,
                        less,
                        m,
                        callable.params@,
                        supplied,
                        environment(callable.captures),
                        environment(callable.captures),
                        0,
                        span,
                    ) {
                        Err(halt) => Err(halt),
                        Ok((m, env)) => frame_run(p, less, m, callable, env, span, "stored callable"@),
                    },
                }
            },
        }
    }
}

/// The marker of a callable's frame.
pub open spec fn callable_evidence(callable: CallableModel, span: HirSourceSpan, kind: Seq<char>) -> Seq<char> {
    "executed "@ + kind + " frame call_span="@ + decimal(span.start as nat) + ".."@ + decimal(span.end as nat)
        + " params="@ + decimal(callable.params@.len()) + " captures="@ + decimal(callable.captures.len())
        + " statements="@ + decimal(callable.body.stmts@.len())
}

/// Executing a callable's body in a fresh frame.
pub open spec fn frame_run(
    p: BodyIrModule,
    fuel: nat,
    m: Machine,
    callable: CallableModel,
    env: Map<LocalId, ValueModel>,
    span: HirSourceSpan,
    kind: Seq<char>,
) -> Run<ValueModel>
    decreases fuel, 0int,
{
    if fuel == 0 {
        exhausted()
    } else {
        match sequence_run(
            p,
            (fuel - 1) as nat,
            frame(env, m.steps),
            callable.body.stmts@,
            0,
            "control flow in a callable expression body"@,
        ) {
            Err(halt) => Err(halt),
            Ok((child, _)) => match operand_run(child, callable.body.result, span) {
                Err(halt) => Err(halt),
                Ok((child, value)) => Ok(
                    (evidenced(merged(m, child), callable_evidence(callable, span, kind)), value),
                ),
            },
        }
    }
}

/// The marker of a generator function's frame.
pub open spec fn function_evidence(body: Body, span: HirSourceSpan) -> Seq<char> {
    "executed generator-function frame name="@ + body.name@ + " call_span="@ + decimal(span.start as nat) + ".."@
        + decimal(span.end as nat) + " statements="@ + decimal(body.block.stmts@.len())
}

/// Calling a function of the module by name; a generator function is not run but suspended.
pub open spec fn named_run(
    p: BodyIrModule,
    fuel: nat,
    m: Machine,
    target: NamedCallableTarget,
    args: Seq<Operand>,
    span: HirSourceSpan,
) -> Run<ValueModel>
    decreases fuel, 0int,
{
    if fuel == 0 {
        exhausted()
    } else {
        let less = (fuel - 1) as nat;
        match callable_body(p, target.name@, span) {
            Err(error) => Err(Halt::Error(error)),
            Ok(body) => match body_refusal(*body) {
                Some(error) => Err(Halt::Error(error)),
                None => match supplied_run(m, body.params@, args, target.binding, span) {
                    Err(halt) => Err(halt),
                    Ok((m, supplied)) => match bound_run(
                        p,
                        less,
                        m,
                        body.params@,
                        supplied,
                        Map::empty(),
                        Map::empty(),
                        0,
                        span,
                    ) {
                        Err(halt) => Err(halt),
                        Ok((m, env)) => if body.yields {
                            Ok((m, suspended(env, body.block.stmts, Some(body), function_evidence(*body, span))))
                        } else {
                            match block_run(
                                p,
                                less,
                                recorded(frame(env, m.steps), *body),
                                body.block.stmts@,
                                0,
                            ) {
                                Err(halt) => Err(halt),
                                Ok((child, flow)) => match flow {
                                    FlowModel::Return(Some(value)) => Ok((merged(m, child), value)),
                                    FlowModel::Return(None) => Ok((merged(m, child), ValueModel::Unit)),
                                    FlowModel::Next => Ok((merged(m, child), ValueModel::Unit)),
                                    _ => refused("loop control outside a nested callable loop"@, body.span),
                                },
                            }
                        },
                    },
                },
            },
        }
    }
}

/// The value that a parameter takes from a call.
pub open spec fn parameter_run(
    p: BodyIrModule,
    fuel: nat,
    m: Machine,
    parameter: CallableParam,
    supplied: Option<ValueModel>,
    captures: Map<LocalId, ValueModel>,
    span: HirSourceSpan,
) -> Run<ValueModel>
    decreases fuel, 0int,
{
    if fuel == 0 {
        exhausted()
    } else {
        match supplied {
            Some(value) => Ok((m, value)),
            None => match parameter.default {
                CallableParamDefault::Required => refused(
                    "missing required callable parameter `"@ + parameter.name@ + "`"@,
                    span,
                ),
                CallableParamDefault::Source(computation) => default_run(p, (fuel - 1) as nat, m, computation),
                CallableParamDefault::PartialPreset { capture } => if captures.contains_key(capture) {
                    Ok((m, captures[capture]))
                } else {
                    refused(
                        "missing construction-time preset for parameter `"@ + parameter.name@ + "`"@,
                        parameter.span,
                    )
                },
                CallableParamDefault::Unsupported { span: at, description } => refused(
                    "unsupported default for parameter `"@ + parameter.name@ + "`: "@ + description@,
                    at,
                ),
            },
        }
    }
}

/// Binding parameters from a place in the run on: supplied values, defaults and presets enter one frame.
pub open spec fn bound_run(
    p: BodyIrModule,
    fuel: nat,
    m: Machine,
    params: Seq<CallableParam>,
    supplied: Seq<Option<ValueModel>>,
    captures: Map<LocalId, ValueModel>,
    env: Map<LocalId, ValueModel>,
    from: int,
    span: HirSourceSpan,
) -> Run<Map<LocalId, ValueModel>>
    decreases fuel, params.len() - from,
{
    if supplied.len() != params.len() {
        refused("callable parameter binding arity mismatch"@, span)
    } else if from < 0 || from >= params.len() {
        Ok((m, env))
    } else if fuel == 0 {
        exhausted()
    } else {
        match parameter_run(p, (fuel - 1) as nat, m, params[from], supplied[from], captures, span) {
            Err(halt) => Err(halt),
            Ok((m, value)) => if env.contains_key(params[from].local) {
                refused("callable parameter aliases a captured local"@, params[from].span)
            } else {
                bound_run(
                    p,
                    fuel,
                    m,
                    params,
                    supplied,
                    captures,
                    env.insert(params[from].local, value),
                    from + 1,
                    span,
                )
            },
        }
    }
}

/// The marker of a default computation's frame.
pub open spec fn default_evidence(computation: DefaultComputation) -> Seq<char> {
    "executed source default frame span="@ + decimal(computation.span.start as nat) + ".."@ + decimal(
        computation.span.end as nat,
    ) + " statements="@ + decimal(computation.stmts@.len())
}

/// Computing a parameter's default in a frame of its own.
pub open spec fn default_run(p: BodyIrModule, fuel: nat, m: Machine, computation: DefaultComputation) -> Run<ValueModel>
    decreases fuel, 0int,
{
    if fuel == 0 {
        exhausted()
    } else {
        match sequence_run(
            p,
            (fuel - 1) as nat,
            frame(Map::empty(), m.steps),
            computation.stmts@,
            0,
            "control flow in a callable default computation"@,
        ) {
            Err(halt) => Err(halt),
            Ok((child, _)) => match operand_run(child, computation.result, computation.span) {
                Err(halt) => Err(halt),
                Ok((child, value)) => Ok((evidenced(merged(m, child), default_evidence(computation)), value)),
            },
        }
    }
}

/// Polling an iterator until it is exhausted, behind items already collected.
pub open spec fn collect_run(
    p: BodyIrModule,
    fuel: nat,
    m: Machine,
    iterator: ValueModel,
    items: Seq<ValueModel>,
    span: HirSourceSpan,
) -> Run<ValueModel>
    decreases fuel, 0int,
{
    if fuel == 0 {
        exhausted()
    } else {
        let less = (fuel - 1) as nat;
        match poll_run(p, less, m, iterator, span) {
            Err(halt) => Err(halt),
            Ok((m, (iterator, item))) => match item {
                None => Ok((m, ValueModel::CollectedGenerator { elements: items, next: 0 })),
                Some(item) => collect_run(p, less, m, iterator, items.push(item), span),
            },
        }
    }
}

/// Polling an iterator once: what it is afterwards, and its item.
pub open spec fn poll_run(p: BodyIrModule, fuel: nat, m: Machine, value: ValueModel, span: HirSourceSpan) -> Run<
    (ValueModel, Option<ValueModel>),
>
    decreases fuel, 0int,
{
    if fuel == 0 {
        exhausted()
    } else {
        let less = (fuel - 1) as nat;
        match value {
            ValueModel::Range { next, end, step } => if (step > 0 && next < end) || (step < 0 && next > end) {
                if i64::MIN <= next + step <= i64::MAX {
                    Ok(
                        (
                            m,
                            (
                                ValueModel::Range { next: (next + step) as i64, end, step },
                                Some(ValueModel::Int(next)),
                            ),
                        ),
                    )
                } else {
                    Err(Halt::Overflow(span))
                }
            } else {
                Ok((m, (value, None)))
            },
            ValueModel::List { elements, next } => if next < elements.len() {
                Ok((m, (ValueModel::List { elements, next: (next + 1) as usize }, Some(elements[next as int]))))
            } else {
                Ok((m, (value, None)))
            },
            ValueModel::CollectedGenerator { elements, next } => if next < elements.len() {
                Ok(
                    (
                        m,
                        (
                            ValueModel::CollectedGenerator { elements, next: (next + 1) as usize },
                            Some(elements[next as int]),
                        ),
                    ),
                )
            } else {
                Ok((m, (value, None)))
            },
            ValueModel::Generator(generator) => match generator_poll_run(p, less, m, generator, span) {
                Err(halt) => Err(halt),
                Ok((m, (generator, item))) => Ok((m, (ValueModel::Generator(generator), item))),
            },
            ValueModel::Adapter { source, callback, kind } => match adapter_poll_run(
                p,
                less,
                m,
                *source,
                callback,
                kind,
                span,
            ) {
                Err(halt) => Err(halt),
                Ok((m, (source, item))) => Ok(
                    (m, (ValueModel::Adapter { source: Box::new(source), callback, kind }, item)),
                ),
            },
            _ => refused("iteration over "@ + kind_of(value), span),
        }
    }
}

/// Polling a lazy adapter: what its source is afterwards, and its item.
pub open spec fn adapter_poll_run(
    p: BodyIrModule,
    fuel: nat,
    m: Machine,
    source: ValueModel,
    callback: CallableModel,
    kind: ReplacementAdapterKind,
    span: HirSourceSpan,
) -> Run<(ValueModel, Option<ValueModel>)>
    decreases fuel, 0int,
{
    if fuel == 0 {
        exhausted()
    } else {
        let less = (fuel - 1) as nat;
        match poll_run(p, less, m, source, span) {
            Err(halt) => Err(halt),
            Ok((m, (source, item))) => match item {
                None => Ok((m, (source, None))),
                Some(item) => match invoke_run(p, less, m, callback, seq![Some(item)], span) {
                    Err(halt) => Err(halt),
                    Ok((m, answer)) => match kind {
                        ReplacementAdapterKind::MapItems => Ok((m, (source, Some(answer)))),
                        ReplacementAdapterKind::FilterItems => match condition(m, answer, span) {
                            Err(halt) => Err(halt),
                            Ok((m, keep)) => if keep {
                                Ok((m, (source, Some(item))))
                            } else {
                                adapter_poll_run(p, less, m, source, callback, kind, span)
                            },
                        },
                    },
                },
            },
        }
    }
}

/// Calling a callable with values at hand.
pub open spec fn invoke_run(
    p: BodyIrModule,
    fuel: nat,
    m: Machine,
    callable: CallableModel,
    supplied: Seq<Option<ValueModel>>,
    span: HirSourceSpan,
) -> Run<ValueModel>
    decreases fuel, 0int,
{
    if fuel == 0 {
        exhausted()
    } else if recaptured(callable.captures) {
        refused("duplicate callable capture local"@, span)
    } else {
        let less = (fuel - 1) as nat;
        match bound_run(
            p,
            less,
            m,
            callable.params@,
            supplied,
            environment(callable.captures),
            environment(callable.captures),
            0,
            span,
        ) {
            Err(halt) => Err(halt),
            Ok((m, env)) => frame_run(p, less, m, callable, env, span, "generator-adapter callback"@),
        }
    }
}

/// The frame in which a suspended generator continues.
pub open spec fn resumed_frame(m: Machine, generator: GeneratorModel) -> Machine {
    let fresh = frame(
        generator.locals,
        if m.steps >= generator.steps {
            m.steps
        } else {
            generator.steps
        },
    );
    let named = match generator.named_body {
        Some(body) => recorded(fresh, *body),
        None => fresh,
    };
    match generator.frame_evidence {
        Some(evidence) => evidenced(named, evidence),
        None => named,
    }
}

/// Resuming a generator until it yields or is exhausted: what it is afterwards, and its item.
pub open spec fn generator_poll_run(
    p: BodyIrModule,
    fuel: nat,
    m: Machine,
    generator: GeneratorModel,
    span: HirSourceSpan,
) -> Run<(GeneratorModel, Option<ValueModel>)>
    decreases fuel, 0int,
{
    if fuel == 0 {
        exhausted()
    } else {
        let start = resumed_frame(m, generator);
        let outcome = if generator.exhausted {
            Ok((start, (generator.cursors, true, None)))
        } else {
            resume_run(p, (fuel - 1) as nat, start, generator.cursors, span)
        };
        match outcome {
            Err(halt) => Err(halt),
            Ok((child, (cursors, done, item))) => Ok(
                (
                    merged(m, child),
                    (
                        GeneratorModel {
                            locals: child.locals,
                            cursors,
                            exhausted: done,
                            steps: child.steps,
                            named_body: None,
                            frame_evidence: None,
                        },
                        item,
                    ),
                ),
            ),
        }
    }
}

/// Interpreting a generator's entered blocks until the first yield or final exhaustion.
pub open spec fn resume_run(
    p: BodyIrModule,
    fuel: nat,
    m: Machine,
    cursors: Seq<GeneratorCursor>,
    span: HirSourceSpan,
) -> Run<Resumption>
    decreases fuel, 0int,
{
    if fuel == 0 {
        exhausted()
    } else if cursors.len() == 0 {
        Ok((m, (cursors, true, None)))
    } else {
        let less = (fuel - 1) as nat;
        let cursor = cursors.last();
        if cursor.next >= cursor.statements@.len() {
            if !cursor.is_loop {
                resume_run(p, less, m, cursors.drop_last(), span)
            } else if cursor.statements@.len() == 0 {
                match stepped(m, span) {
                    Err(halt) => Err(halt),
                    Ok(m) => resume_run(p, less, m, moved(cursors, 0), span),
                }
            } else {
                resume_run(p, less, m, moved(cursors, 0), span)
            }
        } else {
            let statement = cursor.statements@[cursor.next as int];
            match stepped(m, statement.span) {
                Err(halt) => Err(halt),
                Ok(m) => match generator_statement_run(
                    p,
                    less,
                    m,
                    moved(cursors, (cursor.next + 1) as usize),
                    statement,
                ) {
                    Err(halt) => Err(halt),
                    Ok((m, (cursors, done, item))) => if done || item is Some {
                        Ok((m, (cursors, done, item)))
                    } else if m.steps >= MAX_EXECUTION_STEPS {
                        failed("generator exceeded the 100000-step replacement profile limit"@, span)
                    } else {
                        resume_run(p, less, m, cursors, span)
                    },
                },
            }
        }
    }
}

/// One statement of a generator: where the generator stands behind it, and what it yields.
pub open spec fn generator_statement_run(
    p: BodyIrModule,
    fuel: nat,
    m: Machine,
    cursors: Seq<GeneratorCursor>,
    statement: Statement,
) -> Run<Resumption>
    decreases fuel, 0int,
{
    let span = statement.span;
    if fuel == 0 {
        exhausted()
    } else {
        match statement.kind {
            StatementKind::Yield { value } => match operand_run(m, value, span) {
                Err(halt) => Err(halt),
                Ok((m, value)) => Ok((m, (cursors, false, Some(value)))),
            },
            StatementKind::If { cond, then_block, else_block } => match condition_run(m, cond, span) {
                Err(halt) => Err(halt),
                Ok((m, holds)) => if holds {
                    Ok((m, (entered(cursors, then_block.stmts, false), false, None)))
                } else {
                    match else_block {
                        Some(block) => Ok((m, (entered(cursors, block.stmts, false), false, None))),
                        None => Ok((m, (cursors, false, None))),
                    }
                },
            },
            StatementKind::Loop { body } => Ok((m, (entered(cursors, body.stmts, true), false, None))),
            StatementKind::Break { value } => match value {
                Some(_) => refused("value-carrying loop break in generator"@, span),
                None => match loop_left(cursors, span) {
                    Err(halt) => Err(halt),
                    Ok(cursors) => Ok((m, (cursors, false, None))),
                },
            },
            StatementKind::Continue => match loop_restarted(cursors, span) {
                Err(halt) => Err(halt),
                Ok(cursors) => Ok((m, (cursors, false, None))),
            },
            StatementKind::Return { value } => match value {
                Some(_) => refused("value-carrying return from generator"@, span),
                None => Ok((m, (Seq::empty(), true, None))),
            },
            _ => match statement_run(p, (fuel - 1) as nat, m, statement) {
                Err(halt) => Err(halt),
                Ok((m, flow)) => match flow {
                    FlowModel::Next => Ok((m, (cursors, false, None))),
                    FlowModel::Break => match loop_left(cursors, span) {
                        Err(halt) => Err(halt),
                        Ok(cursors) => Ok((m, (cursors, false, None))),
                    },
                    FlowModel::Continue => match loop_restarted(cursors, span) {
                        Err(halt) => Err(halt),
                        Ok(cursors) => Ok((m, (cursors, false, None))),
                    },
                    FlowModel::Return(_) => refused("unsupported generator return flow"@, span),
                },
            },
        }
    }
}

} // verus!
