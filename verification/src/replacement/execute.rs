//! The executor: it carries out what the semantics of Body IR says.

use crate::body_ir::{
    AbiV0RuntimeRequirement, AggregateKind, ArgumentBinding, ArgumentElement, BinOp, Body, BodyIrModule,
    BoundArgument, CallableParam, CallableParamDefault, CallableTarget, Callee, ClosureBody, DefaultComputation,
    GeneratorBody, HelperOp, HirSourceSpan, IterProtocol, LocalCallableTarget, LocalId, NamedCallableTarget,
    Operand, OwnershipFact, Place, PlaceElem, PlaceOperand, Rvalue, Statement, StatementKind, UnOp,
};
use crate::replacement::admission::{named_callable_body, validate_direct_body_profile};
use crate::replacement::error::{runtime_failure, unsupported, ErrorModel, ReplacementExecutionError};
use crate::replacement::profile::{
    aggregate_label, bare_local, bare_refusal, callee_label, denoted, fixed_operands, is_tuple_field,
};
use crate::replacement::semantics::{
    adapter_poll_run, adapter_receiver_run, adapter_run, aggregate_run, arguments_run, asks_for, assigned,
    binary_result, binary_spelling, block_run, bound_run, call_run, callable_evidence, callable_run, callee_run,
    callee_value_run, captured_env, collect_receiver_run, collect_run, concat_run, condition, condition_run,
    default_evidence, default_run, dropped, earliest, entered, evidenced, expression_evidence, failed, field_of,
    floor_quotient, floor_remainder, frame, frame_run, function_evidence, generator_poll_run, generator_run,
    generator_statement_run, innermost_loop, integers, invoke_run, item_of, iterate_run, lazy, local_run, loop_left,
    loop_restarted, loop_run, merged, misdefaulted, moved, named_run, no_values, noted, omitted, operand_run,
    operands_run, paired, parameter_run, poll_run, projected, range_result, range_run, recaptured, receiver_run,
    recorded, refused, requirements_with, resume_run, resumed_frame, rvalue_run, same_requirement, sequence_run,
    statement_run, stepped, supplied_run, suspended, taken, unary_result, unary_spelling, written_once, FlowModel,
    Halt, Machine, OwnershipRead, Resumption, Run, MAX_EXECUTION_STEPS,
};
use crate::replacement::value::{
    all_scalar_pairs, all_scalars, bindings_model, constant_value, environment, kind_of, models, scalar, value_kind,
    GeneratorCursor, GeneratorFrame, GeneratorModel, Locals, ReplacementAdapter, ReplacementAdapterKind,
    ReplacementCallable, ReplacementGenerator, ReplacementValue, ValueModel,
};
use crate::sharing::share;
use crate::text::{natural_text, same_text, texts};
use std::rc::Rc;
use vstd::prelude::*;

verus! {

broadcast use vstd::string::group_string_axioms;

/// Why an execution stopped without a result.
#[derive(Debug)]
pub enum ExecutionStop {
    /// It was refused or failed.
    Error(ReplacementExecutionError),
    /// An integer result left the range of its type.
    Overflow(HirSourceSpan),
    /// It nests more deeply than its fuel allows.
    Exhausted,
}

impl View for ExecutionStop {
    type V = Halt;

    open spec fn view(&self) -> Halt {
        match *self {
            ExecutionStop::Error(error) => Halt::Error(error@),
            ExecutionStop::Overflow(span) => Halt::Overflow(span),
            ExecutionStop::Exhausted => Halt::Exhausted,
        }
    }
}

/// A refusal.
fn refusal(description: &str, span: HirSourceSpan) -> (stop: ExecutionStop)
    ensures
        stop@ == Halt::Error(ErrorModel::Unsupported(description@, span)),
{
    ExecutionStop::Error(unsupported(description, span))
}

/// A runtime failure.
fn failure(detail: &str, span: HirSourceSpan) -> (stop: ExecutionStop)
    ensures
        stop@ == Halt::Error(ErrorModel::RuntimeFailure(detail@, span)),
{
    ExecutionStop::Error(runtime_failure(detail, span))
}

/// The local of a bare place.
fn bare(place: &Place, span: HirSourceSpan) -> (local: Result<LocalId, ExecutionStop>)
    ensures
        match local {
            Ok(l) => l == place.local && bare_refusal(*place, span) is None,
            Err(stop) => bare_refusal(*place, span) matches Some(error) && stop@ == Halt::Error(error),
        },
{
    match bare_local(place, span) {
        Ok(local) => Ok(local),
        Err(error) => Err(ExecutionStop::Error(error)),
    }
}

/// Control flow propagated between blocks.
pub enum Flow {
    /// Ordinary fallthrough.
    Next,
    /// Break from the innermost loop.
    Break,
    /// Continue the innermost loop.
    Continue,
    /// Return from the function.
    Return(Option<ReplacementValue>),
}

impl Flow {
    /// What the flow is.
    pub open spec fn model(self) -> FlowModel {
        match self {
            Flow::Next => FlowModel::Next,
            Flow::Break => FlowModel::Break,
            Flow::Continue => FlowModel::Continue,
            Flow::Return(Some(value)) => FlowModel::Return(Some(value.model())),
            Flow::Return(None) => FlowModel::Return(None),
        }
    }
}

/// Mutable interpreter state for one execution frame.
pub struct BodyExecutor<'module> {
    /// The module whose functions can be called by name.
    pub module: &'module BodyIrModule,
    /// The values of the frame's locals.
    pub locals: Locals,
    /// Every ownership decision, in execution order.
    pub ownership_reads: Vec<OwnershipRead>,
    /// The runtime requirements of the consumed bodies.
    pub runtime_requirements: Vec<AbiV0RuntimeRequirement>,
    /// The snapshots and frame markers of what was executed.
    pub body_snapshots: Vec<String>,
    /// The number of executed statements.
    pub steps: usize,
}

/// Whether a value and the state behind it are what a run gives.
pub open spec fn value_agrees(
    run: Run<ValueModel>,
    before: BodyExecutor,
    after: BodyExecutor,
    outcome: Result<ReplacementValue, ExecutionStop>,
) -> bool {
    match outcome {
        Ok(value) => after.module == before.module && (run matches Ok(done) && done.0 == after.machine() && done.1
            == value.model()),
        Err(stop) => run matches Err(halt) && halt == stop@,
    }
}

/// Whether control flow and the state behind it are what a run gives.
pub open spec fn flow_agrees(
    run: Run<FlowModel>,
    before: BodyExecutor,
    after: BodyExecutor,
    outcome: Result<Flow, ExecutionStop>,
) -> bool {
    match outcome {
        Ok(flow) => after.module == before.module && (run matches Ok(done) && done.0 == after.machine() && done.1
            == flow.model()),
        Err(stop) => run matches Err(halt) && halt == stop@,
    }
}

/// Whether values and the state behind them are what a run gives.
pub open spec fn values_agree(
    run: Run<Seq<ValueModel>>,
    before: BodyExecutor,
    after: BodyExecutor,
    outcome: Result<Vec<ReplacementValue>, ExecutionStop>,
) -> bool {
    match outcome {
        Ok(values) => after.module == before.module && (run matches Ok(done) && done.0 == after.machine() && done.1
            == models(values@)),
        Err(stop) => run matches Err(halt) && halt == stop@,
    }
}

impl<'module> BodyExecutor<'module> {
    /// The state of the frame.
    pub open spec fn machine(self) -> Machine {
        Machine {
            locals: self.locals.model(),
            reads: self.ownership_reads@,
            requirements: self.runtime_requirements@,
            snapshots: texts(self.body_snapshots@),
            steps: self.steps,
        }
    }

    // -----------------------------------------------------------------------
    // State changes
    // -----------------------------------------------------------------------

    /// An isolated executor for a nested callable, default computation, or suspended generator frame.
    pub fn with_locals(module: &'module BodyIrModule, locals: Locals, steps: usize) -> (executor: Self)
        ensures
            executor.module == module,
            executor.machine() == frame(locals.model(), steps),
    {
        let executor = BodyExecutor {
            module,
            locals,
            ownership_reads: Vec::new(),
            runtime_requirements: Vec::new(),
            body_snapshots: Vec::new(),
            steps,
        };
        proof {
            assert(executor.machine() =~= frame(locals.model(), steps));
        }
        executor
    }

    /// Notes the ownership decision of one read.
    fn note(&mut self, read: &PlaceOperand, span: HirSourceSpan)
        ensures
            final(self).module == old(self).module,
            final(self).machine() == noted(old(self).machine(), *read, span),
    {
        self.ownership_reads.push(OwnershipRead { span, fact: read.fact, last_use: read.last_use });
    }

    /// Gives a local a value.
    fn assign_local(&mut self, local: LocalId, value: ReplacementValue)
        ensures
            final(self).module == old(self).module,
            final(self).machine() == assigned(old(self).machine(), local, value.model()),
    {
        let _ = self.locals.insert(local, value);
    }

    /// Takes a local's value out of the frame.
    fn take_local(&mut self, local: LocalId) -> (value: Option<ReplacementValue>)
        ensures
            final(self).module == old(self).module,
            final(self).machine() == dropped(old(self).machine(), local),
            match value {
                Some(v) => old(self).machine().locals.contains_key(local) && old(self).machine().locals[local]
                    == v.model(),
                None => !old(self).machine().locals.contains_key(local),
            },
    {
        self.locals.remove(local)
    }

    /// Records a stable marker for an executed frame.
    fn record_frame_evidence(&mut self, evidence: String)
        ensures
            final(self).module == old(self).module,
            final(self).machine() == evidenced(old(self).machine(), evidence@),
    {
        let ghost before = self.machine();
        self.body_snapshots.push(evidence);
        proof {
            assert(self.machine().snapshots =~= before.snapshots.push(evidence@));
        }
    }

    /// Adds the requirements that are not yet asked for.
    fn add_requirements(&mut self, more: &Vec<AbiV0RuntimeRequirement>)
        ensures
            final(self).module == old(self).module,
            final(self).machine() == (Machine {
                requirements: requirements_with(old(self).machine().requirements, more@, 0),
                ..old(self).machine()
            }),
    {
        let ghost before = self.machine();
        let mut i: usize = 0;
        while i < more.len()
            invariant
                i <= more@.len(),
                self.module == old(self).module,
                self.machine() == (Machine { requirements: self.runtime_requirements@, ..before }),
                requirements_with(before.requirements, more@, 0) == requirements_with(
                    self.runtime_requirements@,
                    more@,
                    i as int,
                ),
            decreases more@.len() - i,
        {
            if !contains_requirement(&self.runtime_requirements, &more[i]) {
                self.runtime_requirements.push(more[i].clone());
            }
            i += 1;
        }
    }

    /// Records a consumed declaration body as evidence, with its runtime requirements in first-seen order.
    pub(crate) fn record_body(&mut self, body: &Body)
        ensures
            final(self).module == old(self).module,
            final(self).machine() == recorded(old(self).machine(), *body),
    {
        let ghost before = self.machine();
        self.record_frame_evidence(body.snapshot.clone());
        self.add_requirements(&body.runtime_requirements);
        proof {
            assert(self.machine() =~= recorded(before, *body));
        }
    }

    /// Merges a nested frame's evidence into its caller after that frame actually executed.
    fn merge_child(&mut self, child: BodyExecutor<'module>)
        ensures
            final(self).module == old(self).module,
            final(self).machine() == merged(old(self).machine(), child.machine()),
    {
        let ghost before = self.machine();
        let ghost inner = child.machine();
        let mut reads: Vec<OwnershipRead> = child.ownership_reads;
        self.ownership_reads.append(&mut reads);
        self.add_requirements(&child.runtime_requirements);
        let ghost own = self.body_snapshots@;
        let mut snapshots: Vec<String> = child.body_snapshots;
        let ghost theirs = snapshots@;
        self.body_snapshots.append(&mut snapshots);
        self.steps = child.steps;
        proof {
            assert(self.body_snapshots@ =~= own + theirs);
            assert(texts(self.body_snapshots@) =~= texts(own) + texts(theirs));
            assert(self.machine() =~= merged(before, inner));
        }
    }

    /// Counts one executed statement and enforces the limit.
    fn record_step(&mut self, span: HirSourceSpan) -> (outcome: Result<(), ExecutionStop>)
        ensures
            match outcome {
                Ok(_) => final(self).module == old(self).module && (stepped(old(self).machine(), span) matches Ok(m) && m
                    == final(self).machine()),
                Err(stop) => stepped(old(self).machine(), span) matches Err(halt) && halt == stop@,
            },
    {
        if self.steps < usize::MAX {
            self.steps = self.steps + 1;
        }
        if self.steps > MAX_EXECUTION_STEPS {
            return Err(failure("replacement profile exceeded the 100000-step execution limit", span));
        }
        Ok(())
    }

    // -----------------------------------------------------------------------
    // Operands
    // -----------------------------------------------------------------------

    /// Takes a local's value as its ownership decision says, before any projection.
    fn take_operand(&mut self, read: &PlaceOperand, span: HirSourceSpan) -> (outcome: Result<
        ReplacementValue,
        ExecutionStop,
    >)
        ensures
            value_agrees(taken(old(self).machine(), *read, span), *old(self), *final(self), outcome),
    {
        match read.fact {
            OwnershipFact::Move => {
                if !read.place.projection.is_empty() {
                    return Err(
                        refusal(
                            "move through a tuple field projection outside the scalar tuple collection profile",
                            span,
                        ),
                    );
                }
                match self.take_local(read.place.local) {
                    Some(value) => Ok(value),
                    None => Err(failure("read of a moved or dropped local", span)),
                }
            },
            OwnershipFact::Unknown => Err(refusal("unknown ownership fact", span)),
            _ => match self.locals.get(read.place.local) {
                Some(value) => Ok(value.clone()),
                None => Err(failure("read of an unavailable local", span)),
            },
        }
    }

    /// Reads one constant or place while applying its ownership decision.
    pub fn evaluate_operand(&mut self, operand: &Operand, span: HirSourceSpan) -> (outcome: Result<
        ReplacementValue,
        ExecutionStop,
    >)
        ensures
            value_agrees(operand_run(old(self).machine(), *operand, span), *old(self), *final(self), outcome),
        decreases operand,
    {
        match operand {
            Operand::Constant(constant) => Ok(constant_value(constant)),
            Operand::Place(read) => {
                self.note(read, span);
                let value: ReplacementValue = self.take_operand(read, span)?;
                let value: ReplacementValue = self.project_place(value, &read.place, span)?;
                if matches!(read.fact, OwnershipFact::Copy) && !value.is_copy_shaped() {
                    return Err(refusal("copy of a non-copy or unavailable local", span));
                }
                Ok(value)
            },
        }
    }

    /// Applies the one field projection or collected-item index that the profile admits.
    fn project_place(&mut self, value: ReplacementValue, place: &Place, span: HirSourceSpan) -> (outcome: Result<
        ReplacementValue,
        ExecutionStop,
    >)
        ensures
            value_agrees(projected(old(self).machine(), value.model(), *place, span), *old(self), *final(self), outcome),
        decreases place,
    {
        if place.projection.is_empty() {
            return Ok(value);
        }
        if place.projection.len() > 1 {
            return Err(refusal("place projection outside the scalar tuple collection profile", span));
        }
        match &place.projection[0] {
            PlaceElem::Field(field) => {
                let part: ReplacementValue = project_tuple_field(value, field.as_str(), span, Ghost(self.machine()))?;
                Ok(part)
            },
            PlaceElem::Index(index) => {
                let index: ReplacementValue = self.evaluate_operand(index, span)?;
                let item: ReplacementValue = collected_item(value, index, span, Ghost(self.machine()))?;
                Ok(item)
            },
            PlaceElem::Slice => Err(refusal("place projection outside the scalar tuple collection profile", span)),
        }
    }

    /// Evaluates operands one after the other.
    fn evaluate_operands(&mut self, operands: &Vec<Operand>, span: HirSourceSpan) -> (outcome: Result<
        Vec<ReplacementValue>,
        ExecutionStop,
    >)
        ensures
            values_agree(
                operands_run(old(self).machine(), operands@, 0, Seq::empty(), span),
                *old(self),
                *final(self),
                outcome,
            ),
    {
        let ghost start = self.machine();
        let mut values: Vec<ReplacementValue> = Vec::new();
        let mut i: usize = 0;
        proof {
            assert(models(values@) =~= Seq::<ValueModel>::empty());
        }
        while i < operands.len()
            invariant
                i <= operands@.len(),
                self.module == old(self).module,
                start == old(self).machine(),
                operands_run(start, operands@, 0, Seq::empty(), span) == operands_run(
                    self.machine(),
                    operands@,
                    i as int,
                    models(values@),
                    span,
                ),
            decreases operands@.len() - i,
        {
            let value: ReplacementValue = self.evaluate_operand(&operands[i], span)?;
            let ghost before = models(values@);
            let ghost given = value.model();
            values.push(value);
            i += 1;
            proof {
                assert(models(values@) =~= before.push(given));
            }
        }
        Ok(values)
    }

    /// Evaluates referenced operands one after the other.
    fn evaluate_operand_refs(&mut self, operands: &Vec<&Operand>, span: HirSourceSpan) -> (outcome: Result<
        Vec<ReplacementValue>,
        ExecutionStop,
    >)
        ensures
            values_agree(
                operands_run(old(self).machine(), denoted(operands@), 0, Seq::empty(), span),
                *old(self),
                *final(self),
                outcome,
            ),
    {
        let ghost start = self.machine();
        let mut values: Vec<ReplacementValue> = Vec::new();
        let mut i: usize = 0;
        proof {
            assert(models(values@) =~= Seq::<ValueModel>::empty());
        }
        while i < operands.len()
            invariant
                i <= operands@.len(),
                self.module == old(self).module,
                start == old(self).machine(),
                operands_run(start, denoted(operands@), 0, Seq::empty(), span) == operands_run(
                    self.machine(),
                    denoted(operands@),
                    i as int,
                    models(values@),
                    span,
                ),
            decreases operands@.len() - i,
        {
            let value: ReplacementValue = self.evaluate_operand(operands[i], span)?;
            let ghost before = models(values@);
            let ghost given = value.model();
            values.push(value);
            i += 1;
            proof {
                assert(models(values@) =~= before.push(given));
            }
        }
        Ok(values)
    }
}

/// Whether requirements ask for something.
fn contains_requirement(requirements: &Vec<AbiV0RuntimeRequirement>, wanted: &AbiV0RuntimeRequirement) -> (found: bool)
    ensures
        found == asks_for(requirements@, *wanted),
{
    let mut i: usize = 0;
    while i < requirements.len()
        invariant
            i <= requirements@.len(),
            forall|j: int| 0 <= j < i ==> !same_requirement(#[trigger] requirements@[j], *wanted),
        decreases requirements@.len() - i,
    {
        if is_same_requirement(&requirements[i], wanted) {
            return true;
        }
        i += 1;
    }
    false
}

/// Decides whether two requirements ask for the same thing.
fn is_same_requirement(a: &AbiV0RuntimeRequirement, b: &AbiV0RuntimeRequirement) -> (same: bool)
    ensures
        same == same_requirement(*a, *b),
{
    match (a, b) {
        (AbiV0RuntimeRequirement::RuntimeHelper(x), AbiV0RuntimeRequirement::RuntimeHelper(y)) => same_text(
            x.as_str(),
            y.as_str(),
        ),
        (AbiV0RuntimeRequirement::HostedStd, AbiV0RuntimeRequirement::HostedStd) => true,
        (AbiV0RuntimeRequirement::Allocator, AbiV0RuntimeRequirement::Allocator) => true,
        (AbiV0RuntimeRequirement::PanicStrategy, AbiV0RuntimeRequirement::PanicStrategy) => true,
        (AbiV0RuntimeRequirement::AsyncRuntime, AbiV0RuntimeRequirement::AsyncRuntime) => true,
        _ => false,
    }
}

/// Reads one field of a pair.
fn project_tuple_field(value: ReplacementValue, field: &str, span: HirSourceSpan, state: Ghost<Machine>) -> (outcome: Result<
    ReplacementValue,
    ExecutionStop,
>)
    ensures
        match outcome {
            Ok(part) => field_of(state@, value.model(), field@, span) matches Ok(done) && done.0 == state@ && done.1
                == part.model(),
            Err(stop) => field_of(state@, value.model(), field@, span) matches Err(halt) && halt == stop@,
        },
{
    if !is_tuple_field(field) {
        return Err(
            refusal("non-numeric tuple field projection outside the scalar tuple collection profile", span),
        );
    }
    if !value.is_scalar_pair_tuple() {
        return Err(
            refusal(
                "tuple field projection `.".to_owned().concat(field).concat("` using ").concat(
                    value_kind(&value),
                ).concat(" outside the scalar tuple collection profile").as_str(),
                span,
            ),
        );
    }
    match value {
        ReplacementValue::Tuple(elements) => {
            let at: usize = if same_text(field, "0") {
                0
            } else {
                1
            };
            proof {
                assert(models(elements@).len() == elements@.len());
                assert(models(elements@)[at as int] == elements@[at as int].model());
            }
            Ok(elements[at].clone())
        },
        _ => Err(refusal("tuple field projection outside the scalar tuple collection profile", span)),
    }
}

/// Reads one collected item.
fn collected_item(value: ReplacementValue, index: ReplacementValue, span: HirSourceSpan, state: Ghost<Machine>) -> (outcome: Result<
    ReplacementValue,
    ExecutionStop,
>)
    ensures
        match outcome {
            Ok(item) => item_of(state@, value.model(), index.model(), span) matches Ok(done) && done.0 == state@
                && done.1 == item.model(),
            Err(stop) => item_of(state@, value.model(), index.model(), span) matches Err(halt) && halt == stop@,
        },
{
    match index {
        ReplacementValue::Int(at) => {
            if at < 0 || at as u64 > usize::MAX as u64 {
                return Err(failure("collected generator index is negative", span));
            }
            let at: usize = at as usize;
            match value {
                ReplacementValue::CollectedGenerator { elements, next } => {
                    proof {
                        assert(models(elements@).len() == elements@.len());
                    }
                    if at < elements.len() {
                        proof {
                            assert(models(elements@)[at as int] == elements@[at as int].model());
                        }
                        Ok(elements[at].clone())
                    } else {
                        Err(failure("collected generator index is out of range", span))
                    }
                },
                other => Err(
                    refusal(
                        "indexing ".to_owned().concat(value_kind(&other)).concat(
                            " outside the generator-expression collect profile",
                        ).as_str(),
                        span,
                    ),
                ),
            }
        },
        _ => Err(refusal("collected generator index using a non-int value", span)),
    }
}

// ---------------------------------------------------------------------------
// Operators
// ---------------------------------------------------------------------------

/// Names a unary operator.
fn unary_label(operator: UnOp) -> (label: &'static str)
    ensures
        label@ == unary_spelling(operator),
{
    match operator {
        UnOp::Neg => "negation",
        UnOp::Not => "boolean negation",
        UnOp::Invert => "bitwise inversion",
    }
}

/// Names a binary operator.
fn binary_label(operator: BinOp) -> (label: &'static str)
    ensures
        label@ == binary_spelling(operator),
{
    match operator {
        BinOp::Add => "addition",
        BinOp::Sub => "subtraction",
        BinOp::Mul => "multiplication",
        BinOp::Div => "division",
        BinOp::FloorDiv => "floor division",
        BinOp::Mod => "modulo",
        BinOp::Eq => "equality comparison",
        BinOp::Ne => "inequality comparison",
        BinOp::Lt => "less-than comparison",
        BinOp::Le => "less-or-equal comparison",
        BinOp::Gt => "greater-than comparison",
        BinOp::Ge => "greater-or-equal comparison",
        BinOp::And => "boolean conjunction",
        BinOp::Or => "boolean disjunction",
    }
}

/// Whether a value is what a run gives without changing the state.
pub open spec fn result_agrees(
    run: Run<ValueModel>,
    state: Machine,
    outcome: Result<ReplacementValue, ExecutionStop>,
) -> bool {
    match outcome {
        Ok(value) => run matches Ok(done) && done.0 == state && done.1 == value.model(),
        Err(stop) => run matches Err(halt) && halt == stop@,
    }
}

/// Applies a unary operator.
fn apply_unary(operator: UnOp, value: ReplacementValue, span: HirSourceSpan, state: Ghost<Machine>) -> (outcome: Result<
    ReplacementValue,
    ExecutionStop,
>)
    ensures
        result_agrees(unary_result(state@, operator, value.model(), span), state@, outcome),
{
    match (operator, &value) {
        (UnOp::Neg, ReplacementValue::Int(value)) => if *value == i64::MIN {
            Err(ExecutionStop::Overflow(span))
        } else {
            Ok(ReplacementValue::Int(-*value))
        },
        (UnOp::Not, ReplacementValue::Bool(value)) => Ok(ReplacementValue::Bool(!*value)),
        (UnOp::Invert, ReplacementValue::Int(value)) => Ok(ReplacementValue::Int(-1 - *value)),
        _ => Err(
            refusal(
                unary_label(operator).to_owned().concat(" applied to ").concat(value_kind(&value)).as_str(),
                span,
            ),
        ),
    }
}

/// The quotient rounded towards negative infinity.
pub fn python_floor_div_i64(left: i64, right: i64) -> (quotient: i64)
    requires
        right != 0,
        !(left == i64::MIN && right == -1),
    ensures
        quotient == floor_quotient(left as int, right as int),
{
    if right == -1 {
        proof {
            assert(left as int / -1 == -left && left as int % -1 == 0) by (nonlinear_arith);
        }
        return -left;
    }
    proof {
        lemma_quotient_is_smaller(left as int, right as int);
    }
    let quotient: i64 = left.checked_div_euclid(right).unwrap();
    let remainder: i64 = left.checked_rem_euclid(right).unwrap();
    if right > 0 || remainder == 0 {
        quotient
    } else {
        quotient - 1
    }
}

/// The remainder that takes the divisor's sign.
pub fn python_mod_i64(left: i64, right: i64) -> (remainder: i64)
    requires
        right != 0,
    ensures
        remainder == floor_remainder(left as int, right as int),
{
    if right == -1 {
        proof {
            assert(left as int % -1 == 0) by (nonlinear_arith);
        }
        return 0;
    }
    proof {
        lemma_quotient_is_smaller(left as int, right as int);
    }
    let remainder: i64 = left.checked_rem_euclid(right).unwrap();
    if right > 0 || remainder == 0 {
        remainder
    } else {
        remainder + right
    }
}

/// Dividing a machine integer by anything but minus one stays in range, with room below where the divisor is
/// negative.
proof fn lemma_quotient_is_smaller(left: int, right: int)
    requires
        i64::MIN <= left <= i64::MAX,
        i64::MIN <= right <= i64::MAX,
        right != 0,
        right != -1,
    ensures
        i64::MIN <= left / right <= i64::MAX,
        right < 0 ==> i64::MIN < left / right,
        0 <= left % right <= i64::MAX,
        left % right < right || left % right < -right,
{
    if right > 0 {
        assert(i64::MIN <= left / right <= i64::MAX && 0 <= left % right < right) by (nonlinear_arith)
            requires
                right > 0,
                i64::MIN <= left <= i64::MAX,
        ;
    } else {
        assert(i64::MIN < left / right <= i64::MAX && 0 <= left % right < -right) by (nonlinear_arith)
            requires
                right <= -2,
                i64::MIN <= left <= i64::MAX,
        ;
    }
}

/// Dividing and multiplying back loses exactly the remainder, which lies between zero and the divisor.
pub proof fn law_floor_division(left: int, right: int)
    requires
        right != 0,
    ensures
        floor_quotient(left, right) * right + floor_remainder(left, right) == left,
        right > 0 ==> 0 <= floor_remainder(left, right) < right,
        right < 0 ==> right < floor_remainder(left, right) <= 0,
{
    let q = left / right;
    let r = left % right;
    assert(q * right + r == left && 0 <= r && (right > 0 ==> r < right) && (right < 0 ==> r < -right))
        by (nonlinear_arith)
        requires
            right != 0,
            q == left / right,
            r == left % right,
    ;
    if !(right > 0 || r == 0) {
        assert((q - 1) * right + (r + right) == q * right + r) by (nonlinear_arith);
    }
}

/// Applies floor division while keeping an unrepresentable quotient visible.
fn checked_python_floor_division(left: i64, right: i64, span: HirSourceSpan) -> (outcome: Result<
    ReplacementValue,
    ExecutionStop,
>)
    requires
        right != 0,
    ensures
        match outcome {
            Ok(value) => !(left == i64::MIN && right == -1) && value.model() == ValueModel::Int(
                floor_quotient(left as int, right as int) as i64,
            ),
            Err(stop) => left == i64::MIN && right == -1 && stop@ == Halt::Error(
                ErrorModel::RuntimeFailure("integer division overflow"@, span),
            ),
        },
{
    if left == i64::MIN && right == -1 {
        return Err(failure("integer division overflow", span));
    }
    Ok(ReplacementValue::Int(python_floor_div_i64(left, right)))
}

/// An integer result, where the type can represent it.
fn in_range(value: Option<i64>, span: HirSourceSpan) -> (outcome: Result<ReplacementValue, ExecutionStop>)
    ensures
        match outcome {
            Ok(result) => value matches Some(v) && result.model() == ValueModel::Int(v),
            Err(stop) => value is None && stop@ == Halt::Overflow(span),
        },
{
    match value {
        Some(value) => Ok(ReplacementValue::Int(value)),
        None => Err(ExecutionStop::Overflow(span)),
    }
}

/// Applies a binary operator to two integers.
fn apply_integers(operator: BinOp, a: i64, b: i64, span: HirSourceSpan, state: Ghost<Machine>) -> (outcome: Result<
    ReplacementValue,
    ExecutionStop,
>)
    ensures
        result_agrees(
            binary_result(state@, operator, ValueModel::Int(a), ValueModel::Int(b), span),
            state@,
            outcome,
        ),
{
    match operator {
        BinOp::Add => in_range(a.checked_add(b), span),
        BinOp::Sub => in_range(a.checked_sub(b), span),
        BinOp::Mul => in_range(a.checked_mul(b), span),
        BinOp::Div => if b == 0 {
            Err(failure("division or modulo by zero", span))
        } else {
            Err(
                refusal(
                    binary_label(operator).to_owned().concat(" between ").concat("int").concat(" and ").concat(
                        "int",
                    ).as_str(),
                    span,
                ),
            )
        },
        BinOp::FloorDiv => if b == 0 {
            Err(failure("division or modulo by zero", span))
        } else {
            checked_python_floor_division(a, b, span)
        },
        BinOp::Mod => if b == 0 {
            Err(failure("division or modulo by zero", span))
        } else {
            Ok(ReplacementValue::Int(python_mod_i64(a, b)))
        },
        BinOp::Eq => Ok(ReplacementValue::Bool(a == b)),
        BinOp::Ne => Ok(ReplacementValue::Bool(a != b)),
        BinOp::Lt => Ok(ReplacementValue::Bool(a < b)),
        BinOp::Le => Ok(ReplacementValue::Bool(a <= b)),
        BinOp::Gt => Ok(ReplacementValue::Bool(a > b)),
        BinOp::Ge => Ok(ReplacementValue::Bool(a >= b)),
        _ => Err(
            refusal(
                binary_label(operator).to_owned().concat(" between ").concat("int").concat(" and ").concat(
                    "int",
                ).as_str(),
                span,
            ),
        ),
    }
}

/// Applies a binary operator.
fn apply_binary(
    operator: BinOp,
    left: ReplacementValue,
    right: ReplacementValue,
    span: HirSourceSpan,
    state: Ghost<Machine>,
) -> (outcome: Result<ReplacementValue, ExecutionStop>)
    ensures
        result_agrees(binary_result(state@, operator, left.model(), right.model(), span), state@, outcome),
{
    match (&left, &right) {
        (ReplacementValue::Int(a), ReplacementValue::Int(b)) => {
            return apply_integers(operator, *a, *b, span, state);
        },
        (ReplacementValue::Bool(a), ReplacementValue::Bool(b)) => match operator {
            BinOp::And => {
                return Ok(ReplacementValue::Bool(*a && *b));
            },
            BinOp::Or => {
                return Ok(ReplacementValue::Bool(*a || *b));
            },
            _ => {},
        },
        _ => {},
    }
    if left.is_collection_scalar() && right.is_collection_scalar() {
        match operator {
            BinOp::Eq => {
                return Ok(ReplacementValue::Bool(left.same_scalar(&right)));
            },
            BinOp::Ne => {
                return Ok(ReplacementValue::Bool(!left.same_scalar(&right)));
            },
            _ => {},
        }
    }
    Err(
        refusal(
            binary_label(operator).to_owned().concat(" between ").concat(value_kind(&left)).concat(" and ").concat(
                value_kind(&right),
            ).as_str(),
            span,
        ),
    )
}

// ---------------------------------------------------------------------------
// Rvalues, builtins and receivers
// ---------------------------------------------------------------------------

/// Returns a value as a flag, refusing every other shape.
fn into_bool(value: ReplacementValue, span: HirSourceSpan, state: Ghost<Machine>) -> (outcome: Result<
    bool,
    ExecutionStop,
>)
    ensures
        match outcome {
            Ok(flag) => condition(state@, value.model(), span) matches Ok(done) && done.0 == state@ && done.1 == flag,
            Err(stop) => condition(state@, value.model(), span) matches Err(halt) && halt == stop@,
        },
{
    match value {
        ReplacementValue::Bool(flag) => Ok(flag),
        other => Err(refusal("boolean condition using ".to_owned().concat(value_kind(&other)).as_str(), span)),
    }
}

/// Returns a value as a text, refusing every other shape.
fn into_string(value: ReplacementValue, span: HirSourceSpan) -> (outcome: Result<String, ExecutionStop>)
    ensures
        match outcome {
            Ok(text) => value.model() == ValueModel::Str(text@),
            Err(stop) => !(value.model() is Str) && stop@ == Halt::Error(
                ErrorModel::Unsupported("string operation using "@ + kind_of(value.model()), span),
            ),
        },
{
    match value {
        ReplacementValue::Str(text) => Ok(text),
        other => Err(refusal("string operation using ".to_owned().concat(value_kind(&other)).as_str(), span)),
    }
}

/// Evaluating operands gives one value for each.
proof fn lemma_operands_count(
    m: Machine,
    operands: Seq<Operand>,
    from: int,
    values: Seq<ValueModel>,
    span: HirSourceSpan,
)
    requires
        0 <= from <= operands.len(),
    ensures
        operands_run(m, operands, from, values, span) matches Ok(done) ==> done.1.len() == values.len()
            + operands.len() - from,
    decreases operands.len() - from,
{
    if from < operands.len() {
        match operand_run(m, operands[from], span) {
            Err(_) => {},
            Ok((next, value)) => {
                lemma_operands_count(next, operands, from + 1, values.push(value), span);
            },
        }
    }
}

/// Binds values to locals, one for one.
fn pair_up(locals: &Vec<LocalId>, values: Vec<ReplacementValue>) -> (pairs: Vec<(LocalId, ReplacementValue)>)
    requires
        values@.len() == locals@.len(),
    ensures
        bindings_model(pairs@) == paired(locals@, models(values@)),
{
    let ghost all = values@;
    let mut pairs: Vec<(LocalId, ReplacementValue)> = Vec::new();
    for value in it: values
        invariant
            all.len() == locals@.len(),
            it.seq() == all,
            pairs@.len() == it.index(),
            forall|j: int| 0 <= j < it.index() ==> (#[trigger] pairs@[j]).0 == locals@[j] && pairs@[j].1 == all[j],
    {
        let i: usize = pairs.len();
        pairs.push((locals[i], value));
    }
    proof {
        assert(bindings_model(pairs@) =~= paired(locals@, models(all)));
    }
    pairs
}

/// Binds captured values to fresh locals; `None` where two share one.
fn bind_captures(locals: Locals, targets: &Vec<LocalId>, values: Vec<ReplacementValue>) -> (bound: Option<Locals>)
    requires
        values@.len() == targets@.len(),
    ensures
        match bound {
            Some(env) => captured_env(locals.model(), targets@, models(values@), 0) == Some(env.model()),
            None => captured_env(locals.model(), targets@, models(values@), 0) is None,
        },
{
    let ghost all = values@;
    let ghost start = locals.model();
    let count: usize = targets.len();
    let mut env: Locals = locals;
    let mut i: usize = 0;
    for value in it: values
        invariant
            all == values@,
            start == locals.model(),
            all.len() == targets@.len(),
            count == targets@.len(),
            it.seq() == all,
            i == it.index(),
            captured_env(start, targets@, models(all), 0) == captured_env(
                env.model(),
                targets@,
                models(all),
                i as int,
            ),
    {
        proof {
            assert(models(all)[i as int] == all[i as int].model());
        }
        if env.contains(targets[i]) {
            return None;
        }
        let _ = env.insert(targets[i], value);
        i += 1;
    }
    Some(env)
}

/// The marker of a generator expression's frame.
fn expression_marker(body: &GeneratorBody, span: HirSourceSpan) -> (text: String)
    ensures
        text@ == expression_evidence(*body, span),
{
    "executed generator-expression frame span=".to_owned().concat(natural_text(span.start as u64).as_str()).concat(
        "..",
    ).concat(natural_text(span.end as u64).as_str()).concat(" source_local=_").concat(
        natural_text(body.source_local.0 as u64).as_str(),
    ).concat(" captures=").concat(natural_text(body.capture_locals.len() as u64).as_str()).concat(
        " statements=",
    ).concat(natural_text(body.stmts.len() as u64).as_str())
}

/// A generator that starts at the first of its statements.
fn suspend(locals: Locals, stmts: &Rc<Vec<Statement>>, named_body: Option<Rc<Body>>, evidence: String) -> (value: ReplacementValue)
    ensures
        value.model() == suspended(locals.model(), *stmts, named_body, evidence@),
{
    let mut cursors: Vec<GeneratorCursor> = Vec::new();
    cursors.push(GeneratorCursor { statements: share(stmts), next: 0, is_loop: false });
    proof {
        assert(cursors@ =~= seq![GeneratorCursor { statements: *stmts, next: 0, is_loop: false }]);
    }
    let generator = ReplacementGenerator {
        frame: GeneratorFrame { locals, cursors, exhausted: false, steps: 0 },
        named_body,
        frame_evidence: Some(evidence),
    };
    proof {
        assert(ValueModel::Generator(generator.model()) == suspended(
            locals.model(),
            *stmts,
            named_body,
            evidence@,
        ));
    }
    ReplacementValue::Generator(Box::new(generator))
}

impl GeneratorFrame {
    /// A deferred generator at the first of its statements.
    pub fn new(locals: Locals, statements: Rc<Vec<Statement>>) -> (frame: Self)
        ensures
            frame.locals == locals,
            frame.cursors@ == seq![GeneratorCursor { statements, next: 0, is_loop: false }],
            !frame.exhausted,
            frame.steps == 0,
    {
        let mut cursors: Vec<GeneratorCursor> = Vec::new();
        cursors.push(GeneratorCursor { statements, next: 0, is_loop: false });
        proof {
            assert(cursors@ =~= seq![GeneratorCursor { statements, next: 0, is_loop: false }]);
        }
        GeneratorFrame { locals, cursors, exhausted: false, steps: 0 }
    }

    /// The step count a resumed frame inherits: the greater of its own and its caller's.
    pub fn resume_step_budget(&self, caller_steps: usize) -> (steps: usize)
        ensures
            steps == (if caller_steps >= self.steps {
                caller_steps
            } else {
                self.steps
            }),
    {
        if caller_steps >= self.steps {
            caller_steps
        } else {
            self.steps
        }
    }
}

impl<'module> BodyExecutor<'module> {
    /// Evaluates a condition.
    fn evaluate_condition(&mut self, operand: &Operand, span: HirSourceSpan) -> (outcome: Result<bool, ExecutionStop>)
        ensures
            match outcome {
                Ok(flag) => final(self).module == old(self).module && (condition_run(
                    old(self).machine(),
                    *operand,
                    span,
                ) matches Ok(done) && done.0 == final(self).machine() && done.1 == flag),
                Err(stop) => condition_run(old(self).machine(), *operand, span) matches Err(halt) && halt == stop@,
            },
    {
        let value: ReplacementValue = self.evaluate_operand(operand, span)?;
        into_bool(value, span, Ghost(self.machine()))
    }

    /// Materializes pairs of scalars, and lists of them.
    fn evaluate_aggregate(
        &mut self,
        kind: &AggregateKind,
        elements: &Vec<ArgumentElement>,
        span: HirSourceSpan,
    ) -> (outcome: Result<ReplacementValue, ExecutionStop>)
        ensures
            value_agrees(aggregate_run(old(self).machine(), *kind, elements@, span), *old(self), *final(self), outcome),
    {
        let operands: Vec<&Operand> = match fixed_operands(elements) {
            Some(fixed) => fixed,
            None => {
                return Err(
                    refusal(
                        aggregate_label(kind).to_owned().concat(" aggregate with a spread element").as_str(),
                        span,
                    ),
                );
            },
        };
        let values: Vec<ReplacementValue> = self.evaluate_operand_refs(&operands, span)?;
        proof {
            assert(models(values@).len() == values@.len());
        }
        match kind {
            AggregateKind::Tuple => if values.len() == 2 && all_scalars(&values) {
                Ok(ReplacementValue::Tuple(values))
            } else {
                Err(refusal("tuple aggregate outside the two-scalar collection-element profile", span))
            },
            AggregateKind::List => if all_scalar_pairs(&values) {
                Ok(ReplacementValue::List { elements: values, next: 0 })
            } else {
                Err(refusal("list aggregate outside the list[tuple[scalar, scalar]] profile", span))
            },
            _ => Err(refusal(aggregate_label(kind).to_owned().concat(" aggregate").as_str(), span)),
        }
    }

    /// Captures a closure or partial environment at its construction point.
    fn construct_callable(
        &mut self,
        params: &Rc<Vec<CallableParam>>,
        captured_operands: &Vec<Operand>,
        body: &Rc<ClosureBody>,
        span: HirSourceSpan,
    ) -> (outcome: Result<ReplacementValue, ExecutionStop>)
        ensures
            value_agrees(
                callable_run(old(self).machine(), *params, captured_operands@, *body, span),
                *old(self),
                *final(self),
                outcome,
            ),
    {
        if captured_operands.len() != body.capture_locals.len() {
            return Err(refusal("callable capture metadata mismatch", span));
        }
        let ghost start = self.machine();
        let values: Vec<ReplacementValue> = self.evaluate_operands(captured_operands, span)?;
        proof {
            lemma_operands_count(start, captured_operands@, 0, Seq::empty(), span);
            assert(models(values@).len() == values@.len());
        }
        let captures: Vec<(LocalId, ReplacementValue)> = pair_up(&body.capture_locals, values);
        let callable = ReplacementCallable { params: share(params), captures, body: share(body) };
        proof {
            assert(callable.model().captures == paired(body.capture_locals@, models(values@)));
        }
        Ok(ReplacementValue::Callable(Box::new(callable)))
    }

    /// Captures a generator expression's source and free values without executing its body.
    fn construct_generator(
        &mut self,
        source: &Operand,
        captured_operands: &Vec<Operand>,
        body: &GeneratorBody,
        span: HirSourceSpan,
    ) -> (outcome: Result<ReplacementValue, ExecutionStop>)
        ensures
            value_agrees(
                generator_run(old(self).machine(), *source, captured_operands@, *body, span),
                *old(self),
                *final(self),
                outcome,
            ),
    {
        if captured_operands.len() != body.capture_locals.len() {
            return Err(refusal("generator capture metadata mismatch", span));
        }
        let source: ReplacementValue = self.evaluate_operand(source, span)?;
        let ghost middle = self.machine();
        let values: Vec<ReplacementValue> = self.evaluate_operands(captured_operands, span)?;
        proof {
            lemma_operands_count(middle, captured_operands@, 0, Seq::empty(), span);
            assert(models(values@).len() == values@.len());
        }
        let mut locals: Locals = Locals::new();
        let _ = locals.insert(body.source_local, source);
        match bind_captures(locals, &body.capture_locals, values) {
            None => Err(refusal("generator capture aliases its source local", span)),
            Some(env) => Ok(suspend(env, &body.stmts, None, expression_marker(body, span))),
        }
    }

    /// Evaluates an assignment's rvalue.
    pub fn evaluate_rvalue(&mut self, rvalue: &Rvalue, span: HirSourceSpan) -> (outcome: Result<
        ReplacementValue,
        ExecutionStop,
    >)
        ensures
            value_agrees(rvalue_run(old(self).machine(), *rvalue, span), *old(self), *final(self), outcome),
    {
        match rvalue {
            Rvalue::Use(operand) => self.evaluate_operand(operand, span),
            Rvalue::UnaryOp(operator, operand) => {
                let value: ReplacementValue = self.evaluate_operand(operand, span)?;
                apply_unary(*operator, value, span, Ghost(self.machine()))
            },
            Rvalue::BinaryOp(operator, left, right) => {
                let left: ReplacementValue = self.evaluate_operand(left, span)?;
                let right: ReplacementValue = self.evaluate_operand(right, span)?;
                apply_binary(*operator, left, right, span, Ghost(self.machine()))
            },
            Rvalue::Aggregate(kind, elements) => self.evaluate_aggregate(kind, elements, span),
            Rvalue::Format(_) => Err(refusal("f-string", span)),
            Rvalue::Closure { params, captured_operands, body } => self.construct_callable(
                params,
                captured_operands,
                body,
                span,
            ),
            Rvalue::Generator { source, captured_operands, body } => self.construct_generator(
                source,
                captured_operands,
                body,
                span,
            ),
            Rvalue::Match { .. } => Err(refusal("match expression", span)),
        }
    }

    /// Materializes a range.
    fn evaluate_range(&mut self, args: &Vec<&Operand>, span: HirSourceSpan) -> (outcome: Result<
        ReplacementValue,
        ExecutionStop,
    >)
        ensures
            value_agrees(range_run(old(self).machine(), denoted(args@), span), *old(self), *final(self), outcome),
    {
        let values: Vec<ReplacementValue> = self.evaluate_operand_refs(args, span)?;
        let mut ints: Vec<i64> = Vec::new();
        let mut i: usize = 0;
        proof {
            assert(models(values@).len() == values@.len());
        }
        while i < values.len()
            invariant
                i <= values@.len(),
                models(values@).len() == values@.len(),
                ints@.len() == i,
                forall|j: int| 0 <= j < i ==> models(values@)[j] == ValueModel::Int(#[trigger] ints@[j]),
                integers(models(values@), 0) == integers(models(values@), i as int),
                range_run(old(self).machine(), denoted(args@), span) == range_result(
                    self.machine(),
                    models(values@),
                    span,
                ),
            decreases values@.len() - i,
        {
            proof {
                assert(models(values@)[i as int] == values@[i as int].model());
            }
            match &values[i] {
                ReplacementValue::Int(value) => ints.push(*value),
                other => {
                    return Err(
                        refusal("range argument using ".to_owned().concat(value_kind(other)).as_str(), span),
                    );
                },
            }
            i += 1;
        }
        if ints.len() == 1 {
            Ok(ReplacementValue::Range { next: 0, end: ints[0], step: 1 })
        } else if ints.len() == 2 {
            Ok(ReplacementValue::Range { next: ints[0], end: ints[1], step: 1 })
        } else if ints.len() == 3 {
            if ints[2] == 0 {
                Err(failure("range step cannot be zero", span))
            } else {
                Ok(ReplacementValue::Range { next: ints[0], end: ints[1], step: ints[2] })
            }
        } else {
            Err(refusal("range call arity", span))
        }
    }

    /// Concatenates two strings.
    fn evaluate_concat(&mut self, args: &Vec<&Operand>, span: HirSourceSpan) -> (outcome: Result<
        ReplacementValue,
        ExecutionStop,
    >)
        ensures
            value_agrees(concat_run(old(self).machine(), denoted(args@), span), *old(self), *final(self), outcome),
    {
        proof {
            assert(denoted(args@).len() == args@.len());
        }
        if args.len() != 2 {
            return Err(refusal("string-concatenation call arity", span));
        }
        let left: ReplacementValue = self.evaluate_operand(args[0], span)?;
        let left: String = into_string(left, span)?;
        let right: ReplacementValue = self.evaluate_operand(args[1], span)?;
        let right: String = into_string(right, span)?;
        Ok(ReplacementValue::Str(left.concat(right.as_str())))
    }

    /// Takes a local out of the frame for a consumer of iterators.
    fn take_receiver(&mut self, receiver: &Operand, span: HirSourceSpan, no_place: &str, missing: &str) -> (outcome: Result<
        ReplacementValue,
        ExecutionStop,
    >)
        ensures
            value_agrees(
                receiver_run(old(self).machine(), *receiver, span, no_place@, missing@),
                *old(self),
                *final(self),
                outcome,
            ),
    {
        match receiver {
            Operand::Constant(_) => Err(refusal(no_place, span)),
            Operand::Place(read) => {
                let local: LocalId = bare(&read.place, span)?;
                self.note(read, span);
                match self.take_local(local) {
                    Some(value) => Ok(value),
                    None => Err(failure(missing, span)),
                }
            },
        }
    }

    /// Takes the receiver that `collect` consumes.
    fn take_generator_receiver(&mut self, receiver: &Operand, span: HirSourceSpan) -> (outcome: Result<
        ReplacementValue,
        ExecutionStop,
    >)
        ensures
            value_agrees(collect_receiver_run(old(self).machine(), *receiver, span), *old(self), *final(self), outcome),
    {
        let value: ReplacementValue = self.take_receiver(
            receiver,
            span,
            "non-place generator collect receiver",
            "read of an unavailable generator receiver",
        )?;
        if is_lazy(&value) {
            Ok(value)
        } else {
            Err(
                refusal(
                    "collecting ".to_owned().concat(value_kind(&value)).concat(" outside the generator profile").as_str(),
                    span,
                ),
            )
        }
    }

    /// Takes the receiver that a lazy adapter consumes.
    fn take_iterable_receiver(&mut self, receiver: &Operand, span: HirSourceSpan) -> (outcome: Result<
        ReplacementValue,
        ExecutionStop,
    >)
        ensures
            value_agrees(adapter_receiver_run(old(self).machine(), *receiver, span), *old(self), *final(self), outcome),
    {
        let value: ReplacementValue = self.take_receiver(
            receiver,
            span,
            "non-place generator adapter receiver",
            "read of an unavailable generator adapter receiver",
        )?;
        if is_lazy(&value) {
            Ok(value)
        } else {
            Err(
                refusal(value_kind(&value).to_owned().concat(" adapter outside the generator profile").as_str(), span),
            )
        }
    }

    /// Captures a lazy adapter without polling its source or callback.
    fn construct_generator_adapter(&mut self, name: &str, args: &Vec<&Operand>, span: HirSourceSpan) -> (outcome: Result<
        ReplacementValue,
        ExecutionStop,
    >)
        ensures
            value_agrees(adapter_run(old(self).machine(), name@, denoted(args@), span), *old(self), *final(self), outcome),
    {
        proof {
            assert(denoted(args@).len() == args@.len());
        }
        if args.len() != 2 {
            return Err(refusal("generator ".to_owned().concat(name).concat(" adapter arity").as_str(), span));
        }
        let source: ReplacementValue = self.take_iterable_receiver(args[0], span)?;
        let callback: ReplacementValue = self.evaluate_operand(args[1], span)?;
        match callback {
            ReplacementValue::Callable(callback) => {
                let kind = if same_text(name, "map") {
                    ReplacementAdapterKind::MapItems
                } else {
                    ReplacementAdapterKind::FilterItems
                };
                Ok(
                    ReplacementValue::Adapter(Box::new(ReplacementAdapter { source, callback: *callback, kind })),
                )
            },
            _ => Err(
                refusal(
                    "generator ".to_owned().concat(name).concat(
                        " adapter callback is not a stored callable",
                    ).as_str(),
                    span,
                ),
            ),
        }
    }

    /// Takes the callable that a call by value calls, honoring its recorded read.
    fn take_callable_receiver(&mut self, read: &PlaceOperand, span: HirSourceSpan) -> (outcome: Result<
        ReplacementCallable,
        ExecutionStop,
    >)
        ensures
            match outcome {
                Ok(callable) => final(self).module == old(self).module && (callee_run(
                    old(self).machine(),
                    *read,
                    span,
                ) matches Ok(done) && done.0 == final(self).machine() && done.1 == callable.model()),
                Err(stop) => callee_run(old(self).machine(), *read, span) matches Err(halt) && halt == stop@,
            },
    {
        let local: LocalId = bare(&read.place, span)?;
        self.note(read, span);
        let found: Option<ReplacementValue> = match read.fact {
            OwnershipFact::Move => self.take_local(local),
            OwnershipFact::Unknown => None,
            _ => match self.locals.get(local) {
                Some(value) => Some(value.clone()),
                None => None,
            },
        };
        match found {
            None => Err(failure("read of an unavailable callable receiver", span)),
            Some(ReplacementValue::Callable(callable)) => Ok(*callable),
            Some(other) => Err(
                refusal(
                    "calling ".to_owned().concat(value_kind(&other)).concat(
                        " outside the stored-callable profile",
                    ).as_str(),
                    span,
                ),
            ),
        }
    }
}

/// Decides whether a value is a lazy iterator.
fn is_lazy(value: &ReplacementValue) -> (yes: bool)
    ensures
        yes == lazy(value.model()),
{
    match value {
        ReplacementValue::Generator(_) => true,
        ReplacementValue::Adapter(_) => true,
        _ => false,
    }
}

// ---------------------------------------------------------------------------
// Binding arguments
// ---------------------------------------------------------------------------

/// What a run of slots holds.
pub open spec fn slots_model(slots: Seq<Option<ReplacementValue>>) -> Seq<Option<ValueModel>> {
    Seq::new(
        slots.len(),
        |i: int| match slots[i] {
            Some(value) => Some(value.model()),
            None => None,
        },
    )
}

/// Finds the argument that is written first among those not yet done.
fn earliest_argument(arguments: &Vec<BoundArgument>, done: &Vec<bool>) -> (found: Option<usize>)
    requires
        done@.len() == arguments@.len(),
    ensures
        match found {
            Some(at) => at < arguments@.len() && earliest(arguments@, done@, 0, None) == Some(at as int),
            None => earliest(arguments@, done@, 0, None) is None,
        },
{
    let mut best: Option<usize> = None;
    let mut i: usize = 0;
    while i < arguments.len()
        invariant
            i <= arguments@.len(),
            done@.len() == arguments@.len(),
            best matches Some(b) ==> b < arguments@.len(),
            earliest(arguments@, done@, 0, None) == earliest(
                arguments@,
                done@,
                i as int,
                match best {
                    Some(b) => Some(b as int),
                    None => None,
                },
            ),
        decreases arguments@.len() - i,
    {
        let better: bool = !done[i] && match best {
            None => true,
            Some(b) => arguments[i].written_position < arguments[b].written_position,
        };
        if better {
            best = Some(i);
        }
        i += 1;
    }
    best
}

/// Decides whether an argument's written position is its own.
fn is_written_once(arguments: &Vec<BoundArgument>, at: usize) -> (once: bool)
    requires
        at < arguments@.len(),
    ensures
        once == written_once(arguments@, at as int),
{
    let mut i: usize = 0;
    while i < arguments.len()
        invariant
            i <= arguments@.len(),
            at < arguments@.len(),
            forall|j: int|
                0 <= j < i && j != at ==> (#[trigger] arguments@[j]).written_position
                    != arguments@[at as int].written_position,
        decreases arguments@.len() - i,
    {
        if i != at && arguments[i].written_position == arguments[at].written_position {
            return false;
        }
        i += 1;
    }
    true
}

/// Decides whether a slot takes its default.
fn takes_default(defaulted: &Vec<usize>, slot: usize) -> (yes: bool)
    ensures
        yes == (exists|k: int| 0 <= k < defaulted@.len() && #[trigger] defaulted@[k] == slot as int),
{
    let mut i: usize = 0;
    while i < defaulted.len()
        invariant
            i <= defaulted@.len(),
            forall|k: int| 0 <= k < i ==> #[trigger] defaulted@[k] != slot as int,
        decreases defaulted@.len() - i,
    {
        if defaulted[i] == slot {
            return true;
        }
        i += 1;
    }
    false
}

/// Finds the first slot that has neither a value nor a default-binding fact.
fn first_omitted(supplied: &Vec<Option<ReplacementValue>>, defaulted: &Vec<usize>) -> (slot: Option<usize>)
    ensures
        match slot {
            Some(at) => at < supplied@.len() && omitted(slots_model(supplied@), defaulted@, 0) == Some(at as int),
            None => omitted(slots_model(supplied@), defaulted@, 0) is None,
        },
{
    let mut i: usize = 0;
    while i < supplied.len()
        invariant
            i <= supplied@.len(),
            omitted(slots_model(supplied@), defaulted@, 0) == omitted(slots_model(supplied@), defaulted@, i as int),
        decreases supplied@.len() - i,
    {
        if supplied[i].is_none() && !takes_default(defaulted, i) {
            return Some(i);
        }
        i += 1;
    }
    None
}

/// Decides whether a default-binding fact names no slot, or one that has a value.
fn is_misdefaulted(supplied: &Vec<Option<ReplacementValue>>, defaulted: &Vec<usize>) -> (yes: bool)
    ensures
        yes == misdefaulted(slots_model(supplied@), defaulted@),
{
    let mut i: usize = 0;
    while i < defaulted.len()
        invariant
            i <= defaulted@.len(),
            forall|k: int|
                0 <= k < i ==> (#[trigger] defaulted@[k]) < supplied@.len() && slots_model(
                    supplied@,
                )[defaulted@[k] as int] is None,
        decreases defaulted@.len() - i,
    {
        if defaulted[i] >= supplied.len() || supplied[defaulted[i]].is_some() {
            proof {
                assert(defaulted@[i as int] >= slots_model(supplied@).len() || slots_model(
                    supplied@,
                )[defaulted@[i as int] as int] is Some);
            }
            return true;
        }
        i += 1;
    }
    false
}

/// No values for a number of slots.
fn empty_slots(count: usize) -> (slots: Vec<Option<ReplacementValue>>)
    ensures
        slots@.len() == count,
        slots_model(slots@) == no_values(count as nat),
{
    let mut slots: Vec<Option<ReplacementValue>> = Vec::new();
    while slots.len() < count
        invariant
            slots@.len() <= count,
            forall|i: int| 0 <= i < slots@.len() ==> (#[trigger] slots@[i]) is None,
        decreases count - slots@.len(),
    {
        slots.push(None);
    }
    proof {
        assert(slots_model(slots@) =~= no_values(count as nat));
    }
    slots
}

/// Decides whether two captured values share a local.
fn is_recaptured(captures: &Vec<(LocalId, ReplacementValue)>) -> (yes: bool)
    ensures
        yes == recaptured(bindings_model(captures@)),
{
    let ghost model = bindings_model(captures@);
    let mut i: usize = 0;
    while i < captures.len()
        invariant
            i <= captures@.len(),
            model == bindings_model(captures@),
            forall|a: int, b: int| 0 <= a < b < i ==> (#[trigger] model[a]).0 != (#[trigger] model[b]).0,
        decreases captures@.len() - i,
    {
        let mut j: usize = 0;
        while j < i
            invariant
                j <= i < captures@.len(),
                model == bindings_model(captures@),
                forall|a: int| 0 <= a < j ==> (#[trigger] model[a]).0 != model[i as int].0,
            decreases i - j,
        {
            if captures[j].0 == captures[i].0 {
                proof {
                    assert(model[j as int].0 == model[i as int].0);
                }
                return true;
            }
            j += 1;
        }
        i += 1;
    }
    false
}

/// Whether slots and the state behind them are what a run gives.
pub open spec fn slots_agree(
    run: Run<Seq<Option<ValueModel>>>,
    before: BodyExecutor,
    after: BodyExecutor,
    outcome: Result<Vec<Option<ReplacementValue>>, ExecutionStop>,
) -> bool {
    match outcome {
        Ok(slots) => after.module == before.module && (run matches Ok(done) && done.0 == after.machine() && done.1
            == slots_model(slots@)),
        Err(stop) => run matches Err(halt) && halt == stop@,
    }
}

impl<'module> BodyExecutor<'module> {
    /// Evaluates a call's arguments in written order into their slots.
    fn evaluate_arguments(
        &mut self,
        count: usize,
        arguments: &Vec<BoundArgument>,
        args: &Vec<&Operand>,
        span: HirSourceSpan,
    ) -> (outcome: Result<Vec<Option<ReplacementValue>>, ExecutionStop>)
        requires
            arguments@.len() == args@.len(),
        ensures
            slots_agree(
                arguments_run(
                    old(self).machine(),
                    arguments@,
                    denoted(args@),
                    Seq::new(arguments@.len(), |i: int| false),
                    0,
                    no_values(count as nat),
                    span,
                ),
                *old(self),
                *final(self),
                outcome,
            ),
            outcome matches Ok(slots) ==> slots@.len() == count,
    {
        let ghost whole = arguments_run(
            self.machine(),
            arguments@,
            denoted(args@),
            Seq::new(arguments@.len(), |i: int| false),
            0,
            no_values(count as nat),
            span,
        );
        let mut supplied: Vec<Option<ReplacementValue>> = empty_slots(count);
        let mut done: Vec<bool> = Vec::new();
        while done.len() < arguments.len()
            invariant
                done@.len() <= arguments@.len(),
                forall|i: int| 0 <= i < done@.len() ==> !#[trigger] done@[i],
            decreases arguments@.len() - done@.len(),
        {
            done.push(false);
        }
        proof {
            assert(done@ =~= Seq::new(arguments@.len(), |i: int| false));
        }
        let mut round: usize = 0;
        while round < arguments.len()
            invariant
                round <= arguments@.len(),
                arguments@.len() == args@.len(),
                done@.len() == arguments@.len(),
                supplied@.len() == count,
                self.module == old(self).module,
                whole == arguments_run(
                    old(self).machine(),
                    arguments@,
                    denoted(args@),
                    Seq::new(arguments@.len(), |i: int| false),
                    0,
                    no_values(count as nat),
                    span,
                ),
                whole == arguments_run(
                    self.machine(),
                    arguments@,
                    denoted(args@),
                    done@,
                    round as int,
                    slots_model(supplied@),
                    span,
                ),
            decreases arguments@.len() - round,
        {
            match earliest_argument(arguments, &done) {
                None => {
                    return Ok(supplied);
                },
                Some(at) => {
                    let slot: usize = arguments[at].slot;
                    if slot >= supplied.len() || supplied[slot].is_some() || !is_written_once(arguments, at) {
                        return Err(refusal("invalid resolved callable argument binding", span));
                    }
                    let value: ReplacementValue = self.evaluate_operand(args[at], span)?;
                    let ghost before = slots_model(supplied@);
                    let ghost given = value.model();
                    supplied.set(slot, Some(value));
                    done.set(at, true);
                    round += 1;
                    proof {
                        assert(slots_model(supplied@) =~= before.update(slot as int, Some(given)));
                    }
                },
            }
        }
        Ok(supplied)
    }

    /// Evaluates a call's operands in written order and finds which slots take their default.
    fn supply_arguments(
        &mut self,
        params: &Vec<CallableParam>,
        args: &Vec<&Operand>,
        binding: &ArgumentBinding,
        span: HirSourceSpan,
    ) -> (outcome: Result<Vec<Option<ReplacementValue>>, ExecutionStop>)
        ensures
            slots_agree(
                supplied_run(old(self).machine(), params@, denoted(args@), *binding, span),
                *old(self),
                *final(self),
                outcome,
            ),
    {
        proof {
            assert(denoted(args@).len() == args@.len());
        }
        match binding {
            ArgumentBinding::UnresolvedPositional => Err(
                refusal("call with unresolved parameter binding outside the callable replacement profile", span),
            ),
            ArgumentBinding::Resolved { arguments, defaulted_slots } => {
                if arguments.len() != args.len() {
                    return Err(refusal("call argument-binding metadata mismatch", span));
                }
                let supplied: Vec<Option<ReplacementValue>> = self.evaluate_arguments(
                    params.len(),
                    arguments,
                    args,
                    span,
                )?;
                match first_omitted(&supplied, defaulted_slots) {
                    Some(slot) => Err(
                        refusal(
                            "call omitted parameter `".to_owned().concat(params[slot].name.as_str()).concat(
                                "` without a default-binding fact",
                            ).as_str(),
                            span,
                        ),
                    ),
                    None => if is_misdefaulted(&supplied, defaulted_slots) {
                        Err(refusal("invalid defaulted callable parameter binding", span))
                    } else {
                        Ok(supplied)
                    },
                }
            },
        }
    }
}

// ---------------------------------------------------------------------------
// Statements, calls and generators
// ---------------------------------------------------------------------------

/// Whether a polled iterator, its item, and the state behind them are what a run gives.
pub open spec fn poll_agrees(
    run: Run<(ValueModel, Option<ValueModel>)>,
    before: BodyExecutor,
    after: BodyExecutor,
    outcome: Result<(ReplacementValue, Option<ReplacementValue>), ExecutionStop>,
) -> bool {
    match outcome {
        Ok(polled) => after.module == before.module && (run matches Ok(done) && done.0 == after.machine() && done.1.0
            == polled.0.model() && done.1.1 == item_model(polled.1)),
        Err(stop) => run matches Err(halt) && halt == stop@,
    }
}

/// What a polled item is.
pub open spec fn item_model(item: Option<ReplacementValue>) -> Option<ValueModel> {
    match item {
        Some(value) => Some(value.model()),
        None => None,
    }
}

/// Whether a resumed generator, its item, and the state behind them are what a run gives.
pub open spec fn generator_agrees(
    run: Run<(GeneratorModel, Option<ValueModel>)>,
    before: BodyExecutor,
    after: BodyExecutor,
    outcome: Result<(ReplacementGenerator, Option<ReplacementValue>), ExecutionStop>,
) -> bool {
    match outcome {
        Ok(polled) => after.module == before.module && (run matches Ok(done) && done.0 == after.machine() && done.1.0
            == polled.0.model() && done.1.1 == item_model(polled.1)),
        Err(stop) => run matches Err(halt) && halt == stop@,
    }
}

/// Whether a generator's place, its item, and the state behind them are what a run gives.
pub open spec fn resumption_agrees(
    run: Run<Resumption>,
    before: BodyExecutor,
    after: BodyExecutor,
    outcome: Result<(Vec<GeneratorCursor>, bool, Option<ReplacementValue>), ExecutionStop>,
) -> bool {
    match outcome {
        Ok(place) => after.module == before.module && (run matches Ok(done) && done.0 == after.machine() && done.1.0
            == place.0@ && done.1.1 == place.1 && done.1.2 == item_model(place.2)),
        Err(stop) => run matches Err(halt) && halt == stop@,
    }
}

/// Whether a frame's bindings and the state behind them are what a run gives.
pub open spec fn locals_agree(
    run: Run<Map<LocalId, ValueModel>>,
    before: BodyExecutor,
    after: BodyExecutor,
    outcome: Result<Locals, ExecutionStop>,
) -> bool {
    match outcome {
        Ok(locals) => after.module == before.module && (run matches Ok(done) && done.0 == after.machine() && done.1
            == locals.model()),
        Err(stop) => run matches Err(halt) && halt == stop@,
    }
}

/// Whether the state behind a run of statements is what a run gives.
pub open spec fn sequence_agrees(
    run: Run<()>,
    before: BodyExecutor,
    after: BodyExecutor,
    outcome: Result<(), ExecutionStop>,
) -> bool {
    match outcome {
        Ok(_) => after.module == before.module && (run matches Ok(done) && done.0 == after.machine()),
        Err(stop) => run matches Err(halt) && halt == stop@,
    }
}

/// The marker of a callable's frame.
fn callable_marker(callable: &ReplacementCallable, span: HirSourceSpan, kind: &str) -> (text: String)
    ensures
        text@ == callable_evidence(callable.model(), span, kind@),
{
    proof {
        assert(callable.model().captures.len() == callable.captures@.len());
    }
    "executed ".to_owned().concat(kind).concat(" frame call_span=").concat(
        natural_text(span.start as u64).as_str(),
    ).concat("..").concat(natural_text(span.end as u64).as_str()).concat(" params=").concat(
        natural_text(callable.params.len() as u64).as_str(),
    ).concat(" captures=").concat(natural_text(callable.captures.len() as u64).as_str()).concat(
        " statements=",
    ).concat(natural_text(callable.body.stmts.len() as u64).as_str())
}

/// The marker of a generator function's frame.
fn function_marker(body: &Body, span: HirSourceSpan) -> (text: String)
    ensures
        text@ == function_evidence(*body, span),
{
    "executed generator-function frame name=".to_owned().concat(body.name.as_str()).concat(" call_span=").concat(
        natural_text(span.start as u64).as_str(),
    ).concat("..").concat(natural_text(span.end as u64).as_str()).concat(" statements=").concat(
        natural_text(body.block.stmts.len() as u64).as_str(),
    )
}

/// The marker of a default computation's frame.
fn default_marker(computation: &DefaultComputation) -> (text: String)
    ensures
        text@ == default_evidence(*computation),
{
    "executed source default frame span=".to_owned().concat(
        natural_text(computation.span.start as u64).as_str(),
    ).concat("..").concat(natural_text(computation.span.end as u64).as_str()).concat(" statements=").concat(
        natural_text(computation.stmts.len() as u64).as_str(),
    )
}

/// Finds the innermost entered loop.
fn find_innermost_loop(cursors: &Vec<GeneratorCursor>) -> (found: Option<usize>)
    ensures
        match found {
            Some(at) => at < cursors@.len() && innermost_loop(cursors@, cursors@.len() as int) == Some(at as int),
            None => innermost_loop(cursors@, cursors@.len() as int) is None,
        },
{
    let mut i: usize = cursors.len();
    while i > 0
        invariant
            i <= cursors@.len(),
            innermost_loop(cursors@, cursors@.len() as int) == innermost_loop(cursors@, i as int),
        decreases i,
    {
        if cursors[i - 1].is_loop {
            return Some(i - 1);
        }
        i -= 1;
    }
    None
}

/// Leaves the innermost entered loop.
fn break_generator_loop(cursors: Vec<GeneratorCursor>, span: HirSourceSpan) -> (outcome: Result<
    Vec<GeneratorCursor>,
    ExecutionStop,
>)
    ensures
        match outcome {
            Ok(left) => loop_left(cursors@, span) matches Ok(done) && done == left@,
            Err(stop) => loop_left(cursors@, span) matches Err(halt) && halt == stop@,
        },
{
    match find_innermost_loop(&cursors) {
        Some(at) => {
            let mut cursors: Vec<GeneratorCursor> = cursors;
            let ghost before = cursors@;
            cursors.truncate(at);
            proof {
                assert(cursors@ =~= before.take(at as int));
            }
            Ok(cursors)
        },
        None => Err(refusal("generator break outside a loop", span)),
    }
}

/// Starts the innermost entered loop over.
fn continue_generator_loop(cursors: Vec<GeneratorCursor>, span: HirSourceSpan) -> (outcome: Result<
    Vec<GeneratorCursor>,
    ExecutionStop,
>)
    ensures
        match outcome {
            Ok(restarted) => loop_restarted(cursors@, span) matches Ok(done) && done == restarted@,
            Err(stop) => loop_restarted(cursors@, span) matches Err(halt) && halt == stop@,
        },
{
    match find_innermost_loop(&cursors) {
        Some(at) => {
            let mut cursors: Vec<GeneratorCursor> = cursors;
            let ghost before = cursors@;
            let restarted = GeneratorCursor {
                statements: share(&cursors[at].statements),
                next: 0,
                is_loop: cursors[at].is_loop,
            };
            cursors.truncate(at);
            cursors.push(restarted);
            proof {
                assert(cursors@ =~= before.take(at as int).push(GeneratorCursor { next: 0, ..before[at as int] }));
            }
            Ok(cursors)
        },
        None => Err(refusal("generator continue outside a loop", span)),
    }
}

/// Moves the innermost entered block to another statement.
fn move_cursor(cursors: &mut Vec<GeneratorCursor>, next: usize)
    requires
        old(cursors)@.len() > 0,
    ensures
        final(cursors)@ == moved(old(cursors)@, next),
{
    let last: usize = cursors.len() - 1;
    let cursor = GeneratorCursor {
        statements: share(&cursors[last].statements),
        next,
        is_loop: cursors[last].is_loop,
    };
    cursors.set(last, cursor);
}

impl<'module> BodyExecutor<'module> {
    /// Executes a block until it falls through or produces control flow.
    pub fn execute_block(&mut self, stmts: &Vec<Statement>, fuel: u64) -> (outcome: Result<Flow, ExecutionStop>)
        ensures
            flow_agrees(
                block_run(*old(self).module, fuel as nat, old(self).machine(), stmts@, 0),
                *old(self),
                *final(self),
                outcome,
            ),
        decreases fuel,
    {
        let ghost p = *self.module;
        let ghost whole = block_run(p, fuel as nat, self.machine(), stmts@, 0);
        let mut i: usize = 0;
        while i < stmts.len()
            invariant
                i <= stmts@.len(),
                self.module == old(self).module,
                p == *self.module,
                whole == block_run(p, fuel as nat, old(self).machine(), stmts@, 0),
                whole == block_run(p, fuel as nat, self.machine(), stmts@, i as int),
            decreases stmts@.len() - i,
        {
            if fuel == 0 {
                return Err(ExecutionStop::Exhausted);
            }
            self.record_step(stmts[i].span)?;
            match self.execute_statement(&stmts[i], fuel - 1)? {
                Flow::Next => {},
                flow => {
                    return Ok(flow);
                },
            }
            i += 1;
        }
        Ok(Flow::Next)
    }

    /// Executes the statements of an expression's frame, which may not leave it.
    fn execute_sequence(&mut self, stmts: &Vec<Statement>, complaint: &str, fuel: u64) -> (outcome: Result<
        (),
        ExecutionStop,
    >)
        ensures
            sequence_agrees(
                sequence_run(*old(self).module, fuel as nat, old(self).machine(), stmts@, 0, complaint@),
                *old(self),
                *final(self),
                outcome,
            ),
        decreases fuel,
    {
        let ghost p = *self.module;
        let ghost whole = sequence_run(p, fuel as nat, self.machine(), stmts@, 0, complaint@);
        let mut i: usize = 0;
        while i < stmts.len()
            invariant
                i <= stmts@.len(),
                self.module == old(self).module,
                p == *self.module,
                whole == sequence_run(p, fuel as nat, old(self).machine(), stmts@, 0, complaint@),
                whole == sequence_run(p, fuel as nat, self.machine(), stmts@, i as int, complaint@),
            decreases stmts@.len() - i,
        {
            if fuel == 0 {
                return Err(ExecutionStop::Exhausted);
            }
            match self.execute_statement(&stmts[i], fuel - 1)? {
                Flow::Next => {},
                _ => {
                    return Err(refusal(complaint, stmts[i].span));
                },
            }
            i += 1;
        }
        Ok(())
    }

    /// Executes one statement.
    pub fn execute_statement(&mut self, statement: &Statement, fuel: u64) -> (outcome: Result<Flow, ExecutionStop>)
        ensures
            flow_agrees(
                statement_run(*old(self).module, fuel as nat, old(self).machine(), *statement),
                *old(self),
                *final(self),
                outcome,
            ),
        decreases fuel,
    {
        let span: HirSourceSpan = statement.span;
        if fuel == 0 {
            return Err(ExecutionStop::Exhausted);
        }
        let less: u64 = fuel - 1;
        match &statement.kind {
            StatementKind::Assign { place, rvalue } => {
                let local: LocalId = bare(place, span)?;
                let value: ReplacementValue = self.evaluate_rvalue(rvalue, span)?;
                self.assign_local(local, value);
                Ok(Flow::Next)
            },
            StatementKind::Call { destination, callee, args, .. } => self.execute_call(
                destination,
                callee,
                args,
                span,
                less,
            ),
            StatementKind::Drop { local } => {
                let _ = self.take_local(*local);
                Ok(Flow::Next)
            },
            StatementKind::If { cond, then_block, else_block } => {
                if self.evaluate_condition(cond, span)? {
                    self.execute_block(&then_block.stmts, less)
                } else {
                    match else_block {
                        Some(block) => self.execute_block(&block.stmts, less),
                        None => Ok(Flow::Next),
                    }
                }
            },
            StatementKind::Loop { body } => self.execute_loop(&body.stmts, span, less),
            StatementKind::Break { value } => match value {
                Some(_) => Err(refusal("value-carrying loop break", span)),
                None => Ok(Flow::Break),
            },
            StatementKind::Continue => Ok(Flow::Continue),
            StatementKind::Return { value } => match value {
                None => Ok(Flow::Return(None)),
                Some(operand) => {
                    let value: ReplacementValue = self.evaluate_operand(operand, span)?;
                    Ok(Flow::Return(Some(value)))
                },
            },
            StatementKind::Assert { cond, message, .. } => {
                if self.evaluate_condition(cond, span)? {
                    return Ok(Flow::Next);
                }
                match message {
                    None => Err(failure("assertion failed", span)),
                    Some(operand) => {
                        let text: ReplacementValue = self.evaluate_operand(operand, span)?;
                        Err(
                            failure(
                                "assertion failed: ".to_owned().concat(text.observable_text().as_str()).as_str(),
                                span,
                            ),
                        )
                    },
                }
            },
            StatementKind::Expr { value } => {
                let _ = self.evaluate_operand(value, span)?;
                Ok(Flow::Next)
            },
            StatementKind::IterNext { destination, iterator, protocol } => match protocol {
                IterProtocol::Builtin => self.execute_builtin_next(destination, iterator, span, less),
                IterProtocol::Method => Err(refusal("non-range iteration", span)),
            },
            StatementKind::Yield { .. } => Err(refusal("generator yield outside a generator expression", span)),
            StatementKind::TryPropagate { .. } => Err(refusal("try propagation", span)),
            StatementKind::Await { .. } => Err(refusal("async await suspension", span)),
            StatementKind::Race { .. } => Err(refusal("async race selection", span)),
            StatementKind::Unsupported { description } => Err(refusal(description.as_str(), span)),
        }
    }

    /// Executes a loop and propagates only non-local control flow outward.
    fn execute_loop(&mut self, stmts: &Vec<Statement>, span: HirSourceSpan, fuel: u64) -> (outcome: Result<
        Flow,
        ExecutionStop,
    >)
        ensures
            flow_agrees(
                loop_run(*old(self).module, fuel as nat, old(self).machine(), stmts@, span),
                *old(self),
                *final(self),
                outcome,
            ),
        decreases fuel,
    {
        let ghost p = *self.module;
        let ghost whole = loop_run(p, fuel as nat, self.machine(), stmts@, span);
        let mut left: u64 = fuel;
        while left > 0
            invariant
                left <= fuel,
                self.module == old(self).module,
                p == *self.module,
                whole == loop_run(p, fuel as nat, old(self).machine(), stmts@, span),
                whole == loop_run(p, left as nat, self.machine(), stmts@, span),
            decreases left,
        {
            left -= 1;
            match self.execute_block(stmts, left)? {
                Flow::Break => {
                    return Ok(Flow::Next);
                },
                Flow::Return(value) => {
                    return Ok(Flow::Return(value));
                },
                _ => {},
            }
            if stmts.len() == 0 && self.steps < usize::MAX {
                self.steps = self.steps + 1;
            }
            if self.steps >= MAX_EXECUTION_STEPS {
                return Err(failure("normalized loop exceeded the 100000-step replacement profile limit", span));
            }
        }
        Err(ExecutionStop::Exhausted)
    }

    /// Polls an iterator that a local holds; exhaustion is the loop break it represents.
    fn execute_builtin_next(&mut self, destination: &Place, iterator: &Operand, span: HirSourceSpan, fuel: u64) -> (outcome: Result<
        Flow,
        ExecutionStop,
    >)
        ensures
            flow_agrees(
                iterate_run(*old(self).module, fuel as nat, old(self).machine(), *destination, *iterator, span),
                *old(self),
                *final(self),
                outcome,
            ),
        decreases fuel,
    {
        if fuel == 0 {
            return Err(ExecutionStop::Exhausted);
        }
        let value: ReplacementValue = self.take_receiver(
            iterator,
            span,
            "non-place builtin iterator",
            "read of an unavailable builtin iterator",
        )?;
        let (value, item) = self.poll_iterator(value, span, fuel - 1)?;
        match iterator {
            Operand::Constant(_) => {},
            Operand::Place(read) => self.assign_local(read.place.local, value),
        }
        match item {
            None => Ok(Flow::Break),
            Some(item) => {
                let local: LocalId = bare(destination, span)?;
                self.assign_local(local, item);
                Ok(Flow::Next)
            },
        }
    }

    /// Executes a call and stores its result.
    fn execute_call(
        &mut self,
        destination: &Option<Place>,
        callee: &Callee,
        args: &Vec<ArgumentElement>,
        span: HirSourceSpan,
        fuel: u64,
    ) -> (outcome: Result<Flow, ExecutionStop>)
        ensures
            flow_agrees(
                call_run(*old(self).module, fuel as nat, old(self).machine(), *destination, *callee, args@, span),
                *old(self),
                *final(self),
                outcome,
            ),
        decreases fuel,
    {
        if fuel == 0 {
            return Err(ExecutionStop::Exhausted);
        }
        let fixed: Vec<&Operand> = match fixed_operands(args) {
            Some(fixed) => fixed,
            None => {
                return Err(
                    refusal(
                        "call to ".to_owned().concat(callee_label(callee).as_str()).concat(
                            " with a spread argument",
                        ).as_str(),
                        span,
                    ),
                );
            },
        };
        match destination {
            None => Err(refusal("discarded string-concatenation result", span)),
            Some(place) => {
                let local: LocalId = bare(place, span)?;
                let value: ReplacementValue = self.call_value(callee, &fixed, span, fuel - 1)?;
                self.assign_local(local, value);
                Ok(Flow::Next)
            },
        }
    }

    /// The value of a call with fixed arguments.
    fn call_value(&mut self, callee: &Callee, args: &Vec<&Operand>, span: HirSourceSpan, fuel: u64) -> (outcome: Result<
        ReplacementValue,
        ExecutionStop,
    >)
        ensures
            value_agrees(
                callee_value_run(
                    *old(self).module,
                    fuel as nat,
                    old(self).machine(),
                    *callee,
                    denoted(args@),
                    span,
                ),
                *old(self),
                *final(self),
                outcome,
            ),
        decreases fuel,
    {
        if fuel == 0 {
            return Err(ExecutionStop::Exhausted);
        }
        let less: u64 = fuel - 1;
        proof {
            assert(denoted(args@).len() == args@.len());
        }
        match callee {
            Callee::Helper(HelperOp::StrConcat) => self.evaluate_concat(args, span),
            Callee::Function(CallableTarget::Named(target)) => if same_text(target.name.as_str(), "range") {
                self.evaluate_range(args, span)
            } else {
                self.execute_named_callable(target, args, span, less)
            },
            Callee::Function(CallableTarget::Local(target)) => self.execute_local_callable(target, args, span, less),
            Callee::Method(target) => if same_text(target.name.as_str(), "collect") {
                if args.len() != 1 {
                    return Err(refusal("generator collect call arity", span));
                }
                let iterator: ReplacementValue = self.take_generator_receiver(args[0], span)?;
                self.collect_generator(iterator, span, less)
            } else if same_text(target.name.as_str(), "map") || same_text(target.name.as_str(), "filter") {
                self.construct_generator_adapter(target.name.as_str(), args, span)
            } else {
                Err(refusal("call to ".to_owned().concat(callee_label(callee).as_str()).as_str(), span))
            },
            _ => Err(refusal("call to ".to_owned().concat(callee_label(callee).as_str()).as_str(), span)),
        }
    }

    /// Invokes a stored closure or partial in a fresh frame.
    fn execute_local_callable(
        &mut self,
        target: &LocalCallableTarget,
        args: &Vec<&Operand>,
        span: HirSourceSpan,
        fuel: u64,
    ) -> (outcome: Result<ReplacementValue, ExecutionStop>)
        ensures
            value_agrees(
                local_run(*old(self).module, fuel as nat, old(self).machine(), *target, denoted(args@), span),
                *old(self),
                *final(self),
                outcome,
            ),
        decreases fuel,
    {
        if fuel == 0 {
            return Err(ExecutionStop::Exhausted);
        }
        let less: u64 = fuel - 1;
        let callable: ReplacementCallable = self.take_callable_receiver(&target.operand, span)?;
        if is_recaptured(&callable.captures) {
            return Err(refusal("duplicate callable capture local", span));
        }
        let supplied: Vec<Option<ReplacementValue>> = self.supply_arguments(
            &callable.params,
            args,
            &target.binding,
            span,
        )?;
        let captures: Locals = Locals::from_bindings(crate::replacement::value::copy_bindings(&callable.captures));
        let locals: Locals = self.bind_parameter_values(&callable.params, supplied, &captures, span, less)?;
        self.execute_callable_frame(&callable, locals, span, "stored callable", less)
    }

    /// Executes a callable's body in a fresh frame and keeps evidence only after it completed.
    fn execute_callable_frame(
        &mut self,
        callable: &ReplacementCallable,
        locals: Locals,
        span: HirSourceSpan,
        kind: &str,
        fuel: u64,
    ) -> (outcome: Result<ReplacementValue, ExecutionStop>)
        ensures
            value_agrees(
                frame_run(
                    *old(self).module,
                    fuel as nat,
                    old(self).machine(),
                    callable.model(),
                    locals.model(),
                    span,
                    kind@,
                ),
                *old(self),
                *final(self),
                outcome,
            ),
        decreases fuel,
    {
        if fuel == 0 {
            return Err(ExecutionStop::Exhausted);
        }
        let mut child: BodyExecutor<'module> = BodyExecutor::with_locals(self.module, locals, self.steps);
        child.execute_sequence(&callable.body.stmts, "control flow in a callable expression body", fuel - 1)?;
        let result: ReplacementValue = child.evaluate_operand(&callable.body.result, span)?;
        self.merge_child(child);
        self.record_frame_evidence(callable_marker(callable, span, kind));
        Ok(result)
    }

    /// Invokes a function of the module, suspending it instead when it yields.
    fn execute_named_callable(
        &mut self,
        target: &NamedCallableTarget,
        args: &Vec<&Operand>,
        span: HirSourceSpan,
        fuel: u64,
    ) -> (outcome: Result<ReplacementValue, ExecutionStop>)
        ensures
            value_agrees(
                named_run(*old(self).module, fuel as nat, old(self).machine(), *target, denoted(args@), span),
                *old(self),
                *final(self),
                outcome,
            ),
        decreases fuel,
    {
        if fuel == 0 {
            return Err(ExecutionStop::Exhausted);
        }
        let less: u64 = fuel - 1;
        let module: &'module BodyIrModule = self.module;
        let body: &Rc<Body> = match named_callable_body(module, target, span) {
            Ok(body) => body,
            Err(error) => {
                return Err(ExecutionStop::Error(error));
            },
        };
        match validate_direct_body_profile(body) {
            Ok(_) => {},
            Err(error) => {
                return Err(ExecutionStop::Error(error));
            },
        }
        let supplied: Vec<Option<ReplacementValue>> = self.supply_arguments(&body.params, args, &target.binding, span)?;
        let none: Locals = Locals::new();
        let locals: Locals = self.bind_parameter_values(&body.params, supplied, &none, span, less)?;
        if body.is_generator() {
            return Ok(suspend(locals, &body.block.stmts, Some(share(body)), function_marker(body, span)));
        }
        let mut child: BodyExecutor<'module> = BodyExecutor::with_locals(module, locals, self.steps);
        child.record_body(body);
        let value: ReplacementValue = match child.execute_block(&body.block.stmts, less)? {
            Flow::Return(Some(value)) => value,
            Flow::Return(None) => ReplacementValue::Unit,
            Flow::Next => ReplacementValue::Unit,
            _ => {
                return Err(refusal("loop control outside a nested callable loop", body.span));
            },
        };
        self.merge_child(child);
        Ok(value)
    }

    /// The value that a parameter takes from a call.
    fn parameter_value(
        &mut self,
        parameter: &CallableParam,
        supplied: Option<ReplacementValue>,
        captures: &Locals,
        span: HirSourceSpan,
        fuel: u64,
    ) -> (outcome: Result<ReplacementValue, ExecutionStop>)
        ensures
            value_agrees(
                parameter_run(
                    *old(self).module,
                    fuel as nat,
                    old(self).machine(),
                    *parameter,
                    item_model(supplied),
                    captures.model(),
                    span,
                ),
                *old(self),
                *final(self),
                outcome,
            ),
        decreases fuel,
    {
        if fuel == 0 {
            return Err(ExecutionStop::Exhausted);
        }
        match supplied {
            Some(value) => Ok(value),
            None => match &parameter.default {
                CallableParamDefault::Required => Err(
                    refusal(
                        "missing required callable parameter `".to_owned().concat(parameter.name.as_str()).concat(
                            "`",
                        ).as_str(),
                        span,
                    ),
                ),
                CallableParamDefault::Source(computation) => self.evaluate_default(computation, fuel - 1),
                CallableParamDefault::PartialPreset { capture } => match captures.get(*capture) {
                    Some(value) => Ok(value.clone()),
                    None => Err(
                        refusal(
                            "missing construction-time preset for parameter `".to_owned().concat(
                                parameter.name.as_str(),
                            ).concat("`").as_str(),
                            parameter.span,
                        ),
                    ),
                },
                CallableParamDefault::Unsupported { span: at, description } => Err(
                    refusal(
                        "unsupported default for parameter `".to_owned().concat(parameter.name.as_str()).concat(
                            "`: ",
                        ).concat(description.as_str()).as_str(),
                        *at,
                    ),
                ),
            },
        }
    }

    /// Materializes supplied values, defaults and presets into one isolated frame.
    pub(crate) fn bind_parameter_values(
        &mut self,
        params: &Vec<CallableParam>,
        supplied: Vec<Option<ReplacementValue>>,
        captures: &Locals,
        span: HirSourceSpan,
        fuel: u64,
    ) -> (outcome: Result<Locals, ExecutionStop>)
        ensures
            locals_agree(
                bound_run(
                    *old(self).module,
                    fuel as nat,
                    old(self).machine(),
                    params@,
                    slots_model(supplied@),
                    captures.model(),
                    captures.model(),
                    0,
                    span,
                ),
                *old(self),
                *final(self),
                outcome,
            ),
        decreases fuel,
    {
        let ghost p = *self.module;
        let ghost slots = slots_model(supplied@);
        let ghost whole = bound_run(
            p,
            fuel as nat,
            self.machine(),
            params@,
            slots,
            captures.model(),
            captures.model(),
            0,
            span,
        );
        proof {
            assert(slots.len() == supplied@.len());
        }
        if supplied.len() != params.len() {
            return Err(refusal("callable parameter binding arity mismatch", span));
        }
        let mut locals: Locals = captures.copied();
        let mut i: usize = 0;
        while i < params.len()
            invariant
                i <= params@.len(),
                supplied@.len() == params@.len(),
                slots == slots_model(supplied@),
                self.module == old(self).module,
                p == *self.module,
                whole == bound_run(
                    p,
                    fuel as nat,
                    old(self).machine(),
                    params@,
                    slots,
                    captures.model(),
                    captures.model(),
                    0,
                    span,
                ),
                whole == bound_run(
                    p,
                    fuel as nat,
                    self.machine(),
                    params@,
                    slots,
                    captures.model(),
                    locals.model(),
                    i as int,
                    span,
                ),
            decreases params@.len() - i,
        {
            if fuel == 0 {
                return Err(ExecutionStop::Exhausted);
            }
            let given: Option<ReplacementValue> = match &supplied[i] {
                Some(value) => Some(value.clone()),
                None => None,
            };
            proof {
                assert(slots[i as int] == item_model(given));
            }
            let value: ReplacementValue = self.parameter_value(&params[i], given, captures, span, fuel - 1)?;
            if locals.contains(params[i].local) {
                return Err(refusal("callable parameter aliases a captured local", params[i].span));
            }
            let _ = locals.insert(params[i].local, value);
            i += 1;
        }
        Ok(locals)
    }

    /// Runs a default computation in a frame of its own.
    fn evaluate_default(&mut self, computation: &DefaultComputation, fuel: u64) -> (outcome: Result<
        ReplacementValue,
        ExecutionStop,
    >)
        ensures
            value_agrees(
                default_run(*old(self).module, fuel as nat, old(self).machine(), *computation),
                *old(self),
                *final(self),
                outcome,
            ),
        decreases fuel,
    {
        if fuel == 0 {
            return Err(ExecutionStop::Exhausted);
        }
        let mut child: BodyExecutor<'module> = BodyExecutor::with_locals(self.module, Locals::new(), self.steps);
        child.execute_sequence(&computation.stmts, "control flow in a callable default computation", fuel - 1)?;
        let result: ReplacementValue = child.evaluate_operand(&computation.result, computation.span)?;
        self.merge_child(child);
        self.record_frame_evidence(default_marker(computation));
        Ok(result)
    }

    /// Consumes an iterator by polling it until it is exhausted.
    fn collect_generator(&mut self, iterator: ReplacementValue, span: HirSourceSpan, fuel: u64) -> (outcome: Result<
        ReplacementValue,
        ExecutionStop,
    >)
        ensures
            value_agrees(
                collect_run(
                    *old(self).module,
                    fuel as nat,
                    old(self).machine(),
                    iterator.model(),
                    Seq::empty(),
                    span,
                ),
                *old(self),
                *final(self),
                outcome,
            ),
        decreases fuel,
    {
        let ghost p = *self.module;
        let ghost whole = collect_run(p, fuel as nat, self.machine(), iterator.model(), Seq::empty(), span);
        let ghost first = iterator.model();
        let mut current: ReplacementValue = iterator;
        let mut elements: Vec<ReplacementValue> = Vec::new();
        let mut left: u64 = fuel;
        proof {
            assert(models(elements@) =~= Seq::<ValueModel>::empty());
        }
        while left > 0
            invariant
                left <= fuel,
                self.module == old(self).module,
                p == *self.module,
                first == iterator.model(),
                whole == collect_run(p, fuel as nat, old(self).machine(), first, Seq::empty(), span),
                whole == collect_run(p, left as nat, self.machine(), current.model(), models(elements@), span),
            decreases left,
        {
            left -= 1;
            let (next, item) = self.poll_iterator(current, span, left)?;
            match item {
                None => {
                    return Ok(ReplacementValue::CollectedGenerator { elements, next: 0 });
                },
                Some(item) => {
                    let ghost before = models(elements@);
                    let ghost given = item.model();
                    elements.push(item);
                    current = next;
                    proof {
                        assert(models(elements@) =~= before.push(given));
                    }
                },
            }
        }
        Err(ExecutionStop::Exhausted)
    }

    /// Polls an iterator once and hands it back with its item.
    pub fn poll_iterator(&mut self, value: ReplacementValue, span: HirSourceSpan, fuel: u64) -> (outcome: Result<
        (ReplacementValue, Option<ReplacementValue>),
        ExecutionStop,
    >)
        ensures
            poll_agrees(
                poll_run(*old(self).module, fuel as nat, old(self).machine(), value.model(), span),
                *old(self),
                *final(self),
                outcome,
            ),
            outcome matches Ok(polled) ==> (value matches ReplacementValue::Range { next, end, step } ==> {
                &&& polled.1 is Some <==> (step > 0 && next < end) || (step < 0 && next > end)
                &&& polled.1 matches Some(item) ==> item == ReplacementValue::Int(next)
                &&& polled.0 matches ReplacementValue::Range { next: following, end: e, step: s } && e == end && s
                    == step && following == (if polled.1 is Some {
                    next + step
                } else {
                    next as int
                })
            }),
        decreases fuel,
    {
        if fuel == 0 {
            return Err(ExecutionStop::Exhausted);
        }
        let less: u64 = fuel - 1;
        match value {
            ReplacementValue::Range { next, end, step } => if (step > 0 && next < end) || (step < 0 && next > end) {
                match next.checked_add(step) {
                    Some(following) => Ok(
                        (
                            ReplacementValue::Range { next: following, end, step },
                            Some(ReplacementValue::Int(next)),
                        ),
                    ),
                    None => Err(ExecutionStop::Overflow(span)),
                }
            } else {
                Ok((ReplacementValue::Range { next, end, step }, None))
            },
            ReplacementValue::List { elements, next } => {
                proof {
                    assert(models(elements@).len() == elements@.len());
                }
                if next < elements.len() {
                    proof {
                        assert(models(elements@)[next as int] == elements@[next as int].model());
                    }
                    let item: ReplacementValue = elements[next].clone();
                    Ok((ReplacementValue::List { elements, next: next + 1 }, Some(item)))
                } else {
                    Ok((ReplacementValue::List { elements, next }, None))
                }
            },
            ReplacementValue::CollectedGenerator { elements, next } => {
                proof {
                    assert(models(elements@).len() == elements@.len());
                }
                if next < elements.len() {
                    proof {
                        assert(models(elements@)[next as int] == elements@[next as int].model());
                    }
                    let item: ReplacementValue = elements[next].clone();
                    Ok((ReplacementValue::CollectedGenerator { elements, next: next + 1 }, Some(item)))
                } else {
                    Ok((ReplacementValue::CollectedGenerator { elements, next }, None))
                }
            },
            ReplacementValue::Generator(generator) => {
                let (generator, item) = self.resume_generator(*generator, span, less)?;
                Ok((ReplacementValue::Generator(Box::new(generator)), item))
            },
            ReplacementValue::Adapter(adapter) => {
                let adapter: ReplacementAdapter = *adapter;
                let (source, item) = self.poll_adapter(adapter.source, &adapter.callback, adapter.kind, span, less)?;
                Ok(
                    (
                        ReplacementValue::Adapter(
                            Box::new(
                                ReplacementAdapter { source, callback: adapter.callback, kind: adapter.kind },
                            ),
                        ),
                        item,
                    ),
                )
            },
            other => Err(refusal("iteration over ".to_owned().concat(value_kind(&other)).as_str(), span)),
        }
    }

    /// Polls a lazy adapter without materializing its source.
    fn poll_adapter(
        &mut self,
        source: ReplacementValue,
        callback: &ReplacementCallable,
        kind: ReplacementAdapterKind,
        span: HirSourceSpan,
        fuel: u64,
    ) -> (outcome: Result<(ReplacementValue, Option<ReplacementValue>), ExecutionStop>)
        ensures
            poll_agrees(
                adapter_poll_run(
                    *old(self).module,
                    fuel as nat,
                    old(self).machine(),
                    source.model(),
                    callback.model(),
                    kind,
                    span,
                ),
                *old(self),
                *final(self),
                outcome,
            ),
        decreases fuel,
    {
        let ghost p = *self.module;
        let ghost first = source.model();
        let ghost whole = adapter_poll_run(
            p,
            fuel as nat,
            self.machine(),
            source.model(),
            callback.model(),
            kind,
            span,
        );
        let mut current: ReplacementValue = source;
        let mut left: u64 = fuel;
        while left > 0
            invariant
                left <= fuel,
                self.module == old(self).module,
                p == *self.module,
                first == source.model(),
                whole == adapter_poll_run(
                    p,
                    fuel as nat,
                    old(self).machine(),
                    first,
                    callback.model(),
                    kind,
                    span,
                ),
                whole == adapter_poll_run(
                    p,
                    left as nat,
                    self.machine(),
                    current.model(),
                    callback.model(),
                    kind,
                    span,
                ),
            decreases left,
        {
            left -= 1;
            let (next, item) = self.poll_iterator(current, span, left)?;
            let candidate: ReplacementValue = match item {
                None => {
                    return Ok((next, None));
                },
                Some(candidate) => candidate,
            };
            let mut supplied: Vec<Option<ReplacementValue>> = Vec::new();
            supplied.push(Some(candidate.clone()));
            proof {
                assert(slots_model(supplied@) =~= seq![Some(candidate.model())]);
            }
            let answer: ReplacementValue = self.invoke_callable_value(callback, supplied, span, left)?;
            match kind {
                ReplacementAdapterKind::MapItems => {
                    return Ok((next, Some(answer)));
                },
                ReplacementAdapterKind::FilterItems => {
                    if into_bool(answer, span, Ghost(self.machine()))? {
                        return Ok((next, Some(candidate)));
                    }
                },
            }
            current = next;
        }
        Err(ExecutionStop::Exhausted)
    }

    /// Invokes a captured callable with values at hand.
    fn invoke_callable_value(
        &mut self,
        callable: &ReplacementCallable,
        supplied: Vec<Option<ReplacementValue>>,
        span: HirSourceSpan,
        fuel: u64,
    ) -> (outcome: Result<ReplacementValue, ExecutionStop>)
        ensures
            value_agrees(
                invoke_run(
                    *old(self).module,
                    fuel as nat,
                    old(self).machine(),
                    callable.model(),
                    slots_model(supplied@),
                    span,
                ),
                *old(self),
                *final(self),
                outcome,
            ),
        decreases fuel,
    {
        if fuel == 0 {
            return Err(ExecutionStop::Exhausted);
        }
        if is_recaptured(&callable.captures) {
            return Err(refusal("duplicate callable capture local", span));
        }
        let captures: Locals = Locals::from_bindings(crate::replacement::value::copy_bindings(&callable.captures));
        let locals: Locals = self.bind_parameter_values(&callable.params, supplied, &captures, span, fuel - 1)?;
        self.execute_callable_frame(callable, locals, span, "generator-adapter callback", fuel - 1)
    }

    /// Resumes a generator until one yield or exhaustion, merging what it executed into the caller.
    pub fn resume_generator(&mut self, generator: ReplacementGenerator, span: HirSourceSpan, fuel: u64) -> (outcome: Result<
        (ReplacementGenerator, Option<ReplacementValue>),
        ExecutionStop,
    >)
        ensures
            generator_agrees(
                generator_poll_run(*old(self).module, fuel as nat, old(self).machine(), generator.model(), span),
                *old(self),
                *final(self),
                outcome,
            ),
        decreases fuel,
    {
        if fuel == 0 {
            return Err(ExecutionStop::Exhausted);
        }
        let ghost model = generator.model();
        let steps: usize = generator.frame.resume_step_budget(self.steps);
        let done: bool = generator.frame.exhausted;
        let cursors: Vec<GeneratorCursor> = generator.frame.cursors;
        let mut deferred: BodyExecutor<'module> = BodyExecutor::with_locals(
            self.module,
            generator.frame.locals,
            steps,
        );
        match &generator.named_body {
            Some(body) => deferred.record_body(body),
            None => {},
        }
        match generator.frame_evidence {
            Some(evidence) => deferred.record_frame_evidence(evidence),
            None => {},
        }
        proof {
            assert(deferred.machine() == resumed_frame(self.machine(), model));
        }
        let (cursors, done, item) = if done {
            (cursors, true, None)
        } else {
            deferred.resume_generator_frame(cursors, span, fuel - 1)?
        };
        let locals: Locals = deferred.locals.copied();
        let steps: usize = deferred.steps;
        self.merge_child(deferred);
        let resumed = ReplacementGenerator {
            frame: GeneratorFrame { locals, cursors, exhausted: done, steps },
            named_body: None,
            frame_evidence: None,
        };
        Ok((resumed, item))
    }

    /// Interprets a generator's entered blocks until the first yield or final exhaustion.
    fn resume_generator_frame(&mut self, cursors: Vec<GeneratorCursor>, span: HirSourceSpan, fuel: u64) -> (outcome: Result<
        (Vec<GeneratorCursor>, bool, Option<ReplacementValue>),
        ExecutionStop,
    >)
        ensures
            resumption_agrees(
                resume_run(*old(self).module, fuel as nat, old(self).machine(), cursors@, span),
                *old(self),
                *final(self),
                outcome,
            ),
        decreases fuel,
    {
        let ghost p = *self.module;
        let ghost first = cursors@;
        let ghost whole = resume_run(p, fuel as nat, self.machine(), cursors@, span);
        let mut blocks: Vec<GeneratorCursor> = cursors;
        let mut left: u64 = fuel;
        while left > 0
            invariant
                left <= fuel,
                self.module == old(self).module,
                p == *self.module,
                first == cursors@,
                whole == resume_run(p, fuel as nat, old(self).machine(), first, span),
                whole == resume_run(p, left as nat, self.machine(), blocks@, span),
            decreases left,
        {
            left -= 1;
            let count: usize = blocks.len();
            if count == 0 {
                return Ok((blocks, true, None));
            }
            let statements: Rc<Vec<Statement>> = share(&blocks[count - 1].statements);
            let next: usize = blocks[count - 1].next;
            if next >= statements.len() {
                if !blocks[count - 1].is_loop {
                    let ghost before = blocks@;
                    let _ = blocks.pop();
                    proof {
                        assert(blocks@ =~= before.drop_last());
                    }
                } else {
                    if statements.len() == 0 {
                        self.record_step(span)?;
                    }
                    move_cursor(&mut blocks, 0);
                }
            } else {
                move_cursor(&mut blocks, next + 1);
                self.record_step(statements[next].span)?;
                let (following, done, item) = self.execute_generator_statement(blocks, &statements[next], left)?;
                blocks = following;
                if done || item.is_some() {
                    return Ok((blocks, done, item));
                }
                if self.steps >= MAX_EXECUTION_STEPS {
                    return Err(failure("generator exceeded the 100000-step replacement profile limit", span));
                }
            }
        }
        Err(ExecutionStop::Exhausted)
    }

    /// Executes one statement of a generator.
    fn execute_generator_statement(&mut self, cursors: Vec<GeneratorCursor>, statement: &Statement, fuel: u64) -> (outcome: Result<
        (Vec<GeneratorCursor>, bool, Option<ReplacementValue>),
        ExecutionStop,
    >)
        ensures
            resumption_agrees(
                generator_statement_run(*old(self).module, fuel as nat, old(self).machine(), cursors@, *statement),
                *old(self),
                *final(self),
                outcome,
            ),
        decreases fuel,
    {
        let span: HirSourceSpan = statement.span;
        if fuel == 0 {
            return Err(ExecutionStop::Exhausted);
        }
        let mut cursors: Vec<GeneratorCursor> = cursors;
        match &statement.kind {
            StatementKind::Yield { value } => {
                let value: ReplacementValue = self.evaluate_operand(value, span)?;
                Ok((cursors, false, Some(value)))
            },
            StatementKind::If { cond, then_block, else_block } => {
                if self.evaluate_condition(cond, span)? {
                    cursors.push(GeneratorCursor { statements: share(&then_block.stmts), next: 0, is_loop: false });
                } else {
                    match else_block {
                        Some(block) => cursors.push(
                            GeneratorCursor { statements: share(&block.stmts), next: 0, is_loop: false },
                        ),
                        None => {},
                    }
                }
                Ok((cursors, false, None))
            },
            StatementKind::Loop { body } => {
                cursors.push(GeneratorCursor { statements: share(&body.stmts), next: 0, is_loop: true });
                Ok((cursors, false, None))
            },
            StatementKind::Break { value } => match value {
                Some(_) => Err(refusal("value-carrying loop break in generator", span)),
                None => {
                    let cursors: Vec<GeneratorCursor> = break_generator_loop(cursors, span)?;
                    Ok((cursors, false, None))
                },
            },
            StatementKind::Continue => {
                let cursors: Vec<GeneratorCursor> = continue_generator_loop(cursors, span)?;
                Ok((cursors, false, None))
            },
            StatementKind::Return { value } => match value {
                Some(_) => Err(refusal("value-carrying return from generator", span)),
                None => Ok((Vec::new(), true, None)),
            },
            _ => match self.execute_statement(statement, fuel - 1)? {
                Flow::Next => Ok((cursors, false, None)),
                Flow::Break => {
                    let cursors: Vec<GeneratorCursor> = break_generator_loop(cursors, span)?;
                    Ok((cursors, false, None))
                },
                Flow::Continue => {
                    let cursors: Vec<GeneratorCursor> = continue_generator_loop(cursors, span)?;
                    Ok((cursors, false, None))
                },
                Flow::Return(_) => Err(refusal("unsupported generator return flow", span)),
            },
        }
    }
}

} // verus!
