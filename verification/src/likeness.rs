//! When two pieces of Body IR are alike: when they have the same shape and the same content, wherever they are stored.

use crate::body_ir::{
    AbiV0RuntimeRequirement, AggregateKind, ArgumentBinding, ArgumentElement, Block, Body, BoundArgument,
    CallableParam, CallableParamDefault, CallableTarget, Callee, ClosureBody, Constant, DefaultComputation,
    GeneratorBody, IncanType, LocalCallableTarget, LocalDecl, LocalId, MatchArm, MethodTarget, NamedCallableTarget,
    Operand, Place, PlaceElem, PlaceOperand, ProviderOperation, ProviderOperationPlan, RaceArm, Rvalue, Statement,
    StatementKind,
};
use crate::text::same_text;
use vstd::prelude::*;

verus! {

broadcast use vstd::string::group_string_axioms;

// ---------------------------------------------------------------------------
// What is alike
// ---------------------------------------------------------------------------

/// Whether two optional texts are alike.
pub open spec fn alike_option(a: Option<String>, b: Option<String>) -> bool {
    match (a, b) {
        (Some(x), Some(y)) => x@ == y@,
        (None, None) => true,
        _ => false,
    }
}

/// Whether two types are alike.
pub open spec fn alike_type(a: IncanType, b: IncanType) -> bool
    decreases a,
{
    match (a, b) {
        (IncanType::Primitive(x), IncanType::Primitive(y)) => x == y,
        (IncanType::Tuple(x), IncanType::Tuple(y)) => alike_types(x@, y@),
        (
            IncanType::Generic { collection, args },
            IncanType::Generic { collection: other_collection, args: other_args },
        ) => collection == other_collection && alike_types(args@, other_args@),
        (IncanType::Named(x), IncanType::Named(y)) => x@ == y@,
        _ => false,
    }
}

/// Whether two declared locals are alike.
pub open spec fn alike_local_decl(a: LocalDecl, b: LocalDecl) -> bool
    decreases a,
{
    a.id == b.id && alike_option(a.name, b.name) && a.origin == b.origin && alike_type(a.ty, b.ty)
        && a.ty_text@ == b.ty_text@ && a.span == b.span
}

/// Whether two steps of places are alike.
pub open spec fn alike_place_elem(a: PlaceElem, b: PlaceElem) -> bool
    decreases a,
{
    match (a, b) {
        (PlaceElem::Field(x), PlaceElem::Field(y)) => x@ == y@,
        (PlaceElem::Index(x), PlaceElem::Index(y)) => alike_operand(*x, *y),
        (PlaceElem::Slice, PlaceElem::Slice) => true,
        _ => false,
    }
}

/// Whether two places are alike.
pub open spec fn alike_place(a: Place, b: Place) -> bool
    decreases a,
{
    a.local == b.local && alike_place_elems(a.projection@, b.projection@)
}

/// Whether two reads of places are alike.
pub open spec fn alike_place_operand(a: PlaceOperand, b: PlaceOperand) -> bool
    decreases a,
{
    alike_place(a.place, b.place) && a.fact == b.fact && a.last_use == b.last_use
}

/// Whether two constants are alike.
pub open spec fn alike_constant(a: Constant, b: Constant) -> bool
    decreases a,
{
    match (a, b) {
        (Constant::Int(x), Constant::Int(y)) => x == y,
        (Constant::Bool(x), Constant::Bool(y)) => x == y,
        (Constant::Str(x), Constant::Str(y)) => x@ == y@,
        (Constant::Float(x), Constant::Float(y)) => x@ == y@,
        (Constant::Unit, Constant::Unit) => true,
        (Constant::NoneLiteral, Constant::NoneLiteral) => true,
        _ => false,
    }
}

/// Whether two operands are alike.
pub open spec fn alike_operand(a: Operand, b: Operand) -> bool
    decreases a,
{
    match (a, b) {
        (Operand::Constant(x), Operand::Constant(y)) => alike_constant(x, y),
        (Operand::Place(x), Operand::Place(y)) => alike_place_operand(x, y),
        _ => false,
    }
}

/// Whether two arguments are alike.
pub open spec fn alike_argument_element(a: ArgumentElement, b: ArgumentElement) -> bool
    decreases a,
{
    match (a, b) {
        (ArgumentElement::One(x), ArgumentElement::One(y)) => alike_operand(x, y),
        (ArgumentElement::Spread(x), ArgumentElement::Spread(y)) => alike_operand(x, y),
        _ => false,
    }
}

/// Whether two kinds of aggregates are alike.
pub open spec fn alike_aggregate_kind(a: AggregateKind, b: AggregateKind) -> bool
    decreases a,
{
    match (a, b) {
        (AggregateKind::Tuple, AggregateKind::Tuple) => true,
        (AggregateKind::List, AggregateKind::List) => true,
        (AggregateKind::Dict, AggregateKind::Dict) => true,
        (AggregateKind::SetLiteral, AggregateKind::SetLiteral) => true,
        (AggregateKind::Constructor(x), AggregateKind::Constructor(y)) => x@ == y@,
        _ => false,
    }
}

/// Whether two argument bindings are alike.
pub open spec fn alike_argument_binding(a: ArgumentBinding, b: ArgumentBinding) -> bool
    decreases a,
{
    match (a, b) {
        (
            ArgumentBinding::Resolved { arguments, defaulted_slots },
            ArgumentBinding::Resolved { arguments: other_arguments, defaulted_slots: other_defaulted_slots },
        ) => arguments@ == other_arguments@ && defaulted_slots@ == other_defaulted_slots@,
        (ArgumentBinding::UnresolvedPositional, ArgumentBinding::UnresolvedPositional) => true,
        _ => false,
    }
}

/// Whether two named targets are alike.
pub open spec fn alike_named_callable_target(a: NamedCallableTarget, b: NamedCallableTarget) -> bool
    decreases a,
{
    a.name@ == b.name@ && alike_argument_binding(a.binding, b.binding) && a.builtin == b.builtin
        && alike_option(a.direct_call_id, b.direct_call_id)
}

/// Whether two local targets are alike.
pub open spec fn alike_local_callable_target(a: LocalCallableTarget, b: LocalCallableTarget) -> bool
    decreases a,
{
    alike_place_operand(a.operand, b.operand) && alike_argument_binding(a.binding, b.binding) && a.label@ == b.label@
}

/// Whether two call targets are alike.
pub open spec fn alike_callable_target(a: CallableTarget, b: CallableTarget) -> bool
    decreases a,
{
    match (a, b) {
        (CallableTarget::Named(x), CallableTarget::Named(y)) => alike_named_callable_target(x, y),
        (CallableTarget::Local(x), CallableTarget::Local(y)) => alike_local_callable_target(x, y),
        _ => false,
    }
}

/// Whether two method targets are alike.
pub open spec fn alike_method_target(a: MethodTarget, b: MethodTarget) -> bool
    decreases a,
{
    a.name@ == b.name@ && alike_argument_binding(a.binding, b.binding)
}

/// Whether two provider operations are alike.
pub open spec fn alike_provider_operation(a: ProviderOperation, b: ProviderOperation) -> bool
    decreases a,
{
    a.provider@ == b.provider@ && a.declaration_name@ == b.declaration_name@
}

/// Whether two calls of provider operations are alike.
pub open spec fn alike_provider_operation_plan(a: ProviderOperationPlan, b: ProviderOperationPlan) -> bool
    decreases a,
{
    alike_provider_operation(a.operation, b.operation) && a.call_span == b.call_span
}

/// Whether two callees are alike.
pub open spec fn alike_callee(a: Callee, b: Callee) -> bool
    decreases a,
{
    match (a, b) {
        (Callee::Function(x), Callee::Function(y)) => alike_callable_target(x, y),
        (Callee::Method(x), Callee::Method(y)) => alike_method_target(x, y),
        (Callee::Helper(x), Callee::Helper(y)) => x == y,
        (Callee::ProviderOperation(x), Callee::ProviderOperation(y)) => alike_provider_operation_plan(x, y),
        _ => false,
    }
}

/// Whether two default computations are alike.
pub open spec fn alike_default_computation(a: DefaultComputation, b: DefaultComputation) -> bool
    decreases a,
{
    alike_statements(a.stmts@, b.stmts@) && alike_operand(a.result, b.result) && a.span == b.span
}

/// Whether two defaults are alike.
pub open spec fn alike_callable_param_default(a: CallableParamDefault, b: CallableParamDefault) -> bool
    decreases a,
{
    match (a, b) {
        (CallableParamDefault::Required, CallableParamDefault::Required) => true,
        (CallableParamDefault::Source(x), CallableParamDefault::Source(y)) => alike_default_computation(x, y),
        (
            CallableParamDefault::PartialPreset { capture },
            CallableParamDefault::PartialPreset { capture: other_capture },
        ) => capture == other_capture,
        (
            CallableParamDefault::Unsupported { span, description },
            CallableParamDefault::Unsupported { span: other_span, description: other_description },
        ) => span == other_span && description@ == other_description@,
        _ => false,
    }
}

/// Whether two parameters are alike.
pub open spec fn alike_callable_param(a: CallableParam, b: CallableParam) -> bool
    decreases a,
{
    a.name@ == b.name@ && a.local == b.local && alike_callable_param_default(a.default, b.default) && a.span == b.span
}

/// Whether two closure bodies are alike.
pub open spec fn alike_closure_body(a: ClosureBody, b: ClosureBody) -> bool
    decreases a,
{
    a.capture_locals@ == b.capture_locals@ && alike_statements(a.stmts@, b.stmts@)
        && alike_operand(a.result, b.result)
}

/// Whether two generator bodies are alike.
pub open spec fn alike_generator_body(a: GeneratorBody, b: GeneratorBody) -> bool
    decreases a,
{
    a.source_local == b.source_local && a.capture_locals@ == b.capture_locals@ && alike_statements(a.stmts@, b.stmts@)
}

/// Whether two match arms are alike.
pub open spec fn alike_match_arm(a: MatchArm, b: MatchArm) -> bool
    decreases a,
{
    alike_statements(a.guard_stmts@, b.guard_stmts@) && alike_statements(a.body_stmts@, b.body_stmts@)
}

/// Whether two computations are alike.
pub open spec fn alike_rvalue(a: Rvalue, b: Rvalue) -> bool
    decreases a,
{
    match (a, b) {
        (Rvalue::Use(x), Rvalue::Use(y)) => alike_operand(x, y),
        (Rvalue::UnaryOp(a0, a1), Rvalue::UnaryOp(b0, b1)) => a0 == b0 && alike_operand(a1, b1),
        (Rvalue::BinaryOp(a0, a1, a2), Rvalue::BinaryOp(b0, b1, b2)) => a0 == b0 && alike_operand(a1, b1)
            && alike_operand(a2, b2),
        (Rvalue::Aggregate(a0, a1), Rvalue::Aggregate(b0, b1)) => alike_aggregate_kind(a0, b0)
            && alike_argument_elements(a1@, b1@),
        (Rvalue::Format(x), Rvalue::Format(y)) => alike_operands(x@, y@),
        (
            Rvalue::Closure { params, captured_operands, body },
            Rvalue::Closure { params: other_params, captured_operands: other_captured_operands, body: other_body },
        ) => alike_callable_params(params@, other_params@)
            && alike_operands(captured_operands@, other_captured_operands@) && alike_closure_body(*body, *other_body),
        (
            Rvalue::Generator { source, captured_operands, body },
            Rvalue::Generator { source: other_source, captured_operands: other_captured_operands, body: other_body },
        ) => alike_operand(source, other_source) && alike_operands(captured_operands@, other_captured_operands@)
            && alike_generator_body(body, other_body),
        (Rvalue::Match { arms }, Rvalue::Match { arms: other_arms }) => alike_match_arms(arms@, other_arms@),
        _ => false,
    }
}

/// Whether two blocks are alike.
pub open spec fn alike_block(a: Block, b: Block) -> bool
    decreases a,
{
    alike_statements(a.stmts@, b.stmts@)
}

/// Whether two race arms are alike.
pub open spec fn alike_race_arm(a: RaceArm, b: RaceArm) -> bool
    decreases a,
{
    alike_block(a.body, b.body)
}

/// Whether two kinds of statements are alike.
pub open spec fn alike_statement_kind(a: StatementKind, b: StatementKind) -> bool
    decreases a,
{
    match (a, b) {
        (
            StatementKind::Assign { place, rvalue },
            StatementKind::Assign { place: other_place, rvalue: other_rvalue },
        ) => alike_place(place, other_place) && alike_rvalue(rvalue, other_rvalue),
        (
            StatementKind::Call { destination, callee, args, may_panic },
            StatementKind::Call {
                destination: other_destination,
                callee: other_callee,
                args: other_args,
                may_panic: other_may_panic,
            },
        ) => alike_optional_place(destination, other_destination) && alike_callee(callee, other_callee)
            && alike_argument_elements(args@, other_args@) && may_panic == other_may_panic,
        (StatementKind::Drop { local }, StatementKind::Drop { local: other_local }) => local == other_local,
        (
            StatementKind::If { cond, then_block, else_block },
            StatementKind::If { cond: other_cond, then_block: other_then_block, else_block: other_else_block },
        ) => alike_operand(cond, other_cond) && alike_block(then_block, other_then_block)
            && alike_optional_block(else_block, other_else_block),
        (StatementKind::Loop { body }, StatementKind::Loop { body: other_body }) => alike_block(body, other_body),
        (
            StatementKind::Break { value },
            StatementKind::Break { value: other_value },
        ) => alike_optional_operand(value, other_value),
        (StatementKind::Continue, StatementKind::Continue) => true,
        (
            StatementKind::Return { value },
            StatementKind::Return { value: other_value },
        ) => alike_optional_operand(value, other_value),
        (
            StatementKind::Assert { cond, message, may_panic },
            StatementKind::Assert { cond: other_cond, message: other_message, may_panic: other_may_panic },
        ) => alike_operand(cond, other_cond) && alike_optional_operand(message, other_message)
            && may_panic == other_may_panic,
        (
            StatementKind::Expr { value },
            StatementKind::Expr { value: other_value },
        ) => alike_operand(value, other_value),
        (
            StatementKind::IterNext { destination, iterator, protocol },
            StatementKind::IterNext {
                destination: other_destination,
                iterator: other_iterator,
                protocol: other_protocol,
            },
        ) => alike_place(destination, other_destination) && alike_operand(iterator, other_iterator)
            && protocol == other_protocol,
        (
            StatementKind::Yield { value },
            StatementKind::Yield { value: other_value },
        ) => alike_operand(value, other_value),
        (
            StatementKind::Await { value },
            StatementKind::Await { value: other_value },
        ) => alike_operand(value, other_value),
        (
            StatementKind::Race { arms },
            StatementKind::Race { arms: other_arms },
        ) => alike_race_arms(arms@, other_arms@),
        (
            StatementKind::TryPropagate { value },
            StatementKind::TryPropagate { value: other_value },
        ) => alike_operand(value, other_value),
        (
            StatementKind::Unsupported { description },
            StatementKind::Unsupported { description: other_description },
        ) => description@ == other_description@,
        _ => false,
    }
}

/// Whether two statements are alike.
pub open spec fn alike_statement(a: Statement, b: Statement) -> bool
    decreases a,
{
    alike_statement_kind(a.kind, b.kind) && a.span == b.span
}

/// Whether two runtime requirements are alike.
pub open spec fn alike_requirement(a: AbiV0RuntimeRequirement, b: AbiV0RuntimeRequirement) -> bool
    decreases a,
{
    match (a, b) {
        (AbiV0RuntimeRequirement::RuntimeHelper(x), AbiV0RuntimeRequirement::RuntimeHelper(y)) => x@ == y@,
        (AbiV0RuntimeRequirement::HostedStd, AbiV0RuntimeRequirement::HostedStd) => true,
        (AbiV0RuntimeRequirement::Allocator, AbiV0RuntimeRequirement::Allocator) => true,
        (AbiV0RuntimeRequirement::PanicStrategy, AbiV0RuntimeRequirement::PanicStrategy) => true,
        (AbiV0RuntimeRequirement::AsyncRuntime, AbiV0RuntimeRequirement::AsyncRuntime) => true,
        _ => false,
    }
}

/// Whether two bodies are alike.
pub open spec fn alike_body(a: Body, b: Body) -> bool
    decreases a,
{
    a.name@ == b.name@ && a.direct_call_id@ == b.direct_call_id@ && a.span == b.span
        && alike_callable_params(a.params@, b.params@) && alike_local_decls(a.locals@, b.locals@)
        && alike_block(a.block, b.block) && a.is_async == b.is_async && a.yields == b.yields
        && alike_requirements(a.runtime_requirements@, b.runtime_requirements@) && a.snapshot@ == b.snapshot@
}

/// Whether two runs of runtime requirements are alike.
pub open spec fn alike_requirements(a: Seq<AbiV0RuntimeRequirement>, b: Seq<AbiV0RuntimeRequirement>) -> bool
    decreases a,
{
    a.len() == b.len() && forall|i: int| 0 <= i < a.len() ==> alike_requirement(#[trigger] a[i], b[i])
}

/// Whether two runs of arguments are alike.
pub open spec fn alike_argument_elements(a: Seq<ArgumentElement>, b: Seq<ArgumentElement>) -> bool
    decreases a,
{
    a.len() == b.len() && forall|i: int| 0 <= i < a.len() ==> alike_argument_element(#[trigger] a[i], b[i])
}

/// Whether two runs of parameters are alike.
pub open spec fn alike_callable_params(a: Seq<CallableParam>, b: Seq<CallableParam>) -> bool
    decreases a,
{
    a.len() == b.len() && forall|i: int| 0 <= i < a.len() ==> alike_callable_param(#[trigger] a[i], b[i])
}

/// Whether two runs of types are alike.
pub open spec fn alike_types(a: Seq<IncanType>, b: Seq<IncanType>) -> bool
    decreases a,
{
    a.len() == b.len() && forall|i: int| 0 <= i < a.len() ==> alike_type(#[trigger] a[i], b[i])
}

/// Whether two runs of declared locals are alike.
pub open spec fn alike_local_decls(a: Seq<LocalDecl>, b: Seq<LocalDecl>) -> bool
    decreases a,
{
    a.len() == b.len() && forall|i: int| 0 <= i < a.len() ==> alike_local_decl(#[trigger] a[i], b[i])
}

/// Whether two runs of match arms are alike.
pub open spec fn alike_match_arms(a: Seq<MatchArm>, b: Seq<MatchArm>) -> bool
    decreases a,
{
    a.len() == b.len() && forall|i: int| 0 <= i < a.len() ==> alike_match_arm(#[trigger] a[i], b[i])
}

/// Whether two runs of operands are alike.
pub open spec fn alike_operands(a: Seq<Operand>, b: Seq<Operand>) -> bool
    decreases a,
{
    a.len() == b.len() && forall|i: int| 0 <= i < a.len() ==> alike_operand(#[trigger] a[i], b[i])
}

/// Whether two runs of steps of places are alike.
pub open spec fn alike_place_elems(a: Seq<PlaceElem>, b: Seq<PlaceElem>) -> bool
    decreases a,
{
    a.len() == b.len() && forall|i: int| 0 <= i < a.len() ==> alike_place_elem(#[trigger] a[i], b[i])
}

/// Whether two runs of race arms are alike.
pub open spec fn alike_race_arms(a: Seq<RaceArm>, b: Seq<RaceArm>) -> bool
    decreases a,
{
    a.len() == b.len() && forall|i: int| 0 <= i < a.len() ==> alike_race_arm(#[trigger] a[i], b[i])
}

/// Whether two runs of statements are alike.
pub open spec fn alike_statements(a: Seq<Statement>, b: Seq<Statement>) -> bool
    decreases a,
{
    a.len() == b.len() && forall|i: int| 0 <= i < a.len() ==> alike_statement(#[trigger] a[i], b[i])
}

/// Whether two optional blocks are alike.
pub open spec fn alike_optional_block(a: Option<Block>, b: Option<Block>) -> bool
    decreases a,
{
    match (a, b) {
        (Some(x), Some(y)) => alike_block(x, y),
        (None, None) => true,
        _ => false,
    }
}

/// Whether two optional operands are alike.
pub open spec fn alike_optional_operand(a: Option<Operand>, b: Option<Operand>) -> bool
    decreases a,
{
    match (a, b) {
        (Some(x), Some(y)) => alike_operand(x, y),
        (None, None) => true,
        _ => false,
    }
}

/// Whether two optional places are alike.
pub open spec fn alike_optional_place(a: Option<Place>, b: Option<Place>) -> bool
    decreases a,
{
    match (a, b) {
        (Some(x), Some(y)) => alike_place(x, y),
        (None, None) => true,
        _ => false,
    }
}

// ---------------------------------------------------------------------------
// Decisions
// ---------------------------------------------------------------------------

/// Decides whether two optional texts are alike.
fn is_alike_option(a: &Option<String>, b: &Option<String>) -> (alike: bool)
    ensures
        alike == alike_option(*a, *b),
{
    match (a, b) {
        (Some(x), Some(y)) => same_text(x.as_str(), y.as_str()),
        (None, None) => true,
        _ => false,
    }
}

/// Decides whether two runs of bound arguments are the same.
fn same_bound_arguments(a: &Vec<BoundArgument>, b: &Vec<BoundArgument>) -> (same: bool)
    ensures
        same == (a@ == b@),
{
    if a.len() != b.len() {
        return false;
    }
    let mut i: usize = 0;
    while i < a.len()
        invariant
            i <= a@.len() == b@.len(),
            forall|j: int| 0 <= j < i ==> a@[j] == b@[j],
        decreases a@.len() - i,
    {
        if a[i] != b[i] {
            return false;
        }
        i += 1;
    }
    proof {
        assert(a@ =~= b@);
    }
    true
}

/// Decides whether two runs of slots are the same.
fn same_slots(a: &Vec<usize>, b: &Vec<usize>) -> (same: bool)
    ensures
        same == (a@ == b@),
{
    if a.len() != b.len() {
        return false;
    }
    let mut i: usize = 0;
    while i < a.len()
        invariant
            i <= a@.len() == b@.len(),
            forall|j: int| 0 <= j < i ==> a@[j] == b@[j],
        decreases a@.len() - i,
    {
        if a[i] != b[i] {
            return false;
        }
        i += 1;
    }
    proof {
        assert(a@ =~= b@);
    }
    true
}

/// Decides whether two runs of locals are the same.
fn same_locals(a: &Vec<LocalId>, b: &Vec<LocalId>) -> (same: bool)
    ensures
        same == (a@ == b@),
{
    if a.len() != b.len() {
        return false;
    }
    let mut i: usize = 0;
    while i < a.len()
        invariant
            i <= a@.len() == b@.len(),
            forall|j: int| 0 <= j < i ==> a@[j] == b@[j],
        decreases a@.len() - i,
    {
        if a[i] != b[i] {
            return false;
        }
        i += 1;
    }
    proof {
        assert(a@ =~= b@);
    }
    true
}

/// Decides whether two types are alike.
fn is_alike_type(a: &IncanType, b: &IncanType) -> (alike: bool)
    ensures
        alike == alike_type(*a, *b),
    decreases a,
{
    match (a, b) {
        (IncanType::Primitive(x), IncanType::Primitive(y)) => *x == *y,
        (IncanType::Tuple(x), IncanType::Tuple(y)) => are_alike_types(x, y),
        (
            IncanType::Generic { collection, args },
            IncanType::Generic { collection: other_collection, args: other_args },
        ) => *collection == *other_collection && are_alike_types(args, other_args),
        (IncanType::Named(x), IncanType::Named(y)) => same_text(x.as_str(), y.as_str()),
        _ => false,
    }
}

/// Decides whether two declared locals are alike.
fn is_alike_local_decl(a: &LocalDecl, b: &LocalDecl) -> (alike: bool)
    ensures
        alike == alike_local_decl(*a, *b),
    decreases a,
{
    a.id == b.id && is_alike_option(&a.name, &b.name) && a.origin == b.origin && is_alike_type(&a.ty, &b.ty)
        && same_text(a.ty_text.as_str(), b.ty_text.as_str()) && a.span == b.span
}

/// Decides whether two steps of places are alike.
fn is_alike_place_elem(a: &PlaceElem, b: &PlaceElem) -> (alike: bool)
    ensures
        alike == alike_place_elem(*a, *b),
    decreases a,
{
    match (a, b) {
        (PlaceElem::Field(x), PlaceElem::Field(y)) => same_text(x.as_str(), y.as_str()),
        (PlaceElem::Index(x), PlaceElem::Index(y)) => is_alike_operand(x, y),
        (PlaceElem::Slice, PlaceElem::Slice) => true,
        _ => false,
    }
}

/// Decides whether two places are alike.
fn is_alike_place(a: &Place, b: &Place) -> (alike: bool)
    ensures
        alike == alike_place(*a, *b),
    decreases a,
{
    a.local == b.local && are_alike_place_elems(&a.projection, &b.projection)
}

/// Decides whether two reads of places are alike.
fn is_alike_place_operand(a: &PlaceOperand, b: &PlaceOperand) -> (alike: bool)
    ensures
        alike == alike_place_operand(*a, *b),
    decreases a,
{
    is_alike_place(&a.place, &b.place) && a.fact == b.fact && a.last_use == b.last_use
}

/// Decides whether two constants are alike.
fn is_alike_constant(a: &Constant, b: &Constant) -> (alike: bool)
    ensures
        alike == alike_constant(*a, *b),
    decreases a,
{
    match (a, b) {
        (Constant::Int(x), Constant::Int(y)) => *x == *y,
        (Constant::Bool(x), Constant::Bool(y)) => *x == *y,
        (Constant::Str(x), Constant::Str(y)) => same_text(x.as_str(), y.as_str()),
        (Constant::Float(x), Constant::Float(y)) => same_text(x.as_str(), y.as_str()),
        (Constant::Unit, Constant::Unit) => true,
        (Constant::NoneLiteral, Constant::NoneLiteral) => true,
        _ => false,
    }
}

/// Decides whether two operands are alike.
fn is_alike_operand(a: &Operand, b: &Operand) -> (alike: bool)
    ensures
        alike == alike_operand(*a, *b),
    decreases a,
{
    match (a, b) {
        (Operand::Constant(x), Operand::Constant(y)) => is_alike_constant(x, y),
        (Operand::Place(x), Operand::Place(y)) => is_alike_place_operand(x, y),
        _ => false,
    }
}

/// Decides whether two arguments are alike.
fn is_alike_argument_element(a: &ArgumentElement, b: &ArgumentElement) -> (alike: bool)
    ensures
        alike == alike_argument_element(*a, *b),
    decreases a,
{
    match (a, b) {
        (ArgumentElement::One(x), ArgumentElement::One(y)) => is_alike_operand(x, y),
        (ArgumentElement::Spread(x), ArgumentElement::Spread(y)) => is_alike_operand(x, y),
        _ => false,
    }
}

/// Decides whether two kinds of aggregates are alike.
fn is_alike_aggregate_kind(a: &AggregateKind, b: &AggregateKind) -> (alike: bool)
    ensures
        alike == alike_aggregate_kind(*a, *b),
    decreases a,
{
    match (a, b) {
        (AggregateKind::Tuple, AggregateKind::Tuple) => true,
        (AggregateKind::List, AggregateKind::List) => true,
        (AggregateKind::Dict, AggregateKind::Dict) => true,
        (AggregateKind::SetLiteral, AggregateKind::SetLiteral) => true,
        (AggregateKind::Constructor(x), AggregateKind::Constructor(y)) => same_text(x.as_str(), y.as_str()),
        _ => false,
    }
}

/// Decides whether two argument bindings are alike.
fn is_alike_argument_binding(a: &ArgumentBinding, b: &ArgumentBinding) -> (alike: bool)
    ensures
        alike == alike_argument_binding(*a, *b),
    decreases a,
{
    match (a, b) {
        (
            ArgumentBinding::Resolved { arguments, defaulted_slots },
            ArgumentBinding::Resolved { arguments: other_arguments, defaulted_slots: other_defaulted_slots },
        ) => same_bound_arguments(arguments, other_arguments) && same_slots(defaulted_slots, other_defaulted_slots),
        (ArgumentBinding::UnresolvedPositional, ArgumentBinding::UnresolvedPositional) => true,
        _ => false,
    }
}

/// Decides whether two named targets are alike.
fn is_alike_named_callable_target(a: &NamedCallableTarget, b: &NamedCallableTarget) -> (alike: bool)
    ensures
        alike == alike_named_callable_target(*a, *b),
    decreases a,
{
    same_text(a.name.as_str(), b.name.as_str()) && is_alike_argument_binding(&a.binding, &b.binding)
        && a.builtin == b.builtin && is_alike_option(&a.direct_call_id, &b.direct_call_id)
}

/// Decides whether two local targets are alike.
fn is_alike_local_callable_target(a: &LocalCallableTarget, b: &LocalCallableTarget) -> (alike: bool)
    ensures
        alike == alike_local_callable_target(*a, *b),
    decreases a,
{
    is_alike_place_operand(&a.operand, &b.operand) && is_alike_argument_binding(&a.binding, &b.binding)
        && same_text(a.label.as_str(), b.label.as_str())
}

/// Decides whether two call targets are alike.
fn is_alike_callable_target(a: &CallableTarget, b: &CallableTarget) -> (alike: bool)
    ensures
        alike == alike_callable_target(*a, *b),
    decreases a,
{
    match (a, b) {
        (CallableTarget::Named(x), CallableTarget::Named(y)) => is_alike_named_callable_target(x, y),
        (CallableTarget::Local(x), CallableTarget::Local(y)) => is_alike_local_callable_target(x, y),
        _ => false,
    }
}

/// Decides whether two method targets are alike.
fn is_alike_method_target(a: &MethodTarget, b: &MethodTarget) -> (alike: bool)
    ensures
        alike == alike_method_target(*a, *b),
    decreases a,
{
    same_text(a.name.as_str(), b.name.as_str()) && is_alike_argument_binding(&a.binding, &b.binding)
}

/// Decides whether two provider operations are alike.
pub fn is_alike_provider_operation(a: &ProviderOperation, b: &ProviderOperation) -> (alike: bool)
    ensures
        alike == alike_provider_operation(*a, *b),
    decreases a,
{
    same_text(a.provider.as_str(), b.provider.as_str())
        && same_text(a.declaration_name.as_str(), b.declaration_name.as_str())
}

/// Decides whether two calls of provider operations are alike.
fn is_alike_provider_operation_plan(a: &ProviderOperationPlan, b: &ProviderOperationPlan) -> (alike: bool)
    ensures
        alike == alike_provider_operation_plan(*a, *b),
    decreases a,
{
    is_alike_provider_operation(&a.operation, &b.operation) && a.call_span == b.call_span
}

/// Decides whether two callees are alike.
fn is_alike_callee(a: &Callee, b: &Callee) -> (alike: bool)
    ensures
        alike == alike_callee(*a, *b),
    decreases a,
{
    match (a, b) {
        (Callee::Function(x), Callee::Function(y)) => is_alike_callable_target(x, y),
        (Callee::Method(x), Callee::Method(y)) => is_alike_method_target(x, y),
        (Callee::Helper(x), Callee::Helper(y)) => *x == *y,
        (Callee::ProviderOperation(x), Callee::ProviderOperation(y)) => is_alike_provider_operation_plan(x, y),
        _ => false,
    }
}

/// Decides whether two default computations are alike.
fn is_alike_default_computation(a: &DefaultComputation, b: &DefaultComputation) -> (alike: bool)
    ensures
        alike == alike_default_computation(*a, *b),
    decreases a,
{
    are_alike_statements(&a.stmts, &b.stmts) && is_alike_operand(&a.result, &b.result) && a.span == b.span
}

/// Decides whether two defaults are alike.
fn is_alike_callable_param_default(a: &CallableParamDefault, b: &CallableParamDefault) -> (alike: bool)
    ensures
        alike == alike_callable_param_default(*a, *b),
    decreases a,
{
    match (a, b) {
        (CallableParamDefault::Required, CallableParamDefault::Required) => true,
        (CallableParamDefault::Source(x), CallableParamDefault::Source(y)) => is_alike_default_computation(x, y),
        (
            CallableParamDefault::PartialPreset { capture },
            CallableParamDefault::PartialPreset { capture: other_capture },
        ) => *capture == *other_capture,
        (
            CallableParamDefault::Unsupported { span, description },
            CallableParamDefault::Unsupported { span: other_span, description: other_description },
        ) => *span == *other_span && same_text(description.as_str(), other_description.as_str()),
        _ => false,
    }
}

/// Decides whether two parameters are alike.
fn is_alike_callable_param(a: &CallableParam, b: &CallableParam) -> (alike: bool)
    ensures
        alike == alike_callable_param(*a, *b),
    decreases a,
{
    same_text(a.name.as_str(), b.name.as_str()) && a.local == b.local
        && is_alike_callable_param_default(&a.default, &b.default) && a.span == b.span
}

/// Decides whether two closure bodies are alike.
pub fn is_alike_closure_body(a: &ClosureBody, b: &ClosureBody) -> (alike: bool)
    ensures
        alike == alike_closure_body(*a, *b),
    decreases a,
{
    same_locals(&a.capture_locals, &b.capture_locals) && are_alike_statements(&a.stmts, &b.stmts)
        && is_alike_operand(&a.result, &b.result)
}

/// Decides whether two generator bodies are alike.
fn is_alike_generator_body(a: &GeneratorBody, b: &GeneratorBody) -> (alike: bool)
    ensures
        alike == alike_generator_body(*a, *b),
    decreases a,
{
    a.source_local == b.source_local && same_locals(&a.capture_locals, &b.capture_locals)
        && are_alike_statements(&a.stmts, &b.stmts)
}

/// Decides whether two match arms are alike.
fn is_alike_match_arm(a: &MatchArm, b: &MatchArm) -> (alike: bool)
    ensures
        alike == alike_match_arm(*a, *b),
    decreases a,
{
    are_alike_statements(&a.guard_stmts, &b.guard_stmts) && are_alike_statements(&a.body_stmts, &b.body_stmts)
}

/// Decides whether two computations are alike.
fn is_alike_rvalue(a: &Rvalue, b: &Rvalue) -> (alike: bool)
    ensures
        alike == alike_rvalue(*a, *b),
    decreases a,
{
    match (a, b) {
        (Rvalue::Use(x), Rvalue::Use(y)) => is_alike_operand(x, y),
        (Rvalue::UnaryOp(a0, a1), Rvalue::UnaryOp(b0, b1)) => *a0 == *b0 && is_alike_operand(a1, b1),
        (Rvalue::BinaryOp(a0, a1, a2), Rvalue::BinaryOp(b0, b1, b2)) => *a0 == *b0 && is_alike_operand(a1, b1)
            && is_alike_operand(a2, b2),
        (Rvalue::Aggregate(a0, a1), Rvalue::Aggregate(b0, b1)) => is_alike_aggregate_kind(a0, b0)
            && are_alike_argument_elements(a1, b1),
        (Rvalue::Format(x), Rvalue::Format(y)) => are_alike_operands(x, y),
        (
            Rvalue::Closure { params, captured_operands, body },
            Rvalue::Closure { params: other_params, captured_operands: other_captured_operands, body: other_body },
        ) => are_alike_callable_params(params, other_params)
            && are_alike_operands(captured_operands, other_captured_operands)
            && is_alike_closure_body(body, other_body),
        (
            Rvalue::Generator { source, captured_operands, body },
            Rvalue::Generator { source: other_source, captured_operands: other_captured_operands, body: other_body },
        ) => is_alike_operand(source, other_source) && are_alike_operands(captured_operands, other_captured_operands)
            && is_alike_generator_body(body, other_body),
        (Rvalue::Match { arms }, Rvalue::Match { arms: other_arms }) => are_alike_match_arms(arms, other_arms),
        _ => false,
    }
}

/// Decides whether two blocks are alike.
fn is_alike_block(a: &Block, b: &Block) -> (alike: bool)
    ensures
        alike == alike_block(*a, *b),
    decreases a,
{
    are_alike_statements(&a.stmts, &b.stmts)
}

/// Decides whether two race arms are alike.
fn is_alike_race_arm(a: &RaceArm, b: &RaceArm) -> (alike: bool)
    ensures
        alike == alike_race_arm(*a, *b),
    decreases a,
{
    is_alike_block(&a.body, &b.body)
}

/// Decides whether two kinds of statements are alike.
fn is_alike_statement_kind(a: &StatementKind, b: &StatementKind) -> (alike: bool)
    ensures
        alike == alike_statement_kind(*a, *b),
    decreases a,
{
    match (a, b) {
        (
            StatementKind::Assign { place, rvalue },
            StatementKind::Assign { place: other_place, rvalue: other_rvalue },
        ) => is_alike_place(place, other_place) && is_alike_rvalue(rvalue, other_rvalue),
        (
            StatementKind::Call { destination, callee, args, may_panic },
            StatementKind::Call {
                destination: other_destination,
                callee: other_callee,
                args: other_args,
                may_panic: other_may_panic,
            },
        ) => is_alike_optional_place(destination, other_destination) && is_alike_callee(callee, other_callee)
            && are_alike_argument_elements(args, other_args) && *may_panic == *other_may_panic,
        (StatementKind::Drop { local }, StatementKind::Drop { local: other_local }) => *local == *other_local,
        (
            StatementKind::If { cond, then_block, else_block },
            StatementKind::If { cond: other_cond, then_block: other_then_block, else_block: other_else_block },
        ) => is_alike_operand(cond, other_cond) && is_alike_block(then_block, other_then_block)
            && is_alike_optional_block(else_block, other_else_block),
        (StatementKind::Loop { body }, StatementKind::Loop { body: other_body }) => is_alike_block(body, other_body),
        (
            StatementKind::Break { value },
            StatementKind::Break { value: other_value },
        ) => is_alike_optional_operand(value, other_value),
        (StatementKind::Continue, StatementKind::Continue) => true,
        (
            StatementKind::Return { value },
            StatementKind::Return { value: other_value },
        ) => is_alike_optional_operand(value, other_value),
        (
            StatementKind::Assert { cond, message, may_panic },
            StatementKind::Assert { cond: other_cond, message: other_message, may_panic: other_may_panic },
        ) => is_alike_operand(cond, other_cond) && is_alike_optional_operand(message, other_message)
            && *may_panic == *other_may_panic,
        (
            StatementKind::Expr { value },
            StatementKind::Expr { value: other_value },
        ) => is_alike_operand(value, other_value),
        (
            StatementKind::IterNext { destination, iterator, protocol },
            StatementKind::IterNext {
                destination: other_destination,
                iterator: other_iterator,
                protocol: other_protocol,
            },
        ) => is_alike_place(destination, other_destination) && is_alike_operand(iterator, other_iterator)
            && *protocol == *other_protocol,
        (
            StatementKind::Yield { value },
            StatementKind::Yield { value: other_value },
        ) => is_alike_operand(value, other_value),
        (
            StatementKind::Await { value },
            StatementKind::Await { value: other_value },
        ) => is_alike_operand(value, other_value),
        (
            StatementKind::Race { arms },
            StatementKind::Race { arms: other_arms },
        ) => are_alike_race_arms(arms, other_arms),
        (
            StatementKind::TryPropagate { value },
            StatementKind::TryPropagate { value: other_value },
        ) => is_alike_operand(value, other_value),
        (
            StatementKind::Unsupported { description },
            StatementKind::Unsupported { description: other_description },
        ) => same_text(description.as_str(), other_description.as_str()),
        _ => false,
    }
}

/// Decides whether two statements are alike.
fn is_alike_statement(a: &Statement, b: &Statement) -> (alike: bool)
    ensures
        alike == alike_statement(*a, *b),
    decreases a,
{
    is_alike_statement_kind(&a.kind, &b.kind) && a.span == b.span
}

/// Decides whether two runtime requirements are alike.
fn is_alike_requirement(a: &AbiV0RuntimeRequirement, b: &AbiV0RuntimeRequirement) -> (alike: bool)
    ensures
        alike == alike_requirement(*a, *b),
    decreases a,
{
    match (a, b) {
        (
            AbiV0RuntimeRequirement::RuntimeHelper(x),
            AbiV0RuntimeRequirement::RuntimeHelper(y),
        ) => same_text(x.as_str(), y.as_str()),
        (AbiV0RuntimeRequirement::HostedStd, AbiV0RuntimeRequirement::HostedStd) => true,
        (AbiV0RuntimeRequirement::Allocator, AbiV0RuntimeRequirement::Allocator) => true,
        (AbiV0RuntimeRequirement::PanicStrategy, AbiV0RuntimeRequirement::PanicStrategy) => true,
        (AbiV0RuntimeRequirement::AsyncRuntime, AbiV0RuntimeRequirement::AsyncRuntime) => true,
        _ => false,
    }
}

/// Decides whether two bodies are alike.
pub fn is_alike_body(a: &Body, b: &Body) -> (alike: bool)
    ensures
        alike == alike_body(*a, *b),
    decreases a,
{
    same_text(a.name.as_str(), b.name.as_str()) && same_text(a.direct_call_id.as_str(), b.direct_call_id.as_str())
        && a.span == b.span && are_alike_callable_params(&a.params, &b.params)
        && are_alike_local_decls(&a.locals, &b.locals) && is_alike_block(&a.block, &b.block)
        && a.is_async == b.is_async && a.yields == b.yields
        && are_alike_requirements(&a.runtime_requirements, &b.runtime_requirements)
        && same_text(a.snapshot.as_str(), b.snapshot.as_str())
}

/// Decides whether two runs of runtime requirements are alike.
fn are_alike_requirements(a: &Vec<AbiV0RuntimeRequirement>, b: &Vec<AbiV0RuntimeRequirement>) -> (alike: bool)
    ensures
        alike == alike_requirements(a@, b@),
    decreases a,
{
    if a.len() != b.len() {
        return false;
    }
    let mut i: usize = 0;
    while i < a.len()
        invariant
            i <= a@.len() == b@.len(),
            forall|j: int| 0 <= j < i ==> alike_requirement(#[trigger] a@[j], b@[j]),
        decreases a@.len() - i,
    {
        if !is_alike_requirement(&a[i], &b[i]) {
            proof {
                assert(!alike_requirement(a@[i as int], b@[i as int]));
            }
            return false;
        }
        i += 1;
    }
    true
}

/// Decides whether two runs of arguments are alike.
fn are_alike_argument_elements(a: &Vec<ArgumentElement>, b: &Vec<ArgumentElement>) -> (alike: bool)
    ensures
        alike == alike_argument_elements(a@, b@),
    decreases a,
{
    if a.len() != b.len() {
        return false;
    }
    let mut i: usize = 0;
    while i < a.len()
        invariant
            i <= a@.len() == b@.len(),
            forall|j: int| 0 <= j < i ==> alike_argument_element(#[trigger] a@[j], b@[j]),
        decreases a@.len() - i,
    {
        if !is_alike_argument_element(&a[i], &b[i]) {
            proof {
                assert(!alike_argument_element(a@[i as int], b@[i as int]));
            }
            return false;
        }
        i += 1;
    }
    true
}

/// Decides whether two runs of parameters are alike.
pub fn are_alike_callable_params(a: &Vec<CallableParam>, b: &Vec<CallableParam>) -> (alike: bool)
    ensures
        alike == alike_callable_params(a@, b@),
    decreases a,
{
    if a.len() != b.len() {
        return false;
    }
    let mut i: usize = 0;
    while i < a.len()
        invariant
            i <= a@.len() == b@.len(),
            forall|j: int| 0 <= j < i ==> alike_callable_param(#[trigger] a@[j], b@[j]),
        decreases a@.len() - i,
    {
        if !is_alike_callable_param(&a[i], &b[i]) {
            proof {
                assert(!alike_callable_param(a@[i as int], b@[i as int]));
            }
            return false;
        }
        i += 1;
    }
    true
}

/// Decides whether two runs of types are alike.
fn are_alike_types(a: &Vec<IncanType>, b: &Vec<IncanType>) -> (alike: bool)
    ensures
        alike == alike_types(a@, b@),
    decreases a,
{
    if a.len() != b.len() {
        return false;
    }
    let mut i: usize = 0;
    while i < a.len()
        invariant
            i <= a@.len() == b@.len(),
            forall|j: int| 0 <= j < i ==> alike_type(#[trigger] a@[j], b@[j]),
        decreases a@.len() - i,
    {
        if !is_alike_type(&a[i], &b[i]) {
            proof {
                assert(!alike_type(a@[i as int], b@[i as int]));
            }
            return false;
        }
        i += 1;
    }
    true
}

/// Decides whether two runs of declared locals are alike.
fn are_alike_local_decls(a: &Vec<LocalDecl>, b: &Vec<LocalDecl>) -> (alike: bool)
    ensures
        alike == alike_local_decls(a@, b@),
    decreases a,
{
    if a.len() != b.len() {
        return false;
    }
    let mut i: usize = 0;
    while i < a.len()
        invariant
            i <= a@.len() == b@.len(),
            forall|j: int| 0 <= j < i ==> alike_local_decl(#[trigger] a@[j], b@[j]),
        decreases a@.len() - i,
    {
        if !is_alike_local_decl(&a[i], &b[i]) {
            proof {
                assert(!alike_local_decl(a@[i as int], b@[i as int]));
            }
            return false;
        }
        i += 1;
    }
    true
}

/// Decides whether two runs of match arms are alike.
fn are_alike_match_arms(a: &Vec<MatchArm>, b: &Vec<MatchArm>) -> (alike: bool)
    ensures
        alike == alike_match_arms(a@, b@),
    decreases a,
{
    if a.len() != b.len() {
        return false;
    }
    let mut i: usize = 0;
    while i < a.len()
        invariant
            i <= a@.len() == b@.len(),
            forall|j: int| 0 <= j < i ==> alike_match_arm(#[trigger] a@[j], b@[j]),
        decreases a@.len() - i,
    {
        if !is_alike_match_arm(&a[i], &b[i]) {
            proof {
                assert(!alike_match_arm(a@[i as int], b@[i as int]));
            }
            return false;
        }
        i += 1;
    }
    true
}

/// Decides whether two runs of operands are alike.
fn are_alike_operands(a: &Vec<Operand>, b: &Vec<Operand>) -> (alike: bool)
    ensures
        alike == alike_operands(a@, b@),
    decreases a,
{
    if a.len() != b.len() {
        return false;
    }
    let mut i: usize = 0;
    while i < a.len()
        invariant
            i <= a@.len() == b@.len(),
            forall|j: int| 0 <= j < i ==> alike_operand(#[trigger] a@[j], b@[j]),
        decreases a@.len() - i,
    {
        if !is_alike_operand(&a[i], &b[i]) {
            proof {
                assert(!alike_operand(a@[i as int], b@[i as int]));
            }
            return false;
        }
        i += 1;
    }
    true
}

/// Decides whether two runs of steps of places are alike.
fn are_alike_place_elems(a: &Vec<PlaceElem>, b: &Vec<PlaceElem>) -> (alike: bool)
    ensures
        alike == alike_place_elems(a@, b@),
    decreases a,
{
    if a.len() != b.len() {
        return false;
    }
    let mut i: usize = 0;
    while i < a.len()
        invariant
            i <= a@.len() == b@.len(),
            forall|j: int| 0 <= j < i ==> alike_place_elem(#[trigger] a@[j], b@[j]),
        decreases a@.len() - i,
    {
        if !is_alike_place_elem(&a[i], &b[i]) {
            proof {
                assert(!alike_place_elem(a@[i as int], b@[i as int]));
            }
            return false;
        }
        i += 1;
    }
    true
}

/// Decides whether two runs of race arms are alike.
fn are_alike_race_arms(a: &Vec<RaceArm>, b: &Vec<RaceArm>) -> (alike: bool)
    ensures
        alike == alike_race_arms(a@, b@),
    decreases a,
{
    if a.len() != b.len() {
        return false;
    }
    let mut i: usize = 0;
    while i < a.len()
        invariant
            i <= a@.len() == b@.len(),
            forall|j: int| 0 <= j < i ==> alike_race_arm(#[trigger] a@[j], b@[j]),
        decreases a@.len() - i,
    {
        if !is_alike_race_arm(&a[i], &b[i]) {
            proof {
                assert(!alike_race_arm(a@[i as int], b@[i as int]));
            }
            return false;
        }
        i += 1;
    }
    true
}

/// Decides whether two runs of statements are alike.
pub fn are_alike_statements(a: &Vec<Statement>, b: &Vec<Statement>) -> (alike: bool)
    ensures
        alike == alike_statements(a@, b@),
    decreases a,
{
    if a.len() != b.len() {
        return false;
    }
    let mut i: usize = 0;
    while i < a.len()
        invariant
            i <= a@.len() == b@.len(),
            forall|j: int| 0 <= j < i ==> alike_statement(#[trigger] a@[j], b@[j]),
        decreases a@.len() - i,
    {
        if !is_alike_statement(&a[i], &b[i]) {
            proof {
                assert(!alike_statement(a@[i as int], b@[i as int]));
            }
            return false;
        }
        i += 1;
    }
    true
}

/// Decides whether two optional blocks are alike.
fn is_alike_optional_block(a: &Option<Block>, b: &Option<Block>) -> (alike: bool)
    ensures
        alike == alike_optional_block(*a, *b),
    decreases a,
{
    match (a, b) {
        (Some(x), Some(y)) => is_alike_block(x, y),
        (None, None) => true,
        _ => false,
    }
}

/// Decides whether two optional operands are alike.
fn is_alike_optional_operand(a: &Option<Operand>, b: &Option<Operand>) -> (alike: bool)
    ensures
        alike == alike_optional_operand(*a, *b),
    decreases a,
{
    match (a, b) {
        (Some(x), Some(y)) => is_alike_operand(x, y),
        (None, None) => true,
        _ => false,
    }
}

/// Decides whether two optional places are alike.
fn is_alike_optional_place(a: &Option<Place>, b: &Option<Place>) -> (alike: bool)
    ensures
        alike == alike_optional_place(*a, *b),
    decreases a,
{
    match (a, b) {
        (Some(x), Some(y)) => is_alike_place(x, y),
        (None, None) => true,
        _ => false,
    }
}

// ---------------------------------------------------------------------------
// Likeness to oneself
// ---------------------------------------------------------------------------

proof fn self_type(a: IncanType)
    ensures
        alike_type(a, a),
    decreases a,
{
    match a {
        IncanType::Tuple(x) => {
            self_types(x@);
        },
        IncanType::Generic { args, .. } => {
            self_types(args@);
        },
        _ => {},
    }
}

proof fn self_local_decl(a: LocalDecl)
    ensures
        alike_local_decl(a, a),
    decreases a,
{
    self_type(a.ty);
}

proof fn self_place_elem(a: PlaceElem)
    ensures
        alike_place_elem(a, a),
    decreases a,
{
    match a {
        PlaceElem::Index(x) => {
            self_operand(*x);
        },
        _ => {},
    }
}

proof fn self_place(a: Place)
    ensures
        alike_place(a, a),
    decreases a,
{
    self_place_elems(a.projection@);
}

proof fn self_place_operand(a: PlaceOperand)
    ensures
        alike_place_operand(a, a),
    decreases a,
{
    self_place(a.place);
}

proof fn self_constant(a: Constant)
    ensures
        alike_constant(a, a),
    decreases a,
{
}

proof fn self_operand(a: Operand)
    ensures
        alike_operand(a, a),
    decreases a,
{
    match a {
        Operand::Constant(x) => {
            self_constant(x);
        },
        Operand::Place(x) => {
            self_place_operand(x);
        },
    }
}

proof fn self_argument_element(a: ArgumentElement)
    ensures
        alike_argument_element(a, a),
    decreases a,
{
    match a {
        ArgumentElement::One(x) => {
            self_operand(x);
        },
        ArgumentElement::Spread(x) => {
            self_operand(x);
        },
    }
}

proof fn self_aggregate_kind(a: AggregateKind)
    ensures
        alike_aggregate_kind(a, a),
    decreases a,
{
}

proof fn self_argument_binding(a: ArgumentBinding)
    ensures
        alike_argument_binding(a, a),
    decreases a,
{
}

proof fn self_named_callable_target(a: NamedCallableTarget)
    ensures
        alike_named_callable_target(a, a),
    decreases a,
{
    self_argument_binding(a.binding);
}

proof fn self_local_callable_target(a: LocalCallableTarget)
    ensures
        alike_local_callable_target(a, a),
    decreases a,
{
    self_place_operand(a.operand);
    self_argument_binding(a.binding);
}

proof fn self_callable_target(a: CallableTarget)
    ensures
        alike_callable_target(a, a),
    decreases a,
{
    match a {
        CallableTarget::Named(x) => {
            self_named_callable_target(x);
        },
        CallableTarget::Local(x) => {
            self_local_callable_target(x);
        },
    }
}

proof fn self_method_target(a: MethodTarget)
    ensures
        alike_method_target(a, a),
    decreases a,
{
    self_argument_binding(a.binding);
}

proof fn self_provider_operation(a: ProviderOperation)
    ensures
        alike_provider_operation(a, a),
    decreases a,
{
}

proof fn self_provider_operation_plan(a: ProviderOperationPlan)
    ensures
        alike_provider_operation_plan(a, a),
    decreases a,
{
    self_provider_operation(a.operation);
}

proof fn self_callee(a: Callee)
    ensures
        alike_callee(a, a),
    decreases a,
{
    match a {
        Callee::Function(x) => {
            self_callable_target(x);
        },
        Callee::Method(x) => {
            self_method_target(x);
        },
        Callee::ProviderOperation(x) => {
            self_provider_operation_plan(x);
        },
        _ => {},
    }
}

proof fn self_default_computation(a: DefaultComputation)
    ensures
        alike_default_computation(a, a),
    decreases a,
{
    law_statements_are_alike_themselves(a.stmts@);
    self_operand(a.result);
}

proof fn self_callable_param_default(a: CallableParamDefault)
    ensures
        alike_callable_param_default(a, a),
    decreases a,
{
    match a {
        CallableParamDefault::Source(x) => {
            self_default_computation(x);
        },
        _ => {},
    }
}

proof fn self_callable_param(a: CallableParam)
    ensures
        alike_callable_param(a, a),
    decreases a,
{
    self_callable_param_default(a.default);
}

/// Closure bodies are alike themselves.
pub proof fn law_closures_are_alike_themselves(a: &ClosureBody)
    ensures
        alike_closure_body(*a, *a),
    decreases a,
{
    law_statements_are_alike_themselves(a.stmts@);
    self_operand(a.result);
}

proof fn self_generator_body(a: GeneratorBody)
    ensures
        alike_generator_body(a, a),
    decreases a,
{
    law_statements_are_alike_themselves(a.stmts@);
}

proof fn self_match_arm(a: MatchArm)
    ensures
        alike_match_arm(a, a),
    decreases a,
{
    law_statements_are_alike_themselves(a.guard_stmts@);
    law_statements_are_alike_themselves(a.body_stmts@);
}

proof fn self_rvalue(a: Rvalue)
    ensures
        alike_rvalue(a, a),
    decreases a,
{
    match a {
        Rvalue::Use(x) => {
            self_operand(x);
        },
        Rvalue::UnaryOp(_, x1) => {
            self_operand(x1);
        },
        Rvalue::BinaryOp(_, x1, x2) => {
            self_operand(x1);
            self_operand(x2);
        },
        Rvalue::Aggregate(x0, x1) => {
            self_aggregate_kind(x0);
            self_argument_elements(x1@);
        },
        Rvalue::Format(x) => {
            self_operands(x@);
        },
        Rvalue::Closure { params, captured_operands, body } => {
            law_parameters_are_alike_themselves(params@);
            self_operands(captured_operands@);
            law_closures_are_alike_themselves(&*body);
        },
        Rvalue::Generator { source, captured_operands, body } => {
            self_operand(source);
            self_operands(captured_operands@);
            self_generator_body(body);
        },
        Rvalue::Match { arms } => {
            self_match_arms(arms@);
        },
    }
}

proof fn self_block(a: Block)
    ensures
        alike_block(a, a),
    decreases a,
{
    law_statements_are_alike_themselves(a.stmts@);
}

proof fn self_race_arm(a: RaceArm)
    ensures
        alike_race_arm(a, a),
    decreases a,
{
    self_block(a.body);
}

proof fn self_statement_kind(a: StatementKind)
    ensures
        alike_statement_kind(a, a),
    decreases a,
{
    match a {
        StatementKind::Assign { place, rvalue } => {
            self_place(place);
            self_rvalue(rvalue);
        },
        StatementKind::Call { destination, callee, args, .. } => {
            self_optional_place(destination);
            self_callee(callee);
            self_argument_elements(args@);
        },
        StatementKind::If { cond, then_block, else_block } => {
            self_operand(cond);
            self_block(then_block);
            self_optional_block(else_block);
        },
        StatementKind::Loop { body } => {
            self_block(body);
        },
        StatementKind::Break { value } => {
            self_optional_operand(value);
        },
        StatementKind::Return { value } => {
            self_optional_operand(value);
        },
        StatementKind::Assert { cond, message, .. } => {
            self_operand(cond);
            self_optional_operand(message);
        },
        StatementKind::Expr { value } => {
            self_operand(value);
        },
        StatementKind::IterNext { destination, iterator, .. } => {
            self_place(destination);
            self_operand(iterator);
        },
        StatementKind::Yield { value } => {
            self_operand(value);
        },
        StatementKind::Await { value } => {
            self_operand(value);
        },
        StatementKind::Race { arms } => {
            self_race_arms(arms@);
        },
        StatementKind::TryPropagate { value } => {
            self_operand(value);
        },
        _ => {},
    }
}

proof fn self_statement(a: Statement)
    ensures
        alike_statement(a, a),
    decreases a,
{
    self_statement_kind(a.kind);
}

proof fn self_requirement(a: AbiV0RuntimeRequirement)
    ensures
        alike_requirement(a, a),
    decreases a,
{
}

/// Bodies are alike themselves.
pub proof fn law_bodies_are_alike_themselves(a: &Body)
    ensures
        alike_body(*a, *a),
    decreases a,
{
    law_parameters_are_alike_themselves(a.params@);
    self_local_decls(a.locals@);
    self_block(a.block);
    self_requirements(a.runtime_requirements@);
}

proof fn self_requirements(a: Seq<AbiV0RuntimeRequirement>)
    ensures
        alike_requirements(a, a),
    decreases a,
{
    assert forall|i: int| 0 <= i < a.len() implies alike_requirement(#[trigger] a[i], a[i]) by {
        self_requirement(a[i]);
    }
}

proof fn self_argument_elements(a: Seq<ArgumentElement>)
    ensures
        alike_argument_elements(a, a),
    decreases a,
{
    assert forall|i: int| 0 <= i < a.len() implies alike_argument_element(#[trigger] a[i], a[i]) by {
        self_argument_element(a[i]);
    }
}

/// Parameters are alike themselves.
pub proof fn law_parameters_are_alike_themselves(a: Seq<CallableParam>)
    ensures
        alike_callable_params(a, a),
    decreases a,
{
    assert forall|i: int| 0 <= i < a.len() implies alike_callable_param(#[trigger] a[i], a[i]) by {
        self_callable_param(a[i]);
    }
}

proof fn self_types(a: Seq<IncanType>)
    ensures
        alike_types(a, a),
    decreases a,
{
    assert forall|i: int| 0 <= i < a.len() implies alike_type(#[trigger] a[i], a[i]) by {
        self_type(a[i]);
    }
}

proof fn self_local_decls(a: Seq<LocalDecl>)
    ensures
        alike_local_decls(a, a),
    decreases a,
{
    assert forall|i: int| 0 <= i < a.len() implies alike_local_decl(#[trigger] a[i], a[i]) by {
        self_local_decl(a[i]);
    }
}

proof fn self_match_arms(a: Seq<MatchArm>)
    ensures
        alike_match_arms(a, a),
    decreases a,
{
    assert forall|i: int| 0 <= i < a.len() implies alike_match_arm(#[trigger] a[i], a[i]) by {
        self_match_arm(a[i]);
    }
}

proof fn self_operands(a: Seq<Operand>)
    ensures
        alike_operands(a, a),
    decreases a,
{
    assert forall|i: int| 0 <= i < a.len() implies alike_operand(#[trigger] a[i], a[i]) by {
        self_operand(a[i]);
    }
}

proof fn self_place_elems(a: Seq<PlaceElem>)
    ensures
        alike_place_elems(a, a),
    decreases a,
{
    assert forall|i: int| 0 <= i < a.len() implies alike_place_elem(#[trigger] a[i], a[i]) by {
        self_place_elem(a[i]);
    }
}

proof fn self_race_arms(a: Seq<RaceArm>)
    ensures
        alike_race_arms(a, a),
    decreases a,
{
    assert forall|i: int| 0 <= i < a.len() implies alike_race_arm(#[trigger] a[i], a[i]) by {
        self_race_arm(a[i]);
    }
}

/// Statements are alike themselves.
pub proof fn law_statements_are_alike_themselves(a: Seq<Statement>)
    ensures
        alike_statements(a, a),
    decreases a,
{
    assert forall|i: int| 0 <= i < a.len() implies alike_statement(#[trigger] a[i], a[i]) by {
        self_statement(a[i]);
    }
}

proof fn self_optional_block(a: Option<Block>)
    ensures
        alike_optional_block(a, a),
    decreases a,
{
    match a {
        Some(x) => {
            self_block(x);
        },
        None => {},
    }
}

proof fn self_optional_operand(a: Option<Operand>)
    ensures
        alike_optional_operand(a, a),
    decreases a,
{
    match a {
        Some(x) => {
            self_operand(x);
        },
        None => {},
    }
}

proof fn self_optional_place(a: Option<Place>)
    ensures
        alike_optional_place(a, a),
    decreases a,
{
    match a {
        Some(x) => {
            self_place(x);
        },
        None => {},
    }
}

} // verus!
