//! Likeness and spelling agree: what is alike is spelled alike.

use crate::body_ir::{
    AbiV0RuntimeRequirement, AggregateKind, ArgumentBinding, ArgumentElement, BinOp, Block, Body, CallableParam,
    CallableParamDefault, CallableTarget, Callee, ClosureBody, CollectionTypeId, Constant, DefaultComputation,
    GeneratorBody, HelperOp, IncanPrimitiveType, IncanType, IterProtocol, LocalCallableTarget, LocalDecl,
    LocalOrigin, MatchArm, MethodTarget, NamedCallableTarget, Operand, OwnershipFact, Place, PlaceElem,
    PlaceOperand, ProviderOperation, ProviderOperationPlan, RaceArm, Rvalue, Statement, StatementKind, UnOp,
};
use crate::likeness::{
    alike_aggregate_kind, alike_argument_binding, alike_argument_element, alike_argument_elements, alike_block,
    alike_body, alike_callable_param, alike_callable_param_default, alike_callable_params, alike_callable_target,
    alike_callee, alike_closure_body, alike_constant, alike_default_computation, alike_generator_body,
    alike_local_callable_target, alike_local_decl, alike_local_decls, alike_match_arm, alike_match_arms,
    alike_method_target, alike_named_callable_target, alike_operand, alike_operands, alike_optional_block,
    alike_optional_operand, alike_optional_place, alike_place, alike_place_elem, alike_place_elems,
    alike_place_operand, alike_provider_operation, alike_provider_operation_plan, alike_race_arm, alike_race_arms,
    alike_requirement, alike_requirements, alike_rvalue, alike_statement, alike_statement_kind, alike_statements,
    alike_type, alike_types,
};
use crate::spelling::{
    spelled_aggregate_kind, spelled_argument_binding, spelled_argument_element, spelled_argument_elements,
    spelled_binary_operator, spelled_block, spelled_body, spelled_callable_param, spelled_callable_param_default,
    spelled_callable_params, spelled_callable_target, spelled_callee, spelled_closure_body,
    spelled_collection_type_id, spelled_constant, spelled_default_computation, spelled_generator_body,
    spelled_helper, spelled_iter_protocol, spelled_local_callable_target, spelled_local_decl, spelled_local_decls,
    spelled_local_origin, spelled_match_arm, spelled_match_arms, spelled_method_target,
    spelled_named_callable_target, spelled_operand, spelled_operands, spelled_optional_block,
    spelled_optional_operand, spelled_optional_place, spelled_ownership_fact, spelled_place, spelled_place_elem,
    spelled_place_elems, spelled_place_operand, spelled_primitive_type, spelled_provider_operation,
    spelled_provider_operation_plan, spelled_race_arm, spelled_race_arms, spelled_requirement, spelled_requirements,
    spelled_rvalue, spelled_statement, spelled_statement_kind, spelled_statements, spelled_type, spelled_types,
    spelled_unary_operator,
};
use vstd::prelude::*;

verus! {

broadcast use vstd::string::group_string_axioms;

proof fn same_type(a: IncanType, b: IncanType)
    requires
        alike_type(a, b),
    ensures
        spelled_type(a) == spelled_type(b),
    decreases a,
{
    match (a, b) {
        (IncanType::Tuple(x), IncanType::Tuple(other_x)) => {
            same_types(x@, other_x@);
        },
        (IncanType::Generic { args, .. }, IncanType::Generic { args: other_args, .. }) => {
            same_types(args@, other_args@);
        },
        _ => {},
    }
}

proof fn same_local_decl(a: LocalDecl, b: LocalDecl)
    requires
        alike_local_decl(a, b),
    ensures
        spelled_local_decl(a) == spelled_local_decl(b),
    decreases a,
{
    same_type(a.ty, b.ty);
}

proof fn same_place_elem(a: PlaceElem, b: PlaceElem)
    requires
        alike_place_elem(a, b),
    ensures
        spelled_place_elem(a) == spelled_place_elem(b),
    decreases a,
{
    match (a, b) {
        (PlaceElem::Index(x), PlaceElem::Index(other_x)) => {
            same_operand(*x, *other_x);
        },
        _ => {},
    }
}

proof fn same_place(a: Place, b: Place)
    requires
        alike_place(a, b),
    ensures
        spelled_place(a) == spelled_place(b),
    decreases a,
{
    same_place_elems(a.projection@, b.projection@);
}

proof fn same_place_operand(a: PlaceOperand, b: PlaceOperand)
    requires
        alike_place_operand(a, b),
    ensures
        spelled_place_operand(a) == spelled_place_operand(b),
    decreases a,
{
    same_place(a.place, b.place);
}

proof fn same_constant(a: Constant, b: Constant)
    requires
        alike_constant(a, b),
    ensures
        spelled_constant(a) == spelled_constant(b),
    decreases a,
{
}

proof fn same_operand(a: Operand, b: Operand)
    requires
        alike_operand(a, b),
    ensures
        spelled_operand(a) == spelled_operand(b),
    decreases a,
{
    match (a, b) {
        (Operand::Constant(x), Operand::Constant(other_x)) => {
            same_constant(x, other_x);
        },
        (Operand::Place(x), Operand::Place(other_x)) => {
            same_place_operand(x, other_x);
        },
        _ => {},
    }
}

proof fn same_argument_element(a: ArgumentElement, b: ArgumentElement)
    requires
        alike_argument_element(a, b),
    ensures
        spelled_argument_element(a) == spelled_argument_element(b),
    decreases a,
{
    match (a, b) {
        (ArgumentElement::One(x), ArgumentElement::One(other_x)) => {
            same_operand(x, other_x);
        },
        (ArgumentElement::Spread(x), ArgumentElement::Spread(other_x)) => {
            same_operand(x, other_x);
        },
        _ => {},
    }
}

proof fn same_aggregate_kind(a: AggregateKind, b: AggregateKind)
    requires
        alike_aggregate_kind(a, b),
    ensures
        spelled_aggregate_kind(a) == spelled_aggregate_kind(b),
    decreases a,
{
}

proof fn same_argument_binding(a: ArgumentBinding, b: ArgumentBinding)
    requires
        alike_argument_binding(a, b),
    ensures
        spelled_argument_binding(a) == spelled_argument_binding(b),
    decreases a,
{
}

proof fn same_named_callable_target(a: NamedCallableTarget, b: NamedCallableTarget)
    requires
        alike_named_callable_target(a, b),
    ensures
        spelled_named_callable_target(a) == spelled_named_callable_target(b),
    decreases a,
{
    same_argument_binding(a.binding, b.binding);
}

proof fn same_local_callable_target(a: LocalCallableTarget, b: LocalCallableTarget)
    requires
        alike_local_callable_target(a, b),
    ensures
        spelled_local_callable_target(a) == spelled_local_callable_target(b),
    decreases a,
{
    same_place_operand(a.operand, b.operand);
    same_argument_binding(a.binding, b.binding);
}

proof fn same_callable_target(a: CallableTarget, b: CallableTarget)
    requires
        alike_callable_target(a, b),
    ensures
        spelled_callable_target(a) == spelled_callable_target(b),
    decreases a,
{
    match (a, b) {
        (CallableTarget::Named(x), CallableTarget::Named(other_x)) => {
            same_named_callable_target(x, other_x);
        },
        (CallableTarget::Local(x), CallableTarget::Local(other_x)) => {
            same_local_callable_target(x, other_x);
        },
        _ => {},
    }
}

proof fn same_method_target(a: MethodTarget, b: MethodTarget)
    requires
        alike_method_target(a, b),
    ensures
        spelled_method_target(a) == spelled_method_target(b),
    decreases a,
{
    same_argument_binding(a.binding, b.binding);
}

/// Provider operations that are alike are spelled alike.
pub proof fn law_alike_operations_are_spelled_alike(a: ProviderOperation, b: ProviderOperation)
    requires
        alike_provider_operation(a, b),
    ensures
        spelled_provider_operation(a) == spelled_provider_operation(b),
    decreases a,
{
}

proof fn same_provider_operation_plan(a: ProviderOperationPlan, b: ProviderOperationPlan)
    requires
        alike_provider_operation_plan(a, b),
    ensures
        spelled_provider_operation_plan(a) == spelled_provider_operation_plan(b),
    decreases a,
{
    law_alike_operations_are_spelled_alike(a.operation, b.operation);
}

proof fn same_callee(a: Callee, b: Callee)
    requires
        alike_callee(a, b),
    ensures
        spelled_callee(a) == spelled_callee(b),
    decreases a,
{
    match (a, b) {
        (Callee::Function(x), Callee::Function(other_x)) => {
            same_callable_target(x, other_x);
        },
        (Callee::Method(x), Callee::Method(other_x)) => {
            same_method_target(x, other_x);
        },
        (Callee::ProviderOperation(x), Callee::ProviderOperation(other_x)) => {
            same_provider_operation_plan(x, other_x);
        },
        _ => {},
    }
}

proof fn same_default_computation(a: DefaultComputation, b: DefaultComputation)
    requires
        alike_default_computation(a, b),
    ensures
        spelled_default_computation(a) == spelled_default_computation(b),
    decreases a,
{
    law_alike_statements_are_spelled_alike(a.stmts@, b.stmts@);
    same_operand(a.result, b.result);
}

proof fn same_callable_param_default(a: CallableParamDefault, b: CallableParamDefault)
    requires
        alike_callable_param_default(a, b),
    ensures
        spelled_callable_param_default(a) == spelled_callable_param_default(b),
    decreases a,
{
    match (a, b) {
        (CallableParamDefault::Source(x), CallableParamDefault::Source(other_x)) => {
            same_default_computation(x, other_x);
        },
        _ => {},
    }
}

proof fn same_callable_param(a: CallableParam, b: CallableParam)
    requires
        alike_callable_param(a, b),
    ensures
        spelled_callable_param(a) == spelled_callable_param(b),
    decreases a,
{
    same_callable_param_default(a.default, b.default);
}

/// Closure bodies that are alike are spelled alike.
pub proof fn law_alike_closures_are_spelled_alike(a: &ClosureBody, b: &ClosureBody)
    requires
        alike_closure_body(*a, *b),
    ensures
        spelled_closure_body(*a) == spelled_closure_body(*b),
    decreases a,
{
    law_alike_statements_are_spelled_alike(a.stmts@, b.stmts@);
    same_operand(a.result, b.result);
}

proof fn same_generator_body(a: GeneratorBody, b: GeneratorBody)
    requires
        alike_generator_body(a, b),
    ensures
        spelled_generator_body(a) == spelled_generator_body(b),
    decreases a,
{
    law_alike_statements_are_spelled_alike(a.stmts@, b.stmts@);
}

proof fn same_match_arm(a: MatchArm, b: MatchArm)
    requires
        alike_match_arm(a, b),
    ensures
        spelled_match_arm(a) == spelled_match_arm(b),
    decreases a,
{
    law_alike_statements_are_spelled_alike(a.guard_stmts@, b.guard_stmts@);
    law_alike_statements_are_spelled_alike(a.body_stmts@, b.body_stmts@);
}

proof fn same_rvalue(a: Rvalue, b: Rvalue)
    requires
        alike_rvalue(a, b),
    ensures
        spelled_rvalue(a) == spelled_rvalue(b),
    decreases a,
{
    match (a, b) {
        (Rvalue::Use(x), Rvalue::Use(other_x)) => {
            same_operand(x, other_x);
        },
        (Rvalue::UnaryOp(_, x1), Rvalue::UnaryOp(other__, other_x1)) => {
            same_operand(x1, other_x1);
        },
        (Rvalue::BinaryOp(_, x1, x2), Rvalue::BinaryOp(other__, other_x1, other_x2)) => {
            same_operand(x1, other_x1);
            same_operand(x2, other_x2);
        },
        (Rvalue::Aggregate(x0, x1), Rvalue::Aggregate(other_x0, other_x1)) => {
            same_aggregate_kind(x0, other_x0);
            same_argument_elements(x1@, other_x1@);
        },
        (Rvalue::Format(x), Rvalue::Format(other_x)) => {
            same_operands(x@, other_x@);
        },
        (Rvalue::Closure { params, captured_operands, body }, Rvalue::Closure { params: other_params, captured_operands: other_captured_operands, body: other_body }) => {
            law_alike_parameters_are_spelled_alike(params@, other_params@);
            same_operands(captured_operands@, other_captured_operands@);
            law_alike_closures_are_spelled_alike(&*body, &*other_body);
        },
        (Rvalue::Generator { source, captured_operands, body }, Rvalue::Generator { source: other_source, captured_operands: other_captured_operands, body: other_body }) => {
            same_operand(source, other_source);
            same_operands(captured_operands@, other_captured_operands@);
            same_generator_body(body, other_body);
        },
        (Rvalue::Match { arms }, Rvalue::Match { arms: other_arms }) => {
            same_match_arms(arms@, other_arms@);
        },
        _ => {},
    }
}

proof fn same_block(a: Block, b: Block)
    requires
        alike_block(a, b),
    ensures
        spelled_block(a) == spelled_block(b),
    decreases a,
{
    law_alike_statements_are_spelled_alike(a.stmts@, b.stmts@);
}

proof fn same_race_arm(a: RaceArm, b: RaceArm)
    requires
        alike_race_arm(a, b),
    ensures
        spelled_race_arm(a) == spelled_race_arm(b),
    decreases a,
{
    same_block(a.body, b.body);
}

proof fn same_statement_kind(a: StatementKind, b: StatementKind)
    requires
        alike_statement_kind(a, b),
    ensures
        spelled_statement_kind(a) == spelled_statement_kind(b),
    decreases a,
{
    match (a, b) {
        (StatementKind::Assign { place, rvalue }, StatementKind::Assign { place: other_place, rvalue: other_rvalue }) => {
            same_place(place, other_place);
            same_rvalue(rvalue, other_rvalue);
        },
        (StatementKind::Call { destination, callee, args, .. }, StatementKind::Call { destination: other_destination, callee: other_callee, args: other_args, .. }) => {
            same_optional_place(destination, other_destination);
            same_callee(callee, other_callee);
            same_argument_elements(args@, other_args@);
        },
        (StatementKind::If { cond, then_block, else_block }, StatementKind::If { cond: other_cond, then_block: other_then_block, else_block: other_else_block }) => {
            same_operand(cond, other_cond);
            same_block(then_block, other_then_block);
            same_optional_block(else_block, other_else_block);
        },
        (StatementKind::Loop { body }, StatementKind::Loop { body: other_body }) => {
            same_block(body, other_body);
        },
        (StatementKind::Break { value }, StatementKind::Break { value: other_value }) => {
            same_optional_operand(value, other_value);
        },
        (StatementKind::Return { value }, StatementKind::Return { value: other_value }) => {
            same_optional_operand(value, other_value);
        },
        (StatementKind::Assert { cond, message, .. }, StatementKind::Assert { cond: other_cond, message: other_message, .. }) => {
            same_operand(cond, other_cond);
            same_optional_operand(message, other_message);
        },
        (StatementKind::Expr { value }, StatementKind::Expr { value: other_value }) => {
            same_operand(value, other_value);
        },
        (StatementKind::IterNext { destination, iterator, .. }, StatementKind::IterNext { destination: other_destination, iterator: other_iterator, .. }) => {
            same_place(destination, other_destination);
            same_operand(iterator, other_iterator);
        },
        (StatementKind::Yield { value }, StatementKind::Yield { value: other_value }) => {
            same_operand(value, other_value);
        },
        (StatementKind::Await { value }, StatementKind::Await { value: other_value }) => {
            same_operand(value, other_value);
        },
        (StatementKind::Race { arms }, StatementKind::Race { arms: other_arms }) => {
            same_race_arms(arms@, other_arms@);
        },
        (StatementKind::TryPropagate { value }, StatementKind::TryPropagate { value: other_value }) => {
            same_operand(value, other_value);
        },
        _ => {},
    }
}

proof fn same_statement(a: Statement, b: Statement)
    requires
        alike_statement(a, b),
    ensures
        spelled_statement(a) == spelled_statement(b),
    decreases a,
{
    same_statement_kind(a.kind, b.kind);
}

proof fn same_requirement(a: AbiV0RuntimeRequirement, b: AbiV0RuntimeRequirement)
    requires
        alike_requirement(a, b),
    ensures
        spelled_requirement(a) == spelled_requirement(b),
    decreases a,
{
}

/// Bodies that are alike are spelled alike: whatever a spelling shows, likeness looks at.
pub proof fn law_alike_bodies_are_spelled_alike(a: &Body, b: &Body)
    requires
        alike_body(*a, *b),
    ensures
        spelled_body(*a) == spelled_body(*b),
    decreases a,
{
    law_alike_parameters_are_spelled_alike(a.params@, b.params@);
    same_local_decls(a.locals@, b.locals@);
    same_block(a.block, b.block);
    same_requirements(a.runtime_requirements@, b.runtime_requirements@);
}

proof fn same_requirements(a: Seq<AbiV0RuntimeRequirement>, b: Seq<AbiV0RuntimeRequirement>)
    requires
        alike_requirements(a, b),
    ensures
        spelled_requirements(a) == spelled_requirements(b),
    decreases a,
{
    assert forall|i: int| 0 <= i < a.len() implies spelled_requirement(#[trigger] a[i]) == spelled_requirement(b[i]) by {
        assert(alike_requirement(a[i], b[i]));
        same_requirement(a[i], b[i]);
    }
    assert(spelled_requirements(a) =~= spelled_requirements(b));
}

proof fn same_argument_elements(a: Seq<ArgumentElement>, b: Seq<ArgumentElement>)
    requires
        alike_argument_elements(a, b),
    ensures
        spelled_argument_elements(a) == spelled_argument_elements(b),
    decreases a,
{
    assert forall|i: int| 0 <= i < a.len() implies spelled_argument_element(#[trigger] a[i]) == spelled_argument_element(b[i]) by {
        assert(alike_argument_element(a[i], b[i]));
        same_argument_element(a[i], b[i]);
    }
    assert(spelled_argument_elements(a) =~= spelled_argument_elements(b));
}

/// Parameters that are alike are spelled alike.
pub proof fn law_alike_parameters_are_spelled_alike(a: Seq<CallableParam>, b: Seq<CallableParam>)
    requires
        alike_callable_params(a, b),
    ensures
        spelled_callable_params(a) == spelled_callable_params(b),
    decreases a,
{
    assert forall|i: int| 0 <= i < a.len() implies spelled_callable_param(#[trigger] a[i]) == spelled_callable_param(b[i]) by {
        assert(alike_callable_param(a[i], b[i]));
        same_callable_param(a[i], b[i]);
    }
    assert(spelled_callable_params(a) =~= spelled_callable_params(b));
}

proof fn same_types(a: Seq<IncanType>, b: Seq<IncanType>)
    requires
        alike_types(a, b),
    ensures
        spelled_types(a) == spelled_types(b),
    decreases a,
{
    assert forall|i: int| 0 <= i < a.len() implies spelled_type(#[trigger] a[i]) == spelled_type(b[i]) by {
        assert(alike_type(a[i], b[i]));
        same_type(a[i], b[i]);
    }
    assert(spelled_types(a) =~= spelled_types(b));
}

proof fn same_local_decls(a: Seq<LocalDecl>, b: Seq<LocalDecl>)
    requires
        alike_local_decls(a, b),
    ensures
        spelled_local_decls(a) == spelled_local_decls(b),
    decreases a,
{
    assert forall|i: int| 0 <= i < a.len() implies spelled_local_decl(#[trigger] a[i]) == spelled_local_decl(b[i]) by {
        assert(alike_local_decl(a[i], b[i]));
        same_local_decl(a[i], b[i]);
    }
    assert(spelled_local_decls(a) =~= spelled_local_decls(b));
}

proof fn same_match_arms(a: Seq<MatchArm>, b: Seq<MatchArm>)
    requires
        alike_match_arms(a, b),
    ensures
        spelled_match_arms(a) == spelled_match_arms(b),
    decreases a,
{
    assert forall|i: int| 0 <= i < a.len() implies spelled_match_arm(#[trigger] a[i]) == spelled_match_arm(b[i]) by {
        assert(alike_match_arm(a[i], b[i]));
        same_match_arm(a[i], b[i]);
    }
    assert(spelled_match_arms(a) =~= spelled_match_arms(b));
}

proof fn same_operands(a: Seq<Operand>, b: Seq<Operand>)
    requires
        alike_operands(a, b),
    ensures
        spelled_operands(a) == spelled_operands(b),
    decreases a,
{
    assert forall|i: int| 0 <= i < a.len() implies spelled_operand(#[trigger] a[i]) == spelled_operand(b[i]) by {
        assert(alike_operand(a[i], b[i]));
        same_operand(a[i], b[i]);
    }
    assert(spelled_operands(a) =~= spelled_operands(b));
}

proof fn same_place_elems(a: Seq<PlaceElem>, b: Seq<PlaceElem>)
    requires
        alike_place_elems(a, b),
    ensures
        spelled_place_elems(a) == spelled_place_elems(b),
    decreases a,
{
    assert forall|i: int| 0 <= i < a.len() implies spelled_place_elem(#[trigger] a[i]) == spelled_place_elem(b[i]) by {
        assert(alike_place_elem(a[i], b[i]));
        same_place_elem(a[i], b[i]);
    }
    assert(spelled_place_elems(a) =~= spelled_place_elems(b));
}

proof fn same_race_arms(a: Seq<RaceArm>, b: Seq<RaceArm>)
    requires
        alike_race_arms(a, b),
    ensures
        spelled_race_arms(a) == spelled_race_arms(b),
    decreases a,
{
    assert forall|i: int| 0 <= i < a.len() implies spelled_race_arm(#[trigger] a[i]) == spelled_race_arm(b[i]) by {
        assert(alike_race_arm(a[i], b[i]));
        same_race_arm(a[i], b[i]);
    }
    assert(spelled_race_arms(a) =~= spelled_race_arms(b));
}

/// Statements that are alike are spelled alike.
pub proof fn law_alike_statements_are_spelled_alike(a: Seq<Statement>, b: Seq<Statement>)
    requires
        alike_statements(a, b),
    ensures
        spelled_statements(a) == spelled_statements(b),
    decreases a,
{
    assert forall|i: int| 0 <= i < a.len() implies spelled_statement(#[trigger] a[i]) == spelled_statement(b[i]) by {
        assert(alike_statement(a[i], b[i]));
        same_statement(a[i], b[i]);
    }
    assert(spelled_statements(a) =~= spelled_statements(b));
}

proof fn same_optional_block(a: Option<Block>, b: Option<Block>)
    requires
        alike_optional_block(a, b),
    ensures
        spelled_optional_block(a) == spelled_optional_block(b),
    decreases a,
{
    match (a, b) {
        (Some(x), Some(other_x)) => {
            same_block(x, other_x);
        },
        _ => {},
    }
}

proof fn same_optional_operand(a: Option<Operand>, b: Option<Operand>)
    requires
        alike_optional_operand(a, b),
    ensures
        spelled_optional_operand(a) == spelled_optional_operand(b),
    decreases a,
{
    match (a, b) {
        (Some(x), Some(other_x)) => {
            same_operand(x, other_x);
        },
        _ => {},
    }
}

proof fn same_optional_place(a: Option<Place>, b: Option<Place>)
    requires
        alike_optional_place(a, b),
    ensures
        spelled_optional_place(a) == spelled_optional_place(b),
    decreases a,
{
    match (a, b) {
        (Some(x), Some(other_x)) => {
            same_place(x, other_x);
        },
        _ => {},
    }
}

/// Different ownership decisions are spelled differently.
pub proof fn law_ownership_facts_are_spelled_apart(a: OwnershipFact, b: OwnershipFact)
    ensures
        spelled_ownership_fact(a) == spelled_ownership_fact(b) <==> a == b,
{
    reveal_strlit("Copy");
    assert("Copy"@.len() == 4);
    reveal_strlit("Move");
    assert("Move"@.len() == 4);
    reveal_strlit("Clone");
    assert("Clone"@.len() == 5);
    reveal_strlit("Borrow");
    assert("Borrow"@.len() == 6);
    reveal_strlit("MutBorrow");
    assert("MutBorrow"@.len() == 9);
    reveal_strlit("Unknown");
    assert("Unknown"@.len() == 7);
    assert("Copy"@[0] != "Move"@[0]);
}

/// Different unary operators are spelled differently.
pub proof fn law_unary_operators_are_spelled_apart(a: UnOp, b: UnOp)
    ensures
        spelled_unary_operator(a) == spelled_unary_operator(b) <==> a == b,
{
    reveal_strlit("Neg");
    assert("Neg"@.len() == 3);
    reveal_strlit("Not");
    assert("Not"@.len() == 3);
    reveal_strlit("Invert");
    assert("Invert"@.len() == 6);
    assert("Neg"@[1] != "Not"@[1]);
}

/// Different binary operators are spelled differently.
pub proof fn law_binary_operators_are_spelled_apart(a: BinOp, b: BinOp)
    ensures
        spelled_binary_operator(a) == spelled_binary_operator(b) <==> a == b,
{
    reveal_strlit("Add");
    assert("Add"@.len() == 3);
    reveal_strlit("Sub");
    assert("Sub"@.len() == 3);
    reveal_strlit("Mul");
    assert("Mul"@.len() == 3);
    reveal_strlit("Div");
    assert("Div"@.len() == 3);
    reveal_strlit("FloorDiv");
    assert("FloorDiv"@.len() == 8);
    reveal_strlit("Mod");
    assert("Mod"@.len() == 3);
    reveal_strlit("Eq");
    assert("Eq"@.len() == 2);
    reveal_strlit("Ne");
    assert("Ne"@.len() == 2);
    reveal_strlit("Lt");
    assert("Lt"@.len() == 2);
    reveal_strlit("Le");
    assert("Le"@.len() == 2);
    reveal_strlit("Gt");
    assert("Gt"@.len() == 2);
    reveal_strlit("Ge");
    assert("Ge"@.len() == 2);
    reveal_strlit("And");
    assert("And"@.len() == 3);
    reveal_strlit("Or");
    assert("Or"@.len() == 2);
    assert("Add"@[0] != "Sub"@[0]);
    assert("Add"@[0] != "Mul"@[0]);
    assert("Add"@[0] != "Div"@[0]);
    assert("Add"@[0] != "Mod"@[0]);
    assert("Add"@[1] != "And"@[1]);
    assert("Sub"@[0] != "Mul"@[0]);
    assert("Sub"@[0] != "Div"@[0]);
    assert("Sub"@[0] != "Mod"@[0]);
    assert("Sub"@[0] != "And"@[0]);
    assert("Mul"@[0] != "Div"@[0]);
    assert("Mul"@[1] != "Mod"@[1]);
    assert("Mul"@[0] != "And"@[0]);
    assert("Div"@[0] != "Mod"@[0]);
    assert("Div"@[0] != "And"@[0]);
    assert("Mod"@[0] != "And"@[0]);
    assert("Eq"@[0] != "Ne"@[0]);
    assert("Eq"@[0] != "Lt"@[0]);
    assert("Eq"@[0] != "Le"@[0]);
    assert("Eq"@[0] != "Gt"@[0]);
    assert("Eq"@[0] != "Ge"@[0]);
    assert("Eq"@[0] != "Or"@[0]);
    assert("Ne"@[0] != "Lt"@[0]);
    assert("Ne"@[0] != "Le"@[0]);
    assert("Ne"@[0] != "Gt"@[0]);
    assert("Ne"@[0] != "Ge"@[0]);
    assert("Ne"@[0] != "Or"@[0]);
    assert("Lt"@[1] != "Le"@[1]);
    assert("Lt"@[0] != "Gt"@[0]);
    assert("Lt"@[0] != "Ge"@[0]);
    assert("Lt"@[0] != "Or"@[0]);
    assert("Le"@[0] != "Gt"@[0]);
    assert("Le"@[0] != "Ge"@[0]);
    assert("Le"@[0] != "Or"@[0]);
    assert("Gt"@[1] != "Ge"@[1]);
    assert("Gt"@[0] != "Or"@[0]);
    assert("Ge"@[0] != "Or"@[0]);
}

/// Different helpers are spelled differently.
pub proof fn law_helpers_are_spelled_apart(a: HelperOp, b: HelperOp)
    ensures
        spelled_helper(a) == spelled_helper(b) <==> a == b,
{
    reveal_strlit("StrConcat");
    assert("StrConcat"@.len() == 9);
    reveal_strlit("StrEq");
    assert("StrEq"@.len() == 5);
    reveal_strlit("StrNe");
    assert("StrNe"@.len() == 5);
    reveal_strlit("StrLt");
    assert("StrLt"@.len() == 5);
    reveal_strlit("StrLe");
    assert("StrLe"@.len() == 5);
    reveal_strlit("StrGt");
    assert("StrGt"@.len() == 5);
    reveal_strlit("StrGe");
    assert("StrGe"@.len() == 5);
    reveal_strlit("ListConcat");
    assert("ListConcat"@.len() == 10);
    assert("StrEq"@[3] != "StrNe"@[3]);
    assert("StrEq"@[3] != "StrLt"@[3]);
    assert("StrEq"@[3] != "StrLe"@[3]);
    assert("StrEq"@[3] != "StrGt"@[3]);
    assert("StrEq"@[3] != "StrGe"@[3]);
    assert("StrNe"@[3] != "StrLt"@[3]);
    assert("StrNe"@[3] != "StrLe"@[3]);
    assert("StrNe"@[3] != "StrGt"@[3]);
    assert("StrNe"@[3] != "StrGe"@[3]);
    assert("StrLt"@[4] != "StrLe"@[4]);
    assert("StrLt"@[3] != "StrGt"@[3]);
    assert("StrLt"@[3] != "StrGe"@[3]);
    assert("StrLe"@[3] != "StrGt"@[3]);
    assert("StrLe"@[3] != "StrGe"@[3]);
    assert("StrGt"@[4] != "StrGe"@[4]);
}

/// Different ways of polling are spelled differently.
pub proof fn law_iter_protocols_are_spelled_apart(a: IterProtocol, b: IterProtocol)
    ensures
        spelled_iter_protocol(a) == spelled_iter_protocol(b) <==> a == b,
{
    reveal_strlit("Builtin");
    assert("Builtin"@.len() == 7);
    reveal_strlit("Method");
    assert("Method"@.len() == 6);
}

/// Different origins are spelled differently.
pub proof fn law_local_origins_are_spelled_apart(a: LocalOrigin, b: LocalOrigin)
    ensures
        spelled_local_origin(a) == spelled_local_origin(b) <==> a == b,
{
    reveal_strlit("Parameter");
    assert("Parameter"@.len() == 9);
    reveal_strlit("UserBinding");
    assert("UserBinding"@.len() == 11);
    reveal_strlit("Temporary");
    assert("Temporary"@.len() == 9);
    assert("Parameter"@[0] != "Temporary"@[0]);
}

/// Different primitive types are spelled differently.
pub proof fn law_primitive_types_are_spelled_apart(a: IncanPrimitiveType, b: IncanPrimitiveType)
    ensures
        spelled_primitive_type(a) == spelled_primitive_type(b) <==> a == b,
{
    reveal_strlit("Int");
    assert("Int"@.len() == 3);
    reveal_strlit("Float");
    assert("Float"@.len() == 5);
    reveal_strlit("Bool");
    assert("Bool"@.len() == 4);
    reveal_strlit("Str");
    assert("Str"@.len() == 3);
    reveal_strlit("Bytes");
    assert("Bytes"@.len() == 5);
    reveal_strlit("Unit");
    assert("Unit"@.len() == 4);
    assert("Int"@[0] != "Str"@[0]);
    assert("Float"@[0] != "Bytes"@[0]);
    assert("Bool"@[0] != "Unit"@[0]);
}

/// Different collections are spelled differently.
pub proof fn law_collection_type_ids_are_spelled_apart(a: CollectionTypeId, b: CollectionTypeId)
    ensures
        spelled_collection_type_id(a) == spelled_collection_type_id(b) <==> a == b,
{
    reveal_strlit("List");
    assert("List"@.len() == 4);
    reveal_strlit("Dict");
    assert("Dict"@.len() == 4);
    reveal_strlit("Set");
    assert("Set"@.len() == 3);
    reveal_strlit("Tuple");
    assert("Tuple"@.len() == 5);
    reveal_strlit("Other");
    assert("Other"@.len() == 5);
    assert("List"@[0] != "Dict"@[0]);
    assert("Tuple"@[0] != "Other"@[0]);
}

} // verus!
