//! Data is kept: what is lowered binds, assigns and walks what its source does.

use crate::ast::{AssignmentStmt, BinaryOp, BindingKind, Expr, Spanned, Statement, Type};
use crate::ir::{ExprModel, Mutability, StmtModel, TargetModel, TypeModel};
use crate::lowering::statements::{assignable, chained_run, expr_run, inside, item_type, stmt_run, Frame};
use crate::lowering::type_laws::{
    compound_meaning, law_lookups_find_the_innermost_binding, law_operators_keep_their_meaning, lowered_meaning,
};
use crate::lowering::types::{looked_up, lowered};
use crate::lowering::{in_scope, Scope};
use crate::text::{joined, texts};
use std::rc::Rc;
use vstd::prelude::*;

verus! {

broadcast use vstd::string::group_string_axioms;

/// Whether a lowered statement gives a name a value, in a new binding or in one that is there.
pub open spec fn gives(stmt: StmtModel, name: Seq<char>, value: ExprModel) -> bool {
    match stmt {
        StmtModel::Let { name: bound, value: given, .. } => bound == name && given == value,
        StmtModel::Assign { target: TargetModel::Var(assigned), value: given } => assigned == name && given == value,
        _ => false,
    }
}

/// An assignment that is lowered gives its name the value of its expression. It makes a new binding where it asks for
/// one, or where no scope has the name, and the binding has the annotated type, or else the value's. A name that it
/// binds as mutable can be assigned again.
pub proof fn law_assignments_give_their_values(enums: Scope, f: Frame, a: AssignmentStmt)
    ensures
        ({
            let (after, result) = stmt_run(enums, f, Statement::Assignment(a));
            let value = expr_run(f, a.value);
            let binds = a.binding is Let || a.binding is Mutable || a.binding is Inferred && !in_scope(
                value.0.scopes,
                a.name@,
            );
            &&& result is Ok ==> value.1 is Ok && gives(result->Ok_0, a.name@, value.1->Ok_0.0)
            &&& result is Ok ==> (result->Ok_0 is Let <==> binds)
            &&& result is Ok && binds ==> {
                let ty = match a.ty {
                    Some(annotation) => lowered(enums, annotation.node),
                    None => value.1->Ok_0.0.ty,
                };
                &&& result->Ok_0->Let_ty == ty
                &&& result->Ok_0->Let_mutability == (if a.binding is Mutable {
                    Mutability::Mutable
                } else {
                    Mutability::Immutable
                })
                &&& f.scopes.len() > 0 && value.0.scopes.len() > 0 ==> looked_up(after.scopes, a.name@) == ty
            }
            &&& result is Ok && a.binding is Mutable ==> assignable(after, a.name@)
            &&& result is Ok && !binds ==> after == value.0
            &&& value.1 is Err ==> result is Err
            &&& value.1 is Ok && (a.binding is Let || a.binding is Mutable || a.binding is Reassign) ==> result is Ok
            &&& value.1 is Ok && a.binding is Inferred ==> (result is Ok <==> binds || assignable(value.0, a.name@))
        }),
{
    let value = expr_run(f, a.value);
    if value.0.scopes.len() > 0 {
        match value.1 {
            Ok((model, _)) => {
                let ty = match a.ty {
                    Some(annotation) => annotated(enums, &annotation),
                    None => model.ty,
                };
                law_lookups_find_the_innermost_binding(value.0.scopes, a.name@, a.name@, ty);
            },
            Err(_) => {},
        }
    }
}

spec fn annotated(enums: Scope, annotation: &Spanned<Type>) -> TypeModel {
    lowered(enums, annotation.node)
}

/// A field or an element is assigned in the object that is evaluated first, at the index that is evaluated next, the
/// value that is evaluated last.
pub proof fn law_places_are_evaluated_before_values(enums: Scope, f: Frame, stmt: Statement)
    ensures
        stmt_run(enums, f, stmt).1 matches Ok(done) ==> (match stmt {
            Statement::FieldAssignment { object, field, value } => {
                let first = expr_run(f, object);
                let second = expr_run(first.0, value);
                &&& first.1 is Ok && second.1 is Ok
                &&& done matches StmtModel::Assign { target, value }
                &&& value == second.1->Ok_0.0
                &&& target is Field && *target->Field_object == first.1->Ok_0.0 && target->field == field@
            },
            Statement::IndexAssignment { object, index, value } => {
                let first = expr_run(f, object);
                let second = expr_run(first.0, index);
                let third = expr_run(second.0, value);
                &&& first.1 is Ok && second.1 is Ok && third.1 is Ok
                &&& done matches StmtModel::Assign { target, value }
                &&& value == third.1->Ok_0.0
                &&& target is Index && *target->Index_object == first.1->Ok_0.0 && *target->index
                    == second.1->Ok_0.0
            },
            _ => true,
        }),
{
}

/// A compound assignment combines its own name with its value, by the operator of its sign.
pub proof fn law_compound_assignments_combine(enums: Scope, f: Frame, stmt: Statement, a: int, b: int)
    ensures
        stmt_run(enums, f, stmt).1 matches Ok(done) ==> (match stmt {
            Statement::CompoundAssignment { name, op, value } => {
                &&& expr_run(f, value).1 is Ok
                &&& done matches StmtModel::CompoundAssign { target, op: lowered_op, value: given }
                &&& given == expr_run(f, value).1->Ok_0.0
                &&& target == TargetModel::Var(name@)
                &&& lowered_meaning(lowered_op, a, b) == compound_meaning(op, a, b)
            },
            _ => true,
        }),
{
    match stmt {
        Statement::CompoundAssignment { op, .. } => {
            law_operators_keep_their_meaning(BinaryOp::Add, op, a, b);
        },
        _ => {},
    }
}

/// The values that leave a function, decide a loop or are walked by one are those of the statement's expressions.
pub proof fn law_statements_keep_their_expressions(enums: Scope, f: Frame, stmt: Statement)
    ensures
        stmt_run(enums, f, stmt).1 matches Ok(done) ==> (match stmt {
            Statement::Expr(expr) => {
                &&& expr_run(f, expr).1 matches Ok(value)
                &&& done matches StmtModel::Expr(given)
                &&& given == value.0
            },
            Statement::Return(Some(expr)) => {
                &&& expr_run(f, expr).1 matches Ok(value)
                &&& done matches StmtModel::Return(given)
                &&& given == Some(value.0)
            },
            Statement::While { condition, .. } => {
                &&& expr_run(inside(f), condition).1 matches Ok(value)
                &&& done matches StmtModel::While { condition: given, .. }
                &&& given == value.0
            },
            Statement::For { iter, .. } => {
                &&& expr_run(f, iter).1 matches Ok(value)
                &&& done matches StmtModel::For { iterable: given, .. }
                &&& given == value.0
            },
            Statement::TupleUnpack { binding, names, value } => {
                &&& expr_run(f, value).1 matches Ok(value)
                &&& done matches StmtModel::Let { name, ty, mutability, value: given }
                &&& given == value.0 && ty == value.0.ty
                &&& name == joined(texts(names@), "_"@)
                &&& (mutability is Mutable <==> binding is Mutable)
            },
            Statement::Pass => done is Expr && done->Expr_0.kind is Unit && done->Expr_0.ty is Unit,
            _ => true,
        }),
{
}

/// Walking a list gives its items, walking a dictionary its keys, and walking a string strings; the items of
/// anything else are unknown.
pub proof fn law_walks_give_items(ty: TypeModel)
    ensures
        ty matches TypeModel::List(item) ==> item_type(ty) == *item,
        ty matches TypeModel::Dict(key, _) ==> item_type(ty) == *key,
        ty is String ==> item_type(ty) is String,
        !(ty is List) && !(ty is Dict) && !(ty is String) ==> item_type(ty) is Unknown,
{
}

/// A chained assignment binds its names from right to left: the last one to the value, and each other one to the name
/// on its right.
pub proof fn law_chains_bind_from_right_to_left(
    f: Frame,
    kind: BindingKind,
    targets: Seq<String>,
    value: Rc<Spanned<Expr>>,
    at: int,
)
    requires
        0 <= at < targets.len(),
    ensures
        chained_run(f, kind, targets, value).1 matches Ok(done) ==> {
            let given = expr_run(f, value).1;
            &&& given is Ok
            &&& done is Expr && done->Expr_0.kind is Block && done->Expr_0.kind->stmts.len() == targets.len()
            &&& done->Expr_0.kind->stmts[targets.len() - 1 - at] matches StmtModel::Let { name, mutability, value, ty }
            &&& name == targets[at]@
            &&& ty == given->Ok_0.0.ty
            &&& (mutability is Mutable <==> kind is Mutable)
            &&& at == targets.len() - 1 ==> value == given->Ok_0.0
            &&& at < targets.len() - 1 ==> value.kind is Var && value.kind->name == targets[at + 1]@ && (
            value.kind->access is Copy <==> given->Ok_0.1)
        },
        expr_run(f, value).1 is Ok ==> chained_run(f, kind, targets, value).1 is Ok,
{
}

/// A name that is bound as mutable can be assigned again without asking for it, and one that is not cannot.
pub proof fn law_only_mutable_names_are_assigned_again(
    enums: Scope,
    f: Frame,
    first: AssignmentStmt,
    second: AssignmentStmt,
)
    requires
        f.scopes.len() > 0,
        expr_run(f, first.value).0.scopes == f.scopes,
        expr_run(f, first.value).0.mutable_vars == f.mutable_vars,
        second.name@ == first.name@,
        second.binding is Inferred,
    ensures
        ({
            let (between, bound) = stmt_run(enums, f, Statement::Assignment(first));
            let again = expr_run(between, second.value);
            bound is Ok && again.1 is Ok && again.0.scopes == between.scopes && again.0.mutable_vars
                == between.mutable_vars ==> {
                &&& first.binding is Mutable ==> stmt_run(enums, between, Statement::Assignment(second)).1 is Ok
                &&& first.binding is Let && !assignable(f, first.name@) ==> stmt_run(
                    enums,
                    between,
                    Statement::Assignment(second),
                ).1 is Err
            }
        }),
{
    law_assignments_give_their_values(enums, f, first);
    let (between, bound) = stmt_run(enums, f, Statement::Assignment(first));
    law_assignments_give_their_values(enums, between, second);
    if bound is Ok && (first.binding is Let || first.binding is Mutable) {
        assert(between.scopes.last().contains_key(first.name@));
        assert(in_scope(between.scopes, first.name@));
    }
}

} // verus!
