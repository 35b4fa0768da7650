//! Statement lowering.

use crate::ast::{AssignmentStmt, BindingKind, ElifBranch, Expr, IfStmt, Spanned, Statement};
use crate::ir::{
    stmt_models, AssignTarget, ExprKindModel, ExprModel, IrExprKind, IrStmt, IrStmtKind, IrType, Mutability, Pattern,
    StmtModel, TargetModel, TypeModel, TypedExpr, VarAccess,
};
use crate::lowering::types::{compound_lowered, lowered};
use crate::lowering::{
    answered, bound, failure, in_scope, left, lowering_failure, take_answer, AstLowering, ExprAnswer, Interruption,
    LoweredExpr, LoweringModel, Scope, Stop,
};
use crate::text::{join, joined, texts};
use std::rc::Rc;
use vstd::prelude::*;

verus! {

broadcast use vstd::string::group_string_axioms;

// ---------------------------------------------------------------------------
// What statements are lowered to
// ---------------------------------------------------------------------------

/// The part of the context that statements read and change, with the answers that are left.
#[verifier::ext_equal]
pub ghost struct Frame {
    /// The scope chain, innermost last.
    pub scopes: Seq<Scope>,
    /// The variables that can be assigned again.
    pub mutable_vars: Map<Seq<char>, bool>,
    /// The lowered forms of the expressions to come.
    pub answers: Seq<ExprAnswer>,
}

/// The frame behind a step, and what the step gave.
pub type Lowered<T> = (Frame, Result<T, Stop>);

/// The lowered form of an expression.
pub open spec fn expr_run(f: Frame, expr: Rc<Spanned<Expr>>) -> Lowered<(ExprModel, bool)> {
    let (answers, result) = answered(f.answers, expr);
    (Frame { answers, ..f }, result)
}

/// The frame with a new innermost scope.
pub open spec fn inside(f: Frame) -> Frame {
    Frame { scopes: f.scopes.push(Map::empty()), ..f }
}

/// The frame without its innermost scope.
pub open spec fn outside(f: Frame) -> Frame {
    Frame { scopes: left(f.scopes), ..f }
}

/// The frame with a name in its innermost scope.
pub open spec fn binding(f: Frame, name: Seq<char>, ty: TypeModel) -> Frame {
    Frame { scopes: bound(f.scopes, name, ty), ..f }
}

/// Whether a name can be assigned again.
pub open spec fn assignable(f: Frame, name: Seq<char>) -> bool {
    f.mutable_vars.contains_key(name) && f.mutable_vars[name]
}

/// Whether a binding kind makes its names assignable again.
pub open spec fn mutability_of(kind: BindingKind) -> Mutability {
    match kind {
        BindingKind::Mutable => Mutability::Mutable,
        _ => Mutability::Immutable,
    }
}

/// An assignment to a variable.
pub open spec fn assigned(name: Seq<char>, value: ExprModel) -> StmtModel {
    StmtModel::Assign { target: TargetModel::Var(name), value }
}

/// What an assignment to one name is lowered to.
///
/// A name that is new gets a binding in the innermost scope. A name that any scope has is assigned, if it can be
/// assigned again.
pub open spec fn assignment_run(enums: Scope, f: Frame, a: AssignmentStmt) -> Lowered<StmtModel> {
    let name = a.name@;
    match expr_run(f, a.value) {
        (f, Err(stop)) => (f, Err(stop)),
        (f, Ok((value, _))) => {
            let ty = match a.ty {
                Some(annotation) => lowered(enums, annotation.node),
                None => value.ty,
            };
            match a.binding {
                BindingKind::Reassign => (f, Ok(assigned(name, value))),
                BindingKind::Inferred => if in_scope(f.scopes, name) {
                    if assignable(f, name) {
                        (f, Ok(assigned(name, value)))
                    } else {
                        (f, Err(Stop::Error(failure("Cannot reassign immutable variable '"@ + name + "'"@))))
                    }
                } else {
                    (
                        binding(f, name, ty),
                        Ok(StmtModel::Let { name, ty, mutability: Mutability::Immutable, value }),
                    )
                },
                BindingKind::Mutable => (
                    binding(Frame { mutable_vars: f.mutable_vars.insert(name, true), ..f }, name, ty),
                    Ok(StmtModel::Let { name, ty, mutability: Mutability::Mutable, value }),
                ),
                BindingKind::Let => (
                    binding(f, name, ty),
                    Ok(StmtModel::Let { name, ty, mutability: Mutability::Immutable, value }),
                ),
            }
        },
    }
}

/// What an assignment to a field is lowered to.
pub open spec fn field_assignment_run(
    f: Frame,
    object: Rc<Spanned<Expr>>,
    field: Seq<char>,
    value: Rc<Spanned<Expr>>,
) -> Lowered<StmtModel> {
    match expr_run(f, object) {
        (f, Err(stop)) => (f, Err(stop)),
        (f, Ok((object, _))) => match expr_run(f, value) {
            (f, Err(stop)) => (f, Err(stop)),
            (f, Ok((value, _))) => (
                f,
                Ok(StmtModel::Assign { target: TargetModel::Field { object: Box::new(object), field }, value }),
            ),
        },
    }
}

/// What an assignment to an element is lowered to.
pub open spec fn index_assignment_run(
    f: Frame,
    object: Rc<Spanned<Expr>>,
    index: Rc<Spanned<Expr>>,
    value: Rc<Spanned<Expr>>,
) -> Lowered<StmtModel> {
    match expr_run(f, object) {
        (f, Err(stop)) => (f, Err(stop)),
        (f, Ok((object, _))) => match expr_run(f, index) {
            (f, Err(stop)) => (f, Err(stop)),
            (f, Ok((index, _))) => match expr_run(f, value) {
                (f, Err(stop)) => (f, Err(stop)),
                (f, Ok((value, _))) => (
                    f,
                    Ok(
                        StmtModel::Assign {
                            target: TargetModel::Index { object: Box::new(object), index: Box::new(index) },
                            value,
                        },
                    ),
                ),
            },
        },
    }
}

/// What a return is lowered to.
pub open spec fn return_run(f: Frame, value: Option<Rc<Spanned<Expr>>>) -> Lowered<StmtModel> {
    match value {
        None => (f, Ok(StmtModel::Return(None))),
        Some(expr) => match expr_run(f, expr) {
            (f, Err(stop)) => (f, Err(stop)),
            (f, Ok((value, _))) => (f, Ok(StmtModel::Return(Some(value)))),
        },
    }
}

/// The type that walking a value gives its loop variable.
pub open spec fn item_type(ty: TypeModel) -> TypeModel {
    match ty {
        TypeModel::List(item) => *item,
        TypeModel::Dict(key, _) => *key,
        TypeModel::String => TypeModel::String,
        _ => TypeModel::Unknown,
    }
}

/// The unit value.
pub open spec fn unit_expr() -> ExprModel {
    ExprModel { kind: ExprKindModel::Unit, ty: TypeModel::Unit }
}

/// The scope chain with the names of a chained assignment entered from the last one down to the first.
pub open spec fn chain_bound(scopes: Seq<Scope>, targets: Seq<String>, count: int, ty: TypeModel) -> Seq<Scope>
    decreases count,
{
    if count <= 0 {
        scopes
    } else {
        chain_bound(bound(scopes, targets[count - 1]@, ty), targets, count - 1, ty)
    }
}

/// One binding of a chained assignment: the rightmost name is bound to the value, every other name to the name on
/// its right.
pub open spec fn chain_let(
    targets: Seq<String>,
    at: int,
    mutability: Mutability,
    value: ExprModel,
    is_copy: bool,
) -> StmtModel {
    StmtModel::Let {
        name: targets[at]@,
        ty: value.ty,
        mutability,
        value: if at == targets.len() - 1 {
            value
        } else {
            ExprModel {
                kind: ExprKindModel::Var {
                    name: targets[at + 1]@,
                    access: if is_copy {
                        VarAccess::Copy
                    } else {
                        VarAccess::Move
                    },
                },
                ty: value.ty,
            }
        },
    }
}

/// What a chained assignment is lowered to: a block that binds the names from right to left.
pub open spec fn chained_run(
    f: Frame,
    kind: BindingKind,
    targets: Seq<String>,
    value: Rc<Spanned<Expr>>,
) -> Lowered<StmtModel> {
    match expr_run(f, value) {
        (f, Err(stop)) => (f, Err(stop)),
        (f, Ok((value, is_copy))) => if targets.len() == 0 {
            (f, Err(Stop::Error(failure("empty chained assignment"@))))
        } else {
            (
                Frame { scopes: chain_bound(f.scopes, targets, targets.len() as int, value.ty), ..f },
                Ok(
                    StmtModel::Expr(
                        ExprModel {
                            kind: ExprKindModel::Block {
                                stmts: Seq::new(
                                    targets.len(),
                                    |i: int|
                                        chain_let(
                                            targets,
                                            targets.len() - 1 - i,
                                            mutability_of(kind),
                                            value,
                                            is_copy,
                                        ),
                                ),
                                value: None,
                            },
                            ty: TypeModel::Unit,
                        },
                    ),
                ),
            )
        },
    }
}

/// What a statement is lowered to.
pub open spec fn stmt_run(enums: Scope, f: Frame, stmt: Statement) -> Lowered<StmtModel>
    decreases stmt, 0int,
{
    match stmt {
        Statement::Expr(expr) => match expr_run(f, expr) {
            (f, Err(stop)) => (f, Err(stop)),
            (f, Ok((value, _))) => (f, Ok(StmtModel::Expr(value))),
        },
        Statement::Assignment(a) => assignment_run(enums, f, a),
        Statement::FieldAssignment { object, field, value } => field_assignment_run(f, object, field@, value),
        Statement::IndexAssignment { object, index, value } => index_assignment_run(f, object, index, value),
        Statement::Return(value) => return_run(f, value),
        Statement::If(i) => if_run(enums, f, i),
        Statement::While { condition, body } => match expr_run(inside(f), condition) {
            (f, Err(stop)) => (f, Err(stop)),
            (f, Ok((condition, _))) => match stmts_run(enums, f, body@, 0, Seq::empty()) {
                (f, Err(stop)) => (f, Err(stop)),
                (f, Ok(body)) => (outside(f), Ok(StmtModel::While { label: None, condition, body })),
            },
        },
        Statement::For { var, iter, body } => match expr_run(f, iter) {
            (f, Err(stop)) => (f, Err(stop)),
            (f, Ok((iterable, _))) => match stmts_run(
                enums,
                binding(inside(f), var@, item_type(iterable.ty)),
                body@,
                0,
                Seq::empty(),
            ) {
                (f, Err(stop)) => (f, Err(stop)),
                (f, Ok(body)) => (
                    outside(f),
                    Ok(StmtModel::For { label: None, pattern: Some(var@), iterable, body }),
                ),
            },
        },
        Statement::Pass => (f, Ok(StmtModel::Expr(unit_expr()))),
        Statement::Break => (f, Ok(StmtModel::Break(None))),
        Statement::Continue => (f, Ok(StmtModel::Continue(None))),
        Statement::CompoundAssignment { name, op, value } => match expr_run(f, value) {
            (f, Err(stop)) => (f, Err(stop)),
            (f, Ok((value, _))) => (
                f,
                Ok(
                    StmtModel::CompoundAssign {
                        target: TargetModel::Var(name@),
                        op: compound_lowered(op),
                        value,
                    },
                ),
            ),
        },
        Statement::TupleUnpack { binding, names, value } => match expr_run(f, value) {
            (f, Err(stop)) => (f, Err(stop)),
            (f, Ok((value, _))) => (
                f,
                Ok(
                    StmtModel::Let {
                        name: joined(texts(names@), "_"@),
                        ty: value.ty,
                        mutability: mutability_of(binding),
                        value,
                    },
                ),
            ),
        },
        Statement::TupleAssign { .. } => (f, Err(Stop::Error(failure("TupleAssign not yet implemented"@)))),
        Statement::ChainedAssignment { binding, targets, value } => chained_run(f, binding, targets@, value),
    }
}

/// What a conditional is lowered to: its `elif` branches become conditionals inside the `else` branch, built from
/// the last one to the first. Each branch has a scope of its own.
pub open spec fn if_run(enums: Scope, f: Frame, i: IfStmt) -> Lowered<StmtModel>
    decreases i, 0int,
{
    match else_run(enums, f, i.else_body) {
        (f, Err(stop)) => (f, Err(stop)),
        (f, Ok(last)) => match elifs_run(enums, f, i.elif_branches@, i.elif_branches@.len() as int, last) {
            (f, Err(stop)) => (f, Err(stop)),
            (f, Ok(else_branch)) => match expr_run(f, i.condition) {
                (f, Err(stop)) => (f, Err(stop)),
                (f, Ok((condition, _))) => match stmts_run(enums, inside(f), i.then_body@, 0, Seq::empty()) {
                    (f, Err(stop)) => (f, Err(stop)),
                    (f, Ok(then_branch)) => (
                        outside(f),
                        Ok(StmtModel::If { condition, then_branch, else_branch }),
                    ),
                },
            },
        },
    }
}

/// What an `else` body is lowered to. Its scope is left even where it fails, and stays open where an expression is
/// asked for.
pub open spec fn else_run(enums: Scope, f: Frame, body: Option<Vec<Spanned<Statement>>>) -> Lowered<
    Option<Seq<StmtModel>>,
>
    decreases body, 0int,
{
    match body {
        None => (f, Ok(None)),
        Some(body) => match stmts_run(enums, inside(f), body@, 0, Seq::empty()) {
            (f, Err(Stop::Expression(expr))) => (f, Err(Stop::Expression(expr))),
            (f, Err(stop)) => (outside(f), Err(stop)),
            (f, Ok(stmts)) => (outside(f), Ok(Some(stmts))),
        },
    }
}

/// What the first `count` of some `elif` branches are lowered to in front of an `else` branch.
pub open spec fn elifs_run(
    enums: Scope,
    f: Frame,
    branches: Seq<ElifBranch>,
    count: int,
    else_branch: Option<Seq<StmtModel>>,
) -> Lowered<Option<Seq<StmtModel>>>
    decreases branches, count,
{
    if count <= 0 || count > branches.len() {
        (f, Ok(else_branch))
    } else {
        let branch = branches[count - 1];
        match stmts_run(enums, inside(f), branch.body@, 0, Seq::empty()) {
            (f, Err(stop)) => (f, Err(stop)),
            (f, Ok(then_branch)) => match expr_run(outside(f), branch.condition) {
                (f, Err(stop)) => (f, Err(stop)),
                (f, Ok((condition, _))) => elifs_run(
                    enums,
                    f,
                    branches,
                    count - 1,
                    Some(seq![StmtModel::If { condition, then_branch, else_branch }]),
                ),
            },
        }
    }
}

/// What a run of statements is lowered to, from one of them on, behind those that are done.
pub open spec fn stmts_run(
    enums: Scope,
    f: Frame,
    stmts: Seq<Spanned<Statement>>,
    from: int,
    done: Seq<StmtModel>,
) -> Lowered<Seq<StmtModel>>
    decreases stmts, stmts.len() - from,
{
    if from < 0 || from >= stmts.len() {
        (f, Ok(done))
    } else {
        match stmt_run(enums, f, stmts[from].node) {
            (f, Err(stop)) => (f, Err(stop)),
            (f, Ok(stmt)) => stmts_run(enums, f, stmts, from + 1, done.push(stmt)),
        }
    }
}

// ---------------------------------------------------------------------------
// Lowering
// ---------------------------------------------------------------------------

/// The frame of a context with answers.
pub open spec fn frame_of(context: LoweringModel, answers: Seq<ExprAnswer>) -> Frame {
    Frame { scopes: context.scopes, mutable_vars: context.mutable_vars, answers }
}

/// Whether a context has the scopes and variables of a frame, and else everything from an earlier context.
pub open spec fn within(before: LoweringModel, after: LoweringModel) -> bool {
    after == LoweringModel { scopes: after.scopes, mutable_vars: after.mutable_vars, ..before }
}

/// What lowering one statement gave.
pub open spec fn stmt_result(result: Result<IrStmt, Interruption>) -> Result<StmtModel, Stop> {
    match result {
        Ok(stmt) => Ok(stmt.model()),
        Err(stop) => Err(stop.model()),
    }
}

/// What lowering a run of statements gave.
pub open spec fn stmts_result(result: Result<Vec<IrStmt>, Interruption>) -> Result<Seq<StmtModel>, Stop> {
    match result {
        Ok(stmts) => Ok(stmt_models(stmts@)),
        Err(stop) => Err(stop.model()),
    }
}

/// What lowering an optional run of statements gave.
pub open spec fn branch_result(result: Result<Option<Vec<IrStmt>>, Interruption>) -> Result<
    Option<Seq<StmtModel>>,
    Stop,
> {
    match result {
        Ok(Some(stmts)) => Ok(Some(stmt_models(stmts@))),
        Ok(None) => Ok(None),
        Err(stop) => Err(stop.model()),
    }
}

impl AstLowering {
    /// Lowers a run of statements.
    pub fn lower_statements(&mut self, stmts: &Vec<Spanned<Statement>>, answers: &mut Vec<ExprAnswer>) -> (result:
        Result<Vec<IrStmt>, Interruption>)
        ensures
            stmts_run(
                old(self).model().enums,
                frame_of(old(self).model(), old(answers)@),
                stmts@,
                0,
                Seq::empty(),
            ) == (frame_of(final(self).model(), final(answers)@), stmts_result(result)),
            within(old(self).model(), final(self).model()),
        decreases stmts, 0int,
    {
        let mut result: Vec<IrStmt> = Vec::new();
        let mut i: usize = 0;
        proof {
            assert(stmt_models(result@) =~= Seq::empty());
        }
        while i < stmts.len()
            invariant
                i <= stmts@.len(),
                within(old(self).model(), self.model()),
                stmts_run(
                    old(self).model().enums,
                    frame_of(old(self).model(), old(answers)@),
                    stmts@,
                    0,
                    Seq::empty(),
                ) == stmts_run(
                    old(self).model().enums,
                    frame_of(self.model(), answers@),
                    stmts@,
                    i as int,
                    stmt_models(result@),
                ),
            decreases stmts@.len() - i,
        {
            let ghost done = stmt_models(result@);
            let stmt: IrStmt = self.lower_statement(&stmts[i].node, answers)?;
            result.push(stmt);
            proof {
                assert(stmt_models(result@) =~= done.push(stmt.model()));
            }
            i += 1;
        }
        Ok(result)
    }

    /// Lowers one statement.
    pub fn lower_statement(&mut self, stmt: &Statement, answers: &mut Vec<ExprAnswer>) -> (result: Result<
        IrStmt,
        Interruption,
    >)
        ensures
            stmt_run(old(self).model().enums, frame_of(old(self).model(), old(answers)@), *stmt) == (
                frame_of(final(self).model(), final(answers)@),
                stmt_result(result),
            ),
            within(old(self).model(), final(self).model()),
            stmt is Break ==> (result matches Ok(lowered) && lowered.kind == IrStmtKind::Break(None)),
            stmt is Continue ==> (result matches Ok(lowered) && lowered.kind == IrStmtKind::Continue(None)),
            result matches Ok(lowered) ==> {
                &&& lowered.kind is Break <==> stmt is Break
                &&& lowered.kind is Continue <==> stmt is Continue
                &&& lowered.kind is Return <==> stmt is Return
                &&& lowered.kind is While <==> stmt is While
                &&& lowered.kind is For <==> stmt is For
                &&& lowered.kind is If <==> stmt is If
                &&& lowered.kind is CompoundAssign <==> stmt is CompoundAssignment
            },
        decreases stmt, 1int,
    {
        let kind: IrStmtKind = match stmt {
            Statement::Expr(expr) => IrStmtKind::Expr(take_answer(answers, expr)?.expr),
            Statement::Assignment(a) => self.lower_assignment(a, answers)?,
            Statement::FieldAssignment { object, field, value } => {
                let object: TypedExpr = take_answer(answers, object)?.expr;
                let value: TypedExpr = take_answer(answers, value)?.expr;
                IrStmtKind::Assign {
                    target: AssignTarget::Field { object: Box::new(object), field: field.clone() },
                    value,
                }
            },
            Statement::IndexAssignment { object, index, value } => {
                let object: TypedExpr = take_answer(answers, object)?.expr;
                let index: TypedExpr = take_answer(answers, index)?.expr;
                let value: TypedExpr = take_answer(answers, value)?.expr;
                IrStmtKind::Assign {
                    target: AssignTarget::Index { object: Box::new(object), index: Box::new(index) },
                    value,
                }
            },
            Statement::Return(value) => match value {
                Some(expr) => IrStmtKind::Return(Some(take_answer(answers, expr)?.expr)),
                None => IrStmtKind::Return(None),
            },
            Statement::If(i) => self.lower_if(i, answers)?,
            Statement::While { condition, body } => {
                self.enter_scope();
                let condition: TypedExpr = take_answer(answers, condition)?.expr;
                let body: Vec<IrStmt> = self.lower_statements(body, answers)?;
                self.leave_scope();
                IrStmtKind::While { label: None, condition, body }
            },
            Statement::For { var, iter, body } => {
                let iterable: TypedExpr = take_answer(answers, iter)?.expr;
                self.enter_scope();
                let item: IrType = match &iterable.ty {
                    IrType::List(item) => (**item).clone(),
                    IrType::Dict(key, _) => (**key).clone(),
                    IrType::String => IrType::String,
                    _ => IrType::Unknown,
                };
                self.bind(var.clone(), item);
                let body: Vec<IrStmt> = self.lower_statements(body, answers)?;
                self.leave_scope();
                IrStmtKind::For { label: None, pattern: Pattern::Var(var.clone()), iterable, body }
            },
            Statement::Pass => IrStmtKind::Expr(TypedExpr::new(IrExprKind::Unit, IrType::Unit)),
            Statement::Break => IrStmtKind::Break(None),
            Statement::Continue => IrStmtKind::Continue(None),
            Statement::CompoundAssignment { name, op, value } => IrStmtKind::CompoundAssign {
                target: AssignTarget::Var(name.clone()),
                op: self.lower_compound_op(op),
                value: take_answer(answers, value)?.expr,
            },
            Statement::TupleUnpack { binding, names, value } => {
                let value: TypedExpr = take_answer(answers, value)?.expr;
                IrStmtKind::Let {
                    name: join(names, "_"),
                    ty: value.ty.clone(),
                    mutability: lowered_mutability(*binding),
                    value,
                }
            },
            Statement::TupleAssign { .. } => {
                return Err(Interruption::Error(lowering_failure("TupleAssign not yet implemented".to_owned())));
            },
            Statement::ChainedAssignment { binding, targets, value } => self.lower_chained_assignment(
                *binding,
                targets,
                value,
                answers,
            )?,
        };
        Ok(IrStmt::new(kind))
    }

    /// Lowers an assignment to one name.
    fn lower_assignment(&mut self, a: &AssignmentStmt, answers: &mut Vec<ExprAnswer>) -> (result: Result<
        IrStmtKind,
        Interruption,
    >)
        ensures
            assignment_run(old(self).model().enums, frame_of(old(self).model(), old(answers)@), *a) == (
                frame_of(final(self).model(), final(answers)@),
                kind_result(result),
            ),
            within(old(self).model(), final(self).model()),
            result matches Ok(kind) ==> kind is Let || kind is Assign,
    {
        let value: TypedExpr = take_answer(answers, &a.value)?.expr;
        let ty: IrType = match &a.ty {
            Some(annotation) => self.lower_type(&annotation.node),
            None => value.ty.clone(),
        };
        match a.binding {
            BindingKind::Reassign => Ok(IrStmtKind::Assign { target: AssignTarget::Var(a.name.clone()), value }),
            BindingKind::Inferred => {
                if self.is_bound(a.name.as_str()) {
                    let is_mut: bool = match self.mutable_vars.get(a.name.as_str()) {
                        Some(flag) => *flag,
                        None => false,
                    };
                    if is_mut {
                        return Ok(IrStmtKind::Assign { target: AssignTarget::Var(a.name.clone()), value });
                    } else {
                        return Err(
                            Interruption::Error(
                                lowering_failure(
                                    "Cannot reassign immutable variable '".to_owned().concat(a.name.as_str()).concat(
                                        "'",
                                    ),
                                ),
                            ),
                        );
                    }
                }
                self.bind(a.name.clone(), ty.clone());
                Ok(IrStmtKind::Let { name: a.name.clone(), ty, mutability: Mutability::Immutable, value })
            },
            BindingKind::Mutable => {
                self.mark_mutable(a.name.clone());
                self.bind(a.name.clone(), ty.clone());
                Ok(IrStmtKind::Let { name: a.name.clone(), ty, mutability: Mutability::Mutable, value })
            },
            BindingKind::Let => {
                self.bind(a.name.clone(), ty.clone());
                Ok(IrStmtKind::Let { name: a.name.clone(), ty, mutability: Mutability::Immutable, value })
            },
        }
    }

    /// Lowers a conditional.
    fn lower_if(&mut self, i: &IfStmt, answers: &mut Vec<ExprAnswer>) -> (result: Result<IrStmtKind, Interruption>)
        ensures
            if_run(old(self).model().enums, frame_of(old(self).model(), old(answers)@), *i) == (
                frame_of(final(self).model(), final(answers)@),
                kind_result(result),
            ),
            within(old(self).model(), final(self).model()),
            result matches Ok(kind) ==> kind is If,
        decreases i, 0int,
    {
        let last: Option<Vec<IrStmt>> = self.lower_else(&i.else_body, answers)?;
        let else_branch: Option<Vec<IrStmt>> = self.lower_elifs(&i.elif_branches, last, answers)?;
        let condition: TypedExpr = take_answer(answers, &i.condition)?.expr;
        self.enter_scope();
        let then_branch: Vec<IrStmt> = self.lower_statements(&i.then_body, answers)?;
        self.leave_scope();
        Ok(IrStmtKind::If { condition, then_branch, else_branch })
    }

    /// Lowers an `else` body.
    fn lower_else(&mut self, body: &Option<Vec<Spanned<Statement>>>, answers: &mut Vec<ExprAnswer>) -> (result: Result<
        Option<Vec<IrStmt>>,
        Interruption,
    >)
        ensures
            else_run(old(self).model().enums, frame_of(old(self).model(), old(answers)@), *body) == (
                frame_of(final(self).model(), final(answers)@),
                branch_result(result),
            ),
            within(old(self).model(), final(self).model()),
        decreases body, 0int,
    {
        match body {
            None => Ok(None),
            Some(stmts) => {
                self.enter_scope();
                match self.lower_statements(stmts, answers) {
                    Err(Interruption::Expression(expr)) => Err(Interruption::Expression(expr)),
                    Err(stop) => {
                        self.leave_scope();
                        Err(stop)
                    },
                    Ok(stmts) => {
                        self.leave_scope();
                        Ok(Some(stmts))
                    },
                }
            },
        }
    }

    /// Lowers `elif` branches in front of an `else` branch.
    fn lower_elifs(
        &mut self,
        branches: &Vec<ElifBranch>,
        last: Option<Vec<IrStmt>>,
        answers: &mut Vec<ExprAnswer>,
    ) -> (result: Result<Option<Vec<IrStmt>>, Interruption>)
        ensures
            elifs_run(
                old(self).model().enums,
                frame_of(old(self).model(), old(answers)@),
                branches@,
                branches@.len() as int,
                branch_model(last),
            ) == (frame_of(final(self).model(), final(answers)@), branch_result(result)),
            within(old(self).model(), final(self).model()),
        decreases branches, 0int,
    {
        let ghost given = branch_model(last);
        let mut else_branch: Option<Vec<IrStmt>> = last;
        let mut count: usize = branches.len();
        while count > 0
            invariant
                count <= branches@.len(),
                given == branch_model(last),
                within(old(self).model(), self.model()),
                elifs_run(
                    old(self).model().enums,
                    frame_of(old(self).model(), old(answers)@),
                    branches@,
                    branches@.len() as int,
                    given,
                ) == elifs_run(
                    old(self).model().enums,
                    frame_of(self.model(), answers@),
                    branches@,
                    count as int,
                    branch_model(else_branch),
                ),
            decreases count,
        {
            self.enter_scope();
            let then_branch: Vec<IrStmt> = self.lower_statements(&branches[count - 1].body, answers)?;
            self.leave_scope();
            let condition: TypedExpr = take_answer(answers, &branches[count - 1].condition)?.expr;
            let stmt: IrStmt = IrStmt::new(IrStmtKind::If { condition, then_branch, else_branch });
            let stmts: Vec<IrStmt> = vec![stmt];
            proof {
                assert(stmt_models(stmts@) =~= seq![stmt.model()]);
            }
            else_branch = Some(stmts);
            count -= 1;
        }
        Ok(else_branch)
    }

    /// Lowers a chained assignment.
    fn lower_chained_assignment(
        &mut self,
        kind: BindingKind,
        targets: &Vec<String>,
        value: &Rc<Spanned<Expr>>,
        answers: &mut Vec<ExprAnswer>,
    ) -> (result: Result<IrStmtKind, Interruption>)
        ensures
            chained_run(frame_of(old(self).model(), old(answers)@), kind, targets@, *value) == (
                frame_of(final(self).model(), final(answers)@),
                kind_result(result),
            ),
            within(old(self).model(), final(self).model()),
            result matches Ok(kind) ==> kind is Expr,
    {
        let answer: LoweredExpr = take_answer(answers, value)?;
        let count: usize = targets.len();
        if count == 0 {
            return Err(Interruption::Error(lowering_failure("empty chained assignment".to_owned())));
        }
        let is_copy: bool = answer.is_copy;
        let first: TypedExpr = answer.expr;
        let ty: IrType = first.ty.clone();
        let mutability: Mutability = lowered_mutability(kind);
        let ghost model = first.model();
        let ghost names = targets@;
        let ghost entry = self.model();
        self.bind(targets[count - 1].clone(), ty.clone());
        let mut stmts: Vec<IrStmt> = vec![
            IrStmt::new(
                IrStmtKind::Let { name: targets[count - 1].clone(), ty: ty.clone(), mutability, value: first },
            ),
        ];
        proof {
            assert(stmts@[0].model() == chain_let(names, count - 1, mutability, model, is_copy));
        }
        let mut i: usize = count - 1;
        while i > 0
            invariant
                0 <= i < count,
                count == targets@.len(),
                names == targets@,
                stmts@.len() == count - i,
                ty.model() == model.ty,
                within(entry, self.model()),
                self.model().mutable_vars == entry.mutable_vars,
                chain_bound(entry.scopes, names, count as int, model.ty) == chain_bound(
                    self.model().scopes,
                    names,
                    i as int,
                    model.ty,
                ),
                forall|k: int|
                    0 <= k < stmts@.len() ==> (#[trigger] stmts@[k]).model() == chain_let(
                        names,
                        count - 1 - k,
                        mutability,
                        model,
                        is_copy,
                    ),
            decreases i,
        {
            i -= 1;
            self.bind(targets[i].clone(), ty.clone());
            let source: TypedExpr = TypedExpr::new(
                IrExprKind::Var {
                    name: targets[i + 1].clone(),
                    access: if is_copy {
                        VarAccess::Copy
                    } else {
                        VarAccess::Move
                    },
                },
                ty.clone(),
            );
            let stmt: IrStmt = IrStmt::new(
                IrStmtKind::Let { name: targets[i].clone(), ty: ty.clone(), mutability, value: source },
            );
            proof {
                assert(source.model() == ExprModel { kind: source.kind.model(), ty: model.ty });
                assert(stmt.kind.model() == chain_let(names, i as int, mutability, model, is_copy));
            }
            stmts.push(stmt);
        }
        proof {
            assert(stmt_models(stmts@) =~= Seq::new(
                names.len(),
                |k: int| chain_let(names, names.len() - 1 - k, mutability_of(kind), model, is_copy),
            ));
        }
        let block: TypedExpr = TypedExpr::new(
            IrExprKind::Block { stmts: Rc::new(stmts), value: None },
            IrType::Unit,
        );
        proof {
            assert(block.kind.model() == ExprKindModel::Block { stmts: stmt_models(stmts@), value: None });
        }
        Ok(IrStmtKind::Expr(block))
    }
}

/// What lowering the form of one statement gave.
pub open spec fn kind_result(result: Result<IrStmtKind, Interruption>) -> Result<StmtModel, Stop> {
    match result {
        Ok(kind) => Ok(kind.model()),
        Err(stop) => Err(stop.model()),
    }
}

/// What an optional run of statements is.
pub open spec fn branch_model(branch: Option<Vec<IrStmt>>) -> Option<Seq<StmtModel>> {
    match branch {
        Some(stmts) => Some(stmt_models(stmts@)),
        None => None,
    }
}

/// Whether a binding kind makes its names assignable again.
fn lowered_mutability(kind: BindingKind) -> (mutability: Mutability)
    ensures
        mutability == mutability_of(kind),
{
    match kind {
        BindingKind::Mutable => Mutability::Mutable,
        _ => Mutability::Immutable,
    }
}

} // verus!
