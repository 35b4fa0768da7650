//! Control flow is kept: what is lowered transfers control as its source does.

use crate::ast::{ElifBranch, IfStmt, Spanned, Statement};
use crate::ir::StmtModel;
use crate::lowering::statements::{
    binding, elifs_run, else_run, expr_run, if_run, inside, item_type, outside, stmt_run, stmts_run, Frame,
};
use crate::lowering::Scope;
use vstd::prelude::*;

verus! {

broadcast use vstd::string::group_string_axioms;

/// How a statement transfers control.
#[verifier::ext_equal]
pub ghost enum Control {
    /// To the next statement.
    Plain,
    /// Out of the function, with a value or without.
    Return(bool),
    /// Out of the innermost loop.
    Break,
    /// To the next round of the innermost loop.
    Continue,
    /// Into a body, again and again, as long as a condition holds.
    While(Seq<Control>),
    /// Into a body, once for each item, which is bound to a name.
    For(Seq<char>, Seq<Control>),
    /// Into one of two bodies.
    Branch(Seq<Control>, Seq<Control>),
}

// ---------------------------------------------------------------------------
// What the source says
// ---------------------------------------------------------------------------

/// How a statement of the source transfers control.
pub open spec fn source_control(stmt: Statement) -> Control
    decreases stmt,
{
    match stmt {
        Statement::Return(value) => Control::Return(value is Some),
        Statement::Break => Control::Break,
        Statement::Continue => Control::Continue,
        Statement::While { body, .. } => Control::While(source_controls(body@)),
        Statement::For { var, body, .. } => Control::For(var@, source_controls(body@)),
        Statement::If(i) => Control::Branch(
            source_controls(i.then_body@),
            source_chain(i.elif_branches@, 0, i.elif_branches@.len() as int, source_else(i.else_body)),
        ),
        _ => Control::Plain,
    }
}

/// How the statements of a body of the source transfer control, one for one.
pub open spec fn source_controls(stmts: Seq<Spanned<Statement>>) -> Seq<Control>
    decreases stmts,
{
    Seq::new(
        stmts.len(),
        |i: int| if 0 <= i < stmts.len() {
            source_control(stmts[i].node)
        } else {
            arbitrary()
        },
    )
}

/// How an `else` body transfers control. Without one, control goes on.
pub open spec fn source_else(body: Option<Vec<Spanned<Statement>>>) -> Seq<Control>
    decreases body,
{
    match body {
        Some(body) => source_controls(body@),
        None => Seq::empty(),
    }
}

/// How the `elif` branches from one to before another transfer control in front of what comes last: into the body of
/// the first whose condition holds.
pub open spec fn source_chain(branches: Seq<ElifBranch>, from: int, upto: int, last: Seq<Control>) -> Seq<Control>
    decreases branches, upto - from,
{
    if from < 0 || from >= upto || from >= branches.len() {
        last
    } else {
        seq![Control::Branch(source_controls(branches[from].body@), source_chain(branches, from + 1, upto, last))]
    }
}

// ---------------------------------------------------------------------------
// What the lowered statements say
// ---------------------------------------------------------------------------

/// How a lowered statement transfers control. None names a loop.
pub open spec fn lowered_control(stmt: StmtModel) -> Option<Control>
    decreases stmt,
{
    match stmt {
        StmtModel::Return(value) => Some(Control::Return(value is Some)),
        StmtModel::Break(label) => if label is None {
            Some(Control::Break)
        } else {
            None
        },
        StmtModel::Continue(label) => if label is None {
            Some(Control::Continue)
        } else {
            None
        },
        StmtModel::While { label, body, .. } => match (label, lowered_controls(body, body.len() as int)) {
            (None, Some(body)) => Some(Control::While(body)),
            _ => None,
        },
        StmtModel::For { label, pattern, body, .. } => match (
            label,
            pattern,
            lowered_controls(body, body.len() as int),
        ) {
            (None, Some(name), Some(body)) => Some(Control::For(name, body)),
            _ => None,
        },
        StmtModel::If { then_branch, else_branch, .. } => match (
            lowered_controls(then_branch, then_branch.len() as int),
            lowered_else(else_branch),
        ) {
            (Some(a), Some(b)) => Some(Control::Branch(a, b)),
            _ => None,
        },
        StmtModel::Expr(_) | StmtModel::Let { .. } | StmtModel::Assign { .. } | StmtModel::CompoundAssign { .. } =>
        Some(Control::Plain),
    }
}

/// How the first so many statements of a lowered body transfer control, one for one.
pub open spec fn lowered_controls(stmts: Seq<StmtModel>, count: int) -> Option<Seq<Control>>
    decreases stmts, count,
{
    if count <= 0 || count > stmts.len() {
        Some(Seq::empty())
    } else {
        match (lowered_controls(stmts, count - 1), lowered_control(stmts[count - 1])) {
            (Some(before), Some(control)) => Some(before.push(control)),
            _ => None,
        }
    }
}

/// How a lowered `else` branch transfers control.
pub open spec fn lowered_else(branch: Option<Seq<StmtModel>>) -> Option<Seq<Control>>
    decreases branch,
{
    match branch {
        Some(stmts) => lowered_controls(stmts, stmts.len() as int),
        None => Some(Seq::empty()),
    }
}

// ---------------------------------------------------------------------------
// The law
// ---------------------------------------------------------------------------

/// One more statement behind others adds its own control.
proof fn lemma_pushed(stmts: Seq<StmtModel>, stmt: StmtModel, count: int)
    requires
        0 <= count <= stmts.len(),
    ensures
        lowered_controls(stmts.push(stmt), count) == lowered_controls(stmts, count),
    decreases count,
{
    if count > 0 {
        lemma_pushed(stmts, stmt, count - 1);
        assert(stmts.push(stmt)[count - 1] == stmts[count - 1]);
    }
}

/// The last of some `elif` branches stands in front of what comes last.
proof fn lemma_chain(branches: Seq<ElifBranch>, from: int, count: int, last: Seq<Control>)
    requires
        0 <= from < count <= branches.len(),
    ensures
        source_chain(branches, from, count, last) == source_chain(
            branches,
            from,
            count - 1,
            seq![Control::Branch(source_controls(branches[count - 1].body@), last)],
        ),
    decreases count - from,
{
    if from < count - 1 {
        lemma_chain(branches, from + 1, count, last);
    } else {
        assert(source_chain(branches, count, count, last) == last);
    }
}

proof fn stmts_keep_control(
    enums: Scope,
    f: Frame,
    stmts: Seq<Spanned<Statement>>,
    from: int,
    done: Seq<StmtModel>,
)
    requires
        0 <= from <= stmts.len(),
        lowered_controls(done, done.len() as int) == Some(source_controls(stmts).take(from)),
    ensures
        stmts_run(enums, f, stmts, from, done).1 matches Ok(all) ==> lowered_controls(all, all.len() as int) == Some(
            source_controls(stmts),
        ),
    decreases stmts, stmts.len() - from,
{
    let controls = source_controls(stmts);
    if from < stmts.len() {
        law_control_flow_is_kept(enums, f, stmts[from].node);
        match stmt_run(enums, f, stmts[from].node) {
            (_, Err(_)) => {},
            (next, Ok(stmt)) => {
                lemma_pushed(done, stmt, done.len() as int);
                assert(controls.take(from + 1) =~= controls.take(from).push(controls[from]));
                stmts_keep_control(enums, next, stmts, from + 1, done.push(stmt));
            },
        }
    } else {
        assert(controls.take(from) =~= controls);
    }
}

/// The statements of a body are kept, one for one.
proof fn body_keeps_control(enums: Scope, f: Frame, stmts: Seq<Spanned<Statement>>)
    ensures
        stmts_run(enums, f, stmts, 0, Seq::empty()).1 matches Ok(all) ==> lowered_controls(all, all.len() as int)
            == Some(source_controls(stmts)),
    decreases stmts, stmts.len() + 1,
{
    assert(source_controls(stmts).take(0) =~= Seq::empty());
    stmts_keep_control(enums, f, stmts, 0, Seq::empty());
}

proof fn elifs_keep_control(
    enums: Scope,
    f: Frame,
    branches: Seq<ElifBranch>,
    count: int,
    else_branch: Option<Seq<StmtModel>>,
    last: Seq<Control>,
)
    requires
        0 <= count <= branches.len(),
        lowered_else(else_branch) == Some(last),
    ensures
        elifs_run(enums, f, branches, count, else_branch).1 matches Ok(branch) ==> lowered_else(branch) == Some(
            source_chain(branches, 0, count, last),
        ),
    decreases branches, count,
{
    if count > 0 {
        let branch = branches[count - 1];
        body_keeps_control(enums, inside(f), branch.body@);
        match stmts_run(enums, inside(f), branch.body@, 0, Seq::empty()) {
            (_, Err(_)) => {},
            (end, Ok(then_branch)) => match expr_run(outside(end), branch.condition) {
                (_, Err(_)) => {},
                (next, Ok((condition, _))) => {
                    let stmt = StmtModel::If { condition, then_branch, else_branch };
                    let wrapped = seq![stmt];
                    let control = Control::Branch(source_controls(branch.body@), last);
                    assert(lowered_control(stmt) == Some(control));
                    assert(lowered_controls(wrapped, 0) == Some(Seq::<Control>::empty()));
                    assert(wrapped[0] == stmt);
                    assert(Seq::<Control>::empty().push(control) =~= seq![control]);
                    assert(lowered_controls(wrapped, 1) == Some(seq![control]));
                    lemma_chain(branches, 0, count, last);
                    elifs_keep_control(enums, next, branches, count - 1, Some(wrapped), seq![control]);
                },
            },
        }
    }
}

proof fn if_keeps_control(enums: Scope, f: Frame, i: IfStmt)
    ensures
        if_run(enums, f, i).1 matches Ok(stmt) ==> lowered_control(stmt) == Some(source_control(Statement::If(i))),
    decreases i,
{
    match i.else_body {
        Some(body) => {
            body_keeps_control(enums, inside(f), body@);
        },
        None => {},
    }
    match else_run(enums, f, i.else_body) {
        (_, Err(_)) => {},
        (a, Ok(last)) => {
            let count = i.elif_branches@.len() as int;
            assert(lowered_else(last) == Some(source_else(i.else_body)));
            elifs_keep_control(enums, a, i.elif_branches@, count, last, source_else(i.else_body));
            match elifs_run(enums, a, i.elif_branches@, count, last) {
                (_, Err(_)) => {},
                (b, Ok(_)) => match expr_run(b, i.condition) {
                    (_, Err(_)) => {},
                    (c, Ok(_)) => {
                        body_keeps_control(enums, inside(c), i.then_body@);
                    },
                },
            }
        },
    }
}

/// Lowering keeps control flow: a statement is lowered to one that transfers control exactly as it does, in all the
/// bodies that it holds. A break is lowered to a break of the innermost loop and nothing else is; the same holds of a
/// continue and of a return, with a value where it has one. Loops stay loops of their kind, over the same name, and a
/// conditional goes into the same bodies in the same order, its `elif` branches before its `else` body.
pub proof fn law_control_flow_is_kept(enums: Scope, f: Frame, stmt: Statement)
    ensures
        stmt_run(enums, f, stmt).1 matches Ok(model) ==> {
            &&& lowered_control(model) == Some(source_control(stmt))
            &&& stmt is Break <==> model == StmtModel::Break(None)
            &&& stmt is Continue <==> model == StmtModel::Continue(None)
            &&& stmt is Return <==> model is Return
            &&& stmt is While <==> model is While
            &&& stmt is For <==> model is For
            &&& stmt is If <==> model is If
        },
    decreases stmt, 1int,
{
    match stmt {
        Statement::If(i) => {
            if_keeps_control(enums, f, i);
        },
        Statement::While { condition, body } => match expr_run(inside(f), condition) {
            (_, Err(_)) => {},
            (next, Ok(_)) => {
                body_keeps_control(enums, next, body@);
            },
        },
        Statement::For { var, iter, body } => match expr_run(f, iter) {
            (_, Err(_)) => {},
            (next, Ok((iterable, _))) => {
                body_keeps_control(enums, binding(inside(next), var@, item_type(iterable.ty)), body@);
            },
        },
        _ => {},
    }
}

} // verus!
