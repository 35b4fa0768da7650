//! What holds of lowering as a whole.

use crate::ast::{
    AssignmentStmt, BindingKind, ClassDecl, Declaration, ElifBranch, FieldDecl, IfStmt, MethodDecl, Spanned,
    Statement,
};
use crate::ir::{FieldModel, IrDeclKind, IrEnum, StmtModel, TypeModel};
use crate::lowering::classes::{
    class_derives, declares, fields_run, methods_over, unshadowed, with_name, CLONE_DERIVE_NAME, DEBUG_DERIVE_NAME,
    FIELD_INFO_DERIVE_NAME, INCAN_CLASS_DERIVE_NAME,
};
use crate::lowering::statements::{
    assignable, assignment_run, binding, chain_bound, elifs_run, else_run, expr_run, if_run, inside, item_type,
    outside, stmt_run, stmts_run, Frame,
};
use crate::lowering::program::{adopted_step, decl_step, impl_step, other_step, Progress, Request};
use crate::lowering::types::nominal;
use crate::lowering::{answered, bound, failure, in_scope, ExprAnswer, LoweringModel, Scope, Stop};
use std::rc::Rc;
use vstd::prelude::*;

verus! {

/// Whether a scope chain is as deep as an earlier one and differs from it at most in its innermost scope, which has
/// lost no name.
pub open spec fn scopes_kept(before: Seq<Scope>, after: Seq<Scope>) -> bool {
    &&& after.len() == before.len()
    &&& before.len() > 0 ==> {
        &&& after.drop_last() == before.drop_last()
        &&& before.last().dom().subset_of(after.last().dom())
    }
}

/// Whether a frame keeps the scopes of an earlier one and every name that could be assigned again.
pub open spec fn frame_kept(before: Frame, after: Frame) -> bool {
    &&& scopes_kept(before.scopes, after.scopes)
    &&& forall|name: Seq<char>| assignable(before, name) ==> #[trigger] assignable(after, name)
}

proof fn kept_on(a: Frame, b: Frame, c: Frame)
    requires
        frame_kept(a, b),
        frame_kept(b, c),
    ensures
        frame_kept(a, c),
{
    assert forall|name: Seq<char>| assignable(a, name) implies #[trigger] assignable(c, name) by {
        assert(assignable(b, name));
    }
}

proof fn kept_bound(f: Frame, name: Seq<char>, ty: crate::ir::TypeModel)
    ensures
        scopes_kept(f.scopes, bound(f.scopes, name, ty)),
        frame_kept(f, binding(f, name, ty)),
{
    if f.scopes.len() > 0 {
        assert(bound(f.scopes, name, ty).drop_last() =~= f.scopes.drop_last());
    }
}

proof fn kept_chain(f: Frame, targets: Seq<String>, count: int, ty: crate::ir::TypeModel)
    ensures
        scopes_kept(f.scopes, chain_bound(f.scopes, targets, count, ty)),
    decreases count,
{
    if count > 0 {
        let next = binding(f, targets[count - 1]@, ty);
        kept_bound(f, targets[count - 1]@, ty);
        kept_chain(next, targets, count - 1, ty);
        kept_on(
            f,
            next,
            Frame { scopes: chain_bound(next.scopes, targets, count - 1, ty), ..next },
        );
    }
}

proof fn kept_block(f: Frame, entered: Frame, end: Frame)
    requires
        entered.scopes.len() == f.scopes.len() + 1,
        entered.scopes.drop_last() == f.scopes,
        forall|name: Seq<char>| assignable(f, name) ==> #[trigger] assignable(entered, name),
        frame_kept(entered, end),
    ensures
        frame_kept(f, outside(end)),
        outside(end).scopes == f.scopes,
{
    assert(outside(end).scopes =~= f.scopes);
    assert forall|name: Seq<char>| assignable(f, name) implies #[trigger] assignable(outside(end), name) by {
        assert(assignable(entered, name));
        assert(assignable(end, name));
    }
}

proof fn kept_inside(f: Frame)
    ensures
        inside(f).scopes.len() == f.scopes.len() + 1,
        inside(f).scopes.drop_last() == f.scopes,
        forall|name: Seq<char>| assignable(f, name) ==> #[trigger] assignable(inside(f), name),
{
    assert(inside(f).scopes.drop_last() =~= f.scopes);
    assert forall|name: Seq<char>| assignable(f, name) implies #[trigger] assignable(inside(f), name) by {
        assert(assignable(inside(f), name) == assignable(f, name));
    }
}

proof fn kept_stmts(enums: Scope, f: Frame, stmts: Seq<Spanned<Statement>>, from: int, done: Seq<StmtModel>)
    ensures
        stmts_run(enums, f, stmts, from, done).1 is Ok ==> frame_kept(f, stmts_run(enums, f, stmts, from, done).0),
    decreases stmts, stmts.len() - from,
{
    if 0 <= from < stmts.len() {
        law_statements_leave_their_scopes(enums, f, stmts[from].node);
        match stmt_run(enums, f, stmts[from].node) {
            (_, Err(_)) => {},
            (next, Ok(stmt)) => {
                kept_stmts(enums, next, stmts, from + 1, done.push(stmt));
                if stmts_run(enums, next, stmts, from + 1, done.push(stmt)).1 is Ok {
                    kept_on(f, next, stmts_run(enums, next, stmts, from + 1, done.push(stmt)).0);
                }
            },
        }
    }
}

proof fn kept_else(enums: Scope, f: Frame, body: Option<Vec<Spanned<Statement>>>)
    ensures
        else_run(enums, f, body).1 is Ok ==> frame_kept(f, else_run(enums, f, body).0) && else_run(
            enums,
            f,
            body,
        ).0.scopes == f.scopes,
    decreases body, 0int,
{
    match body {
        None => {},
        Some(body) => {
            kept_inside(f);
            kept_stmts(enums, inside(f), body@, 0, Seq::empty());
            match stmts_run(enums, inside(f), body@, 0, Seq::empty()) {
                (_, Err(_)) => {},
                (end, Ok(_)) => {
                    kept_block(f, inside(f), end);
                },
            }
        },
    }
}

proof fn kept_elifs(
    enums: Scope,
    f: Frame,
    branches: Seq<ElifBranch>,
    count: int,
    else_branch: Option<Seq<StmtModel>>,
)
    ensures
        elifs_run(enums, f, branches, count, else_branch).1 is Ok ==> frame_kept(
            f,
            elifs_run(enums, f, branches, count, else_branch).0,
        ) && elifs_run(enums, f, branches, count, else_branch).0.scopes == f.scopes,
    decreases branches, count,
{
    if 0 < count <= branches.len() {
        let branch = branches[count - 1];
        kept_inside(f);
        kept_stmts(enums, inside(f), branch.body@, 0, Seq::empty());
        match stmts_run(enums, inside(f), branch.body@, 0, Seq::empty()) {
            (_, Err(_)) => {},
            (end, Ok(then_branch)) => {
                kept_block(f, inside(f), end);
                match expr_run(outside(end), branch.condition) {
                    (_, Err(_)) => {},
                    (next, Ok((condition, _))) => {
                        let wrapped = Some(seq![StmtModel::If { condition, then_branch, else_branch }]);
                        kept_elifs(enums, next, branches, count - 1, wrapped);
                        assert(frame_kept(outside(end), next));
                        kept_on(f, outside(end), next);
                        if elifs_run(enums, next, branches, count - 1, wrapped).1 is Ok {
                            kept_on(f, next, elifs_run(enums, next, branches, count - 1, wrapped).0);
                        }
                    },
                }
            },
        }
    }
}

proof fn kept_if(enums: Scope, f: Frame, i: IfStmt)
    ensures
        if_run(enums, f, i).1 is Ok ==> frame_kept(f, if_run(enums, f, i).0) && if_run(enums, f, i).0.scopes
            == f.scopes,
    decreases i, 0int,
{
    kept_else(enums, f, i.else_body);
    match else_run(enums, f, i.else_body) {
        (_, Err(_)) => {},
        (a, Ok(last)) => {
            kept_elifs(enums, a, i.elif_branches@, i.elif_branches@.len() as int, last);
            match elifs_run(enums, a, i.elif_branches@, i.elif_branches@.len() as int, last) {
                (_, Err(_)) => {},
                (b, Ok(else_branch)) => {
                    kept_on(f, a, b);
                    match expr_run(b, i.condition) {
                        (_, Err(_)) => {},
                        (c, Ok(_)) => {
                            assert(frame_kept(b, c));
                            kept_on(f, b, c);
                            kept_inside(c);
                            kept_stmts(enums, inside(c), i.then_body@, 0, Seq::empty());
                            match stmts_run(enums, inside(c), i.then_body@, 0, Seq::empty()) {
                                (_, Err(_)) => {},
                                (end, Ok(_)) => {
                                    kept_block(c, inside(c), end);
                                    kept_on(f, c, outside(end));
                                },
                            }
                        },
                    }
                },
            }
        },
    }
}

/// A lowered statement leaves every scope it opened: the scope chain is as deep as before, the outer scopes are
/// untouched, the innermost one has lost no name, and whatever could be assigned again still can. A conditional or a
/// loop leaves the whole chain as it was.
pub proof fn law_statements_leave_their_scopes(enums: Scope, f: Frame, stmt: Statement)
    ensures
        stmt_run(enums, f, stmt).1 is Ok ==> frame_kept(f, stmt_run(enums, f, stmt).0),
        stmt_run(enums, f, stmt).1 is Ok && (stmt is If || stmt is While || stmt is For) ==> stmt_run(
            enums,
            f,
            stmt,
        ).0.scopes == f.scopes,
    decreases stmt, 1int,
{
    match stmt {
        Statement::Assignment(a) => {
            match expr_run(f, a.value) {
                (_, Err(_)) => {},
                (next, Ok((value, _))) => {
                    let ty = match a.ty {
                        Some(annotation) => crate::lowering::types::lowered(enums, annotation.node),
                        None => value.ty,
                    };
                    assert(frame_kept(f, next));
                    kept_bound(next, a.name@, ty);
                    kept_on(f, next, binding(next, a.name@, ty));
                    let marked = Frame { mutable_vars: next.mutable_vars.insert(a.name@, true), ..next };
                    assert(frame_kept(next, marked));
                    kept_bound(marked, a.name@, ty);
                    kept_on(f, next, marked);
                    kept_on(f, marked, binding(marked, a.name@, ty));
                },
            }
        },
        Statement::If(i) => {
            kept_if(enums, f, i);
        },
        Statement::While { condition, body } => {
            kept_inside(f);
            match expr_run(inside(f), condition) {
                (_, Err(_)) => {},
                (next, Ok(_)) => {
                    kept_stmts(enums, next, body@, 0, Seq::empty());
                    match stmts_run(enums, next, body@, 0, Seq::empty()) {
                        (_, Err(_)) => {},
                        (end, Ok(_)) => {
                            assert forall|name: Seq<char>| assignable(f, name) implies #[trigger] assignable(
                                next,
                                name,
                            ) by {
                                assert(assignable(inside(f), name));
                            }
                            kept_block(f, next, end);
                        },
                    }
                },
            }
        },
        Statement::For { var, iter, body } => {
            match expr_run(f, iter) {
                (_, Err(_)) => {},
                (next, Ok((iterable, _))) => {
                    assert(frame_kept(f, next));
                    kept_inside(next);
                    let ty = item_type(iterable.ty);
                    let entered = binding(inside(next), var@, ty);
                    kept_bound(inside(next), var@, ty);
                    kept_stmts(enums, entered, body@, 0, Seq::empty());
                    match stmts_run(enums, entered, body@, 0, Seq::empty()) {
                        (_, Err(_)) => {},
                        (end, Ok(_)) => {
                            kept_on(inside(next), entered, end);
                            kept_block(next, inside(next), end);
                            kept_on(f, next, outside(end));
                        },
                    }
                },
            }
        },
        Statement::ChainedAssignment { binding, targets, value } => {
            match expr_run(f, value) {
                (_, Err(_)) => {},
                (next, Ok((value, _))) => {
                    assert(frame_kept(f, next));
                    kept_chain(next, targets@, targets@.len() as int, value.ty);
                    kept_on(
                        f,
                        next,
                        Frame {
                            scopes: chain_bound(next.scopes, targets@, targets@.len() as int, value.ty),
                            ..next
                        },
                    );
                },
            }
        },
        _ => {},
    }
}

/// A name that is in scope and was not declared mutable is never assigned again without being declared anew.
pub proof fn law_immutable_names_stay(enums: Scope, f: Frame, a: AssignmentStmt)
    requires
        a.binding == BindingKind::Inferred,
        in_scope(f.scopes, a.name@),
        !assignable(f, a.name@),
    ensures
        expr_run(f, a.value).1 is Ok ==> assignment_run(enums, f, a).1 == Err::<StmtModel, Stop>(
            Stop::Error(failure("Cannot reassign immutable variable '"@ + a.name@ + "'"@)),
        ),
        assignment_run(enums, f, a).1 is Err,
{
}

/// The fields of the ancestors stand in front of a class's own fields.
pub proof fn law_inherited_fields_come_first(
    enums: Scope,
    answers: Seq<ExprAnswer>,
    fields: Seq<Spanned<FieldDecl>>,
    from: int,
    inherited: Seq<FieldModel>,
)
    requires
        0 <= from <= fields.len(),
    ensures
        fields_run(enums, answers, fields, from, inherited).1 matches Ok(all) ==> {
            &&& all.len() == inherited.len() + fields.len() - from
            &&& all.take(inherited.len() as int) == inherited
            &&& forall|i: int|
                from <= i < fields.len() ==> (#[trigger] fields[i]).node.name@ == all[inherited.len() + i - from].name
        },
    decreases fields.len() - from,
{
    if from < fields.len() {
        let field = fields[from].node;
        match field.default {
            None => {
                let added = inherited.push(crate::lowering::classes::field_lowered(enums, field, None));
                law_inherited_fields_come_first(enums, answers, fields, from + 1, added);
                match fields_run(enums, answers, fields, from + 1, added).1 {
                    Ok(all) => {
                        assert(all[inherited.len() as int] == all.take(added.len() as int)[inherited.len() as int]);
                        assert(all.take(inherited.len() as int) =~= all.take(added.len() as int).take(
                            inherited.len() as int,
                        ));
                        assert(added.take(inherited.len() as int) =~= inherited);
                    },
                    Err(_) => {},
                }
            },
            Some(expr) => match answered(answers, expr) {
                (_, Err(_)) => {},
                (rest, Ok((value, _))) => {
                    let added = inherited.push(
                        crate::lowering::classes::field_lowered(enums, field, Some(value)),
                    );
                    law_inherited_fields_come_first(enums, rest, fields, from + 1, added);
                    match fields_run(enums, rest, fields, from + 1, added).1 {
                        Ok(all) => {
                            assert(all[inherited.len() as int] == all.take(added.len() as int)[inherited.len() as int]);
                            assert(all.take(inherited.len() as int) =~= all.take(added.len() as int).take(
                                inherited.len() as int,
                            ));
                            assert(added.take(inherited.len() as int) =~= inherited);
                        },
                        Err(_) => {},
                    }
                },
            },
        }
    } else {
        assert(inherited.take(inherited.len() as int) =~= inherited);
    }
}

proof fn methods_step(chain: Seq<Rc<ClassDecl>>, from: int, inherited: Seq<Rc<Spanned<MethodDecl>>>)
    requires
        0 <= from < chain.len(),
    ensures
        methods_over(chain, from, inherited) == unshadowed(
            methods_over(chain.drop_last(), from, inherited),
            chain.last(),
        ) + chain.last().methods@,
    decreases chain.len() - from,
{
    let front = chain.drop_last();
    if from == chain.len() - 1 {
        assert(methods_over(front, from, inherited) == inherited);
        let last = unshadowed(inherited, chain[from]) + chain[from].methods@;
        assert(methods_over(chain, from, inherited) == methods_over(chain, from + 1, last));
        assert(methods_over(chain, from + 1, last) == last);
    } else {
        let next = unshadowed(inherited, chain[from]) + chain[from].methods@;
        assert(front[from] == chain[from]);
        methods_step(chain, from + 1, next);
    }
}

/// A class's own methods all stay, in order, behind the inherited ones; an inherited method stays exactly where the
/// class declares none of its name.
pub proof fn law_own_methods_win(chain: Seq<Rc<ClassDecl>>, method: Rc<Spanned<MethodDecl>>)
    requires
        chain.len() > 0,
    ensures
        ({
            let all = methods_over(chain, 0, Seq::empty());
            let inherited = methods_over(chain.drop_last(), 0, Seq::empty());
            let class = chain.last();
            &&& all == unshadowed(inherited, class) + class.methods@
            &&& all.contains(method) <==> class.methods@.contains(method) || (inherited.contains(method)
                && !declares(class, method.node.name@))
        }),
{
    let inherited = methods_over(chain.drop_last(), 0, Seq::empty());
    let class = chain.last();
    methods_step(chain, 0, Seq::empty());
    let keeps = |m: Rc<Spanned<MethodDecl>>| !declares(class, m.node.name@);
    let kept = inherited.filter(keeps);
    let all = kept + class.methods@;
    assert(unshadowed(inherited, class) == kept);
    if all.contains(method) {
        let i = choose|i: int| 0 <= i < all.len() && all[i] == method;
        if i < kept.len() {
            assert(kept[i] == method);
            inherited.lemma_filter_pred(keeps, i);
            inherited.lemma_filter_contains_rev(keeps, method);
        } else {
            assert(class.methods@[i - kept.len()] == method);
        }
    }
    if class.methods@.contains(method) {
        let i = choose|i: int| 0 <= i < class.methods@.len() && class.methods@[i] == method;
        assert(all[kept.len() + i] == method);
    }
    if inherited.contains(method) && !declares(class, method.node.name@) {
        let at = choose|i: int| 0 <= i < inherited.len() && inherited[i] == method;
        inherited.lemma_filter_contains(keeps, at);
        let i = choose|i: int| 0 <= i < kept.len() && kept[i] == method;
        assert(all[i] == method);
    }
}

proof fn named(names: Seq<Seq<char>>, name: Seq<char>)
    ensures
        with_name(names, name).contains(name),
        forall|other: Seq<char>| names.contains(other) ==> #[trigger] with_name(names, name).contains(other),
        names.no_duplicates() ==> with_name(names, name).no_duplicates(),
{
    if !names.contains(name) {
        let all = names.push(name);
        assert(all[names.len() as int] == name);
        assert forall|other: Seq<char>| names.contains(other) implies #[trigger] all.contains(other) by {
            let i = choose|i: int| 0 <= i < names.len() && names[i] == other;
            assert(all[i] == other);
        }
    }
}

/// Every class has the reflective derives and can be cloned, keeps the derives it asks for, and gets none twice. It
/// has a debug rendering unless it holds opaque Rust state.
pub proof fn law_class_derives(asked: Seq<Seq<char>>, is_opaque: bool)
    ensures
        ({
            let all = class_derives(asked, is_opaque);
            &&& all.contains(CLONE_DERIVE_NAME@)
            &&& all.contains(FIELD_INFO_DERIVE_NAME@)
            &&& all.contains(INCAN_CLASS_DERIVE_NAME@)
            &&& !is_opaque ==> all.contains(DEBUG_DERIVE_NAME@)
            &&& asked.no_duplicates() ==> all.no_duplicates()
        }),
        forall|name: Seq<char>| asked.contains(name) ==> #[trigger] class_derives(asked, is_opaque).contains(name),
{
    let debugged = if is_opaque {
        asked
    } else {
        with_name(asked, DEBUG_DERIVE_NAME@)
    };
    named(asked, DEBUG_DERIVE_NAME@);
    named(debugged, CLONE_DERIVE_NAME@);
    let cloned = with_name(debugged, CLONE_DERIVE_NAME@);
    named(cloned, FIELD_INFO_DERIVE_NAME@);
    let reflective = with_name(cloned, FIELD_INFO_DERIVE_NAME@);
    named(reflective, INCAN_CLASS_DERIVE_NAME@);
    assert forall|name: Seq<char>| asked.contains(name) implies #[trigger] class_derives(asked, is_opaque).contains(
        name,
    ) by {
        assert(debugged.contains(name));
        assert(cloned.contains(name));
        assert(reflective.contains(name));
    }
    assert(cloned.contains(CLONE_DERIVE_NAME@));
    assert(reflective.contains(CLONE_DERIVE_NAME@));
    if !is_opaque {
        assert(debugged.contains(DEBUG_DERIVE_NAME@));
        assert(cloned.contains(DEBUG_DERIVE_NAME@));
        assert(reflective.contains(DEBUG_DERIVE_NAME@));
    }
}

/// An enum is known once it is lowered: its name stands for it from then on, and the enums before it stay known.
pub proof fn law_declared_enums_are_known(p: Progress, at: int, e: IrEnum)
    requires
        p.given.declarations.len() > 0,
        p.given.declarations[0] matches Ok(decl) && decl.kind == IrDeclKind::Enum(e),
    ensures
        nominal(other_step(p, at).0.enums, e.name@) == TypeModel::Enum(e.name@),
        forall|name: Seq<char>|
            p.enums.contains_key(name) ==> #[trigger] other_step(p, at).0.enums.contains_key(name),
{
}

/// No step of lowering forgets an enum.
pub proof fn law_enums_stay_known(context: LoweringModel, p: Progress, decl: Declaration, at: int)
    ensures
        forall|name: Seq<char>|
            p.enums.contains_key(name) ==> #[trigger] decl_step(context, p, decl, at).0.enums.contains_key(name),
{
    match decl {
        Declaration::Class(class) => {
            adopted_keeps_enums(class);
        },
        _ => {},
    }
}

/// The steps that lower adopted traits leave the enums as they are.
proof fn adopted_keeps_enums(class: Rc<ClassDecl>)
    ensures
        forall|p: Progress, name: Seq<char>, from: int| #[trigger]
            adopted_step(p, name, class, from).0.enums == p.enums,
{
    assert forall|p: Progress, name: Seq<char>, from: int| #[trigger]
        adopted_step(p, name, class, from).0.enums == p.enums by {
        adopted_keeps_enums_from(p, name, class, from);
    }
}

proof fn adopted_keeps_enums_from(p: Progress, name: Seq<char>, class: Rc<ClassDecl>, from: int)
    ensures
        adopted_step(p, name, class, from).0.enums == p.enums,
    decreases class.traits@.len() - from,
{
    if 0 <= from < class.traits@.len() {
        match impl_step(p, Request::TraitImpl(name, class.traits@[from]@, class)) {
            (_, Some(_)) => {},
            (next, None) => {
                adopted_keeps_enums_from(next, name, class, from + 1);
            },
        }
    }
}

} // verus!
