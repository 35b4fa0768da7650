//! What the scanners find: a part of their kind, wherever in a program it stands.

use crate::ast::{
    CallArg, Declaration, DictEntry, ElifBranch, Expr, FStringPart, FieldDecl, MatchArm, MatchBody, MethodDecl,
    Program, PropertyDecl, Spanned, Statement,
};
use crate::parts::{
    any, args, arms, body, elifs, entries, exprs, fields, having, has_part, held, lemma_any_of_both, lemma_any_of_decl,
    lemma_any_of_expr, lemma_any_of_one, lemma_any_of_stmt, lemma_found_above, lemma_has_itself, lemma_has_part_above,
    methods, one, optional, part_at, parts, properties, stmts, Node,
};
use crate::scanners::{
    async_arg, async_args, async_arm, async_arms, async_body, async_decl, async_defaults, async_elif, async_elifs,
    async_else, async_entries, async_entry, async_expr, async_exprs, async_method, async_methods, async_option,
    async_part, async_parts, async_properties, async_stmt, helper_arg, helper_args, helper_arm, helper_arms,
    helper_body, helper_decl, helper_defaults, helper_elif, helper_elifs, helper_else, helper_entries, helper_entry,
    helper_expr, helper_exprs, helper_method, helper_methods, helper_option, helper_part, helper_parts,
    helper_properties, helper_stmt,
};
use std::rc::Rc;
use vstd::prelude::*;

verus! {

broadcast use vstd::string::group_string_axioms;

// ---------------------------------------------------------------------------
// List helpers
// ---------------------------------------------------------------------------

/// Whether a part is a call of a list helper.
pub open spec fn calls_helper(node: Node) -> bool {
    match node {
        Node::Expr(Expr::MethodCall(_, method, _)) => method@ == "remove"@ || method@ == "count"@ || method@ == "index"@,
        _ => false,
    }
}

/// The kind of part that the scan looks for.
pub open spec fn helper_kind() -> spec_fn(Node) -> bool {
    |node: Node| calls_helper(node)
}

/// Whether the scan finds something in a part.
pub open spec fn helper_found(node: Node) -> bool {
    match node {
        Node::Program(program) => exists|i: int|
            0 <= i < program.declarations@.len() && helper_decl((#[trigger] program.declarations@[i]).node),
        Node::Decl(decl) => helper_decl(decl),
        Node::Method(method) => helper_method(method),
        Node::Property(property) => helper_body(property.body@),
        Node::Field(field) => helper_option(field.default),
        Node::Stmt(stmt) => helper_stmt(stmt),
        Node::Elif(branch) => helper_elif(branch),
        Node::Expr(expr) => helper_expr(expr),
        Node::Arg(arg) => helper_arg(arg),
        Node::Arm(arm) => helper_arm(arm),
        Node::Entry(entry) => helper_entry(entry),
        Node::Part(part) => helper_part(part),
    }
}

/// What the scan finds.
pub open spec fn helper_finds() -> spec_fn(Node) -> bool {
    |node: Node| helper_found(node)
}

/// What the scan finds in a run of parts.
proof fn helper_runs()
    ensures
        forall|expr: Rc<Spanned<Expr>>| #[trigger] any(helper_finds(), one(expr)) <==> helper_expr(expr.node),
        forall|expr: Option<Rc<Spanned<Expr>>>| #[trigger] any(helper_finds(), optional(expr)) <==> helper_option(expr),
        forall|stmts: Option<Vec<Spanned<Statement>>>| #[trigger] any(helper_finds(), body(stmts)) <==> helper_else(stmts),
        forall|items: Seq<Spanned<Statement>>| #[trigger] any(helper_finds(), stmts(items)) <==> helper_body(items),
        forall|items: Seq<ElifBranch>| #[trigger] any(helper_finds(), elifs(items)) <==> helper_elifs(items),
        forall|items: Seq<Rc<Spanned<Expr>>>| #[trigger] any(helper_finds(), exprs(items)) <==> helper_exprs(items),
        forall|items: Seq<CallArg>| #[trigger] any(helper_finds(), args(items)) <==> helper_args(items),
        forall|items: Seq<Spanned<MatchArm>>| #[trigger] any(helper_finds(), arms(items)) <==> helper_arms(items),
        forall|items: Seq<DictEntry>| #[trigger] any(helper_finds(), entries(items)) <==> helper_entries(items),
        forall|items: Seq<FStringPart>| #[trigger] any(helper_finds(), parts(items)) <==> helper_parts(items),
        forall|items: Seq<Rc<Spanned<MethodDecl>>>| #[trigger] any(helper_finds(), methods(items)) <==> helper_methods(items),
        forall|items: Seq<Rc<Spanned<PropertyDecl>>>| #[trigger] any(helper_finds(), properties(items)) <==> helper_properties(items),
        forall|items: Seq<Spanned<FieldDecl>>| #[trigger] any(helper_finds(), fields(items)) <==> helper_defaults(items),
{
    let found = helper_finds();
    assert forall|expr: Rc<Spanned<Expr>>| #[trigger] any(found, one(expr)) <==> helper_expr(expr.node) by {
        lemma_any_of_one(found, expr);
    }
    assert forall|items: Seq<Spanned<Statement>>| #[trigger] any(found, stmts(items)) <==> helper_body(items) by {
        if helper_body(items) {
            let i = choose|i: int| 0 <= i < items.len() && helper_stmt((#[trigger] items[i]).node);
            assert(found(stmts(items)[i]));
        }
        if any(found, stmts(items)) {
            let i = choose|i: int| 0 <= i < stmts(items).len() && found(#[trigger] stmts(items)[i]);
            assert(helper_stmt(items[i].node));
        }
    }
    assert forall|items: Seq<ElifBranch>| #[trigger] any(found, elifs(items)) <==> helper_elifs(items) by {
        if helper_elifs(items) {
            let i = choose|i: int| 0 <= i < items.len() && helper_elif(#[trigger] items[i]);
            assert(found(elifs(items)[i]));
        }
        if any(found, elifs(items)) {
            let i = choose|i: int| 0 <= i < elifs(items).len() && found(#[trigger] elifs(items)[i]);
            assert(helper_elif(items[i]));
        }
    }
    assert forall|items: Seq<Rc<Spanned<Expr>>>| #[trigger] any(found, exprs(items)) <==> helper_exprs(items) by {
        if helper_exprs(items) {
            let i = choose|i: int| 0 <= i < items.len() && helper_expr((#[trigger] items[i]).node);
            assert(found(exprs(items)[i]));
        }
        if any(found, exprs(items)) {
            let i = choose|i: int| 0 <= i < exprs(items).len() && found(#[trigger] exprs(items)[i]);
            assert(helper_expr(items[i].node));
        }
    }
    assert forall|items: Seq<CallArg>| #[trigger] any(found, args(items)) <==> helper_args(items) by {
        if helper_args(items) {
            let i = choose|i: int| 0 <= i < items.len() && helper_arg(#[trigger] items[i]);
            assert(found(args(items)[i]));
        }
        if any(found, args(items)) {
            let i = choose|i: int| 0 <= i < args(items).len() && found(#[trigger] args(items)[i]);
            assert(helper_arg(items[i]));
        }
    }
    assert forall|items: Seq<Spanned<MatchArm>>| #[trigger] any(found, arms(items)) <==> helper_arms(items) by {
        if helper_arms(items) {
            let i = choose|i: int| 0 <= i < items.len() && helper_arm((#[trigger] items[i]).node);
            assert(found(arms(items)[i]));
        }
        if any(found, arms(items)) {
            let i = choose|i: int| 0 <= i < arms(items).len() && found(#[trigger] arms(items)[i]);
            assert(helper_arm(items[i].node));
        }
    }
    assert forall|items: Seq<DictEntry>| #[trigger] any(found, entries(items)) <==> helper_entries(items) by {
        if helper_entries(items) {
            let i = choose|i: int| 0 <= i < items.len() && helper_entry(#[trigger] items[i]);
            assert(found(entries(items)[i]));
        }
        if any(found, entries(items)) {
            let i = choose|i: int| 0 <= i < entries(items).len() && found(#[trigger] entries(items)[i]);
            assert(helper_entry(items[i]));
        }
    }
    assert forall|items: Seq<FStringPart>| #[trigger] any(found, parts(items)) <==> helper_parts(items) by {
        if helper_parts(items) {
            let i = choose|i: int| 0 <= i < items.len() && helper_part(#[trigger] items[i]);
            assert(found(parts(items)[i]));
        }
        if any(found, parts(items)) {
            let i = choose|i: int| 0 <= i < parts(items).len() && found(#[trigger] parts(items)[i]);
            assert(helper_part(items[i]));
        }
    }
    assert forall|items: Seq<Rc<Spanned<MethodDecl>>>| #[trigger] any(found, methods(items)) <==> helper_methods(items) by {
        if helper_methods(items) {
            let i = choose|i: int| 0 <= i < items.len() && helper_method((#[trigger] items[i]).node);
            assert(found(methods(items)[i]));
        }
        if any(found, methods(items)) {
            let i = choose|i: int| 0 <= i < methods(items).len() && found(#[trigger] methods(items)[i]);
            assert(helper_method(items[i].node));
        }
    }
    assert forall|items: Seq<Rc<Spanned<PropertyDecl>>>| #[trigger] any(found, properties(items)) <==> helper_properties(items) by {
        if helper_properties(items) {
            let i = choose|i: int| 0 <= i < items.len() && helper_body((#[trigger] items[i]).node.body@);
            assert(found(properties(items)[i]));
        }
        if any(found, properties(items)) {
            let i = choose|i: int| 0 <= i < properties(items).len() && found(#[trigger] properties(items)[i]);
            assert(helper_body(items[i].node.body@));
        }
    }
    assert forall|items: Seq<Spanned<FieldDecl>>| #[trigger] any(found, fields(items)) <==> helper_defaults(items) by {
        if helper_defaults(items) {
            let i = choose|i: int| 0 <= i < items.len() && helper_option((#[trigger] items[i]).node.default);
            assert(found(fields(items)[i]));
        }
        if any(found, fields(items)) {
            let i = choose|i: int| 0 <= i < fields(items).len() && found(#[trigger] fields(items)[i]);
            assert(helper_option(items[i].node.default));
        }
    }
}

/// The scan finds something in a part exactly where the part is of the kind, or something is found in a held part.
proof fn helper_unfolds(node: Node)
    ensures
        helper_found(node) <==> calls_helper(node) || any(helper_finds(), held(node)),
{
    let found = helper_finds();
    helper_runs();
    match node {
        Node::Program(program) => {
            let decls = program.declarations@;
            if helper_found(node) {
                let i = choose|i: int| 0 <= i < decls.len() && helper_decl((#[trigger] decls[i]).node);
                assert(found(held(node)[i]));
            }
            if any(found, held(node)) {
                let i = choose|i: int| 0 <= i < held(node).len() && found(#[trigger] held(node)[i]);
                assert(helper_decl(decls[i].node));
            }
        },
        Node::Decl(decl) => {
            lemma_any_of_decl(found, decl);
        },
        Node::Stmt(stmt) => {
            lemma_any_of_stmt(found, stmt);
        },
        Node::Expr(expr) => {
            lemma_any_of_expr(found, expr);
        },
        Node::Elif(branch) => {
            lemma_any_of_both(found, one(branch.condition), stmts(branch.body@));
        },
        Node::Arm(arm) => match arm.body {
            MatchBody::Expr(expr) => {
                lemma_any_of_both(found, optional(arm.guard), one(expr));
            },
            MatchBody::Block(block) => {
                lemma_any_of_both(found, optional(arm.guard), stmts(block@));
            },
        },
        Node::Entry(entry) => {
            lemma_any_of_both(found, one(entry.key), one(entry.value));
        },
        _ => {},
    }
}

proof fn helper_find_one(expr: Rc<Spanned<Expr>>)
    ensures
        helper_expr(expr.node) ==> any(having(helper_kind()), one(expr)),
    decreases expr,
{
    helper_find_expr(&expr.node);
    lemma_any_of_one(having(helper_kind()), expr);
}

proof fn helper_find_optional(expr: Option<Rc<Spanned<Expr>>>)
    ensures
        helper_option(expr) ==> any(having(helper_kind()), optional(expr)),
    decreases expr,
{
    match expr {
        Some(expr) => {
            helper_find_one(expr);
        },
        None => {},
    }
}

proof fn helper_find_else(stmts: Option<Vec<Spanned<Statement>>>)
    ensures
        helper_else(stmts) ==> any(having(helper_kind()), body(stmts)),
    decreases stmts,
{
    match stmts {
        Some(stmts) => {
            helper_find_stmts(stmts@);
        },
        None => {},
    }
}

proof fn helper_find_stmts(items: Seq<Spanned<Statement>>)
    ensures
        helper_body(items) ==> any(having(helper_kind()), stmts(items)),
    decreases items,
{
    if helper_body(items) {
        let i = choose|i: int| 0 <= i < items.len() && helper_stmt((#[trigger] items[i]).node);
        helper_find_stmt(items[i].node);
        assert(stmts(items)[i] == Node::Stmt(items[i].node));
        assert(having(helper_kind())(stmts(items)[i]));
    }
}

proof fn helper_find_elifs(items: Seq<ElifBranch>)
    ensures
        helper_elifs(items) ==> any(having(helper_kind()), elifs(items)),
    decreases items,
{
    if helper_elifs(items) {
        let i = choose|i: int| 0 <= i < items.len() && helper_elif(#[trigger] items[i]);
        helper_find_elif(items[i]);
        assert(elifs(items)[i] == Node::Elif(items[i]));
        assert(having(helper_kind())(elifs(items)[i]));
    }
}

proof fn helper_find_exprs(items: Seq<Rc<Spanned<Expr>>>)
    ensures
        helper_exprs(items) ==> any(having(helper_kind()), exprs(items)),
    decreases items,
{
    if helper_exprs(items) {
        let i = choose|i: int| 0 <= i < items.len() && helper_expr((#[trigger] items[i]).node);
        helper_find_expr(&items[i].node);
        assert(exprs(items)[i] == Node::Expr(items[i].node));
        assert(having(helper_kind())(exprs(items)[i]));
    }
}

proof fn helper_find_args(items: Seq<CallArg>)
    ensures
        helper_args(items) ==> any(having(helper_kind()), args(items)),
    decreases items,
{
    if helper_args(items) {
        let i = choose|i: int| 0 <= i < items.len() && helper_arg(#[trigger] items[i]);
        helper_find_arg(items[i]);
        assert(args(items)[i] == Node::Arg(items[i]));
        assert(having(helper_kind())(args(items)[i]));
    }
}

proof fn helper_find_arms(items: Seq<Spanned<MatchArm>>)
    ensures
        helper_arms(items) ==> any(having(helper_kind()), arms(items)),
    decreases items,
{
    if helper_arms(items) {
        let i = choose|i: int| 0 <= i < items.len() && helper_arm((#[trigger] items[i]).node);
        helper_find_arm(items[i].node);
        assert(arms(items)[i] == Node::Arm(items[i].node));
        assert(having(helper_kind())(arms(items)[i]));
    }
}

proof fn helper_find_entries(items: Seq<DictEntry>)
    ensures
        helper_entries(items) ==> any(having(helper_kind()), entries(items)),
    decreases items,
{
    if helper_entries(items) {
        let i = choose|i: int| 0 <= i < items.len() && helper_entry(#[trigger] items[i]);
        helper_find_entry(items[i]);
        assert(entries(items)[i] == Node::Entry(items[i]));
        assert(having(helper_kind())(entries(items)[i]));
    }
}

proof fn helper_find_parts(items: Seq<FStringPart>)
    ensures
        helper_parts(items) ==> any(having(helper_kind()), parts(items)),
    decreases items,
{
    if helper_parts(items) {
        let i = choose|i: int| 0 <= i < items.len() && helper_part(#[trigger] items[i]);
        helper_find_part(items[i]);
        assert(parts(items)[i] == Node::Part(items[i]));
        assert(having(helper_kind())(parts(items)[i]));
    }
}

proof fn helper_find_methods(items: Seq<Rc<Spanned<MethodDecl>>>)
    ensures
        helper_methods(items) ==> any(having(helper_kind()), methods(items)),
    decreases items,
{
    if helper_methods(items) {
        let i = choose|i: int| 0 <= i < items.len() && helper_method((#[trigger] items[i]).node);
        helper_find_method(&items[i].node);
        assert(methods(items)[i] == Node::Method(items[i].node));
        assert(having(helper_kind())(methods(items)[i]));
    }
}

proof fn helper_find_properties(items: Seq<Rc<Spanned<PropertyDecl>>>)
    ensures
        helper_properties(items) ==> any(having(helper_kind()), properties(items)),
    decreases items,
{
    if helper_properties(items) {
        let i = choose|i: int| 0 <= i < items.len() && helper_body((#[trigger] items[i]).node.body@);
        helper_find_property(&items[i].node);
        assert(properties(items)[i] == Node::Property(items[i].node));
        assert(having(helper_kind())(properties(items)[i]));
    }
}

proof fn helper_find_fields(items: Seq<Spanned<FieldDecl>>)
    ensures
        helper_defaults(items) ==> any(having(helper_kind()), fields(items)),
    decreases items,
{
    if helper_defaults(items) {
        let i = choose|i: int| 0 <= i < items.len() && helper_option((#[trigger] items[i]).node.default);
        helper_find_field(&items[i].node);
        assert(fields(items)[i] == Node::Field(items[i].node));
        assert(having(helper_kind())(fields(items)[i]));
    }
}

proof fn helper_find_stmt(stmt: Statement)
    ensures
        helper_stmt(stmt) ==> has_part(Node::Stmt(stmt), helper_kind()),
    decreases stmt,
{
    lemma_any_of_stmt(having(helper_kind()), stmt);
    match stmt {
        Statement::Expr(expr) => {
            helper_find_one(expr);
        },
        Statement::Assignment(a) => {
            helper_find_one(a.value);
        },
        Statement::FieldAssignment { object, value, .. } => {
            helper_find_one(object);
            helper_find_one(value);
        },
        Statement::IndexAssignment { object, index, value } => {
            helper_find_one(object);
            helper_find_one(index);
            helper_find_one(value);
        },
        Statement::Return(value) => {
            helper_find_optional(value);
        },
        Statement::If(i) => {
            helper_find_one(i.condition);
            helper_find_stmts(i.then_body@);
            helper_find_elifs(i.elif_branches@);
            helper_find_else(i.else_body);
        },
        Statement::While { condition, body } => {
            helper_find_one(condition);
            helper_find_stmts(body@);
        },
        Statement::For { iter, body, .. } => {
            helper_find_one(iter);
            helper_find_stmts(body@);
        },
        Statement::CompoundAssignment { value, .. } => {
            helper_find_one(value);
        },
        Statement::TupleUnpack { value, .. } => {
            helper_find_one(value);
        },
        Statement::TupleAssign { targets, value } => {
            helper_find_exprs(targets@);
            helper_find_one(value);
        },
        Statement::ChainedAssignment { value, .. } => {
            helper_find_one(value);
        },
        _ => {},
    }
    if calls_helper(Node::Stmt(stmt)) {
        lemma_has_itself(Node::Stmt(stmt), helper_kind());
    }
    if any(having(helper_kind()), held(Node::Stmt(stmt))) {
        lemma_has_part_above(Node::Stmt(stmt), helper_kind());
    }
}

proof fn helper_find_expr(expr: &Expr)
    ensures
        helper_expr(*expr) ==> has_part(Node::Expr(*expr), helper_kind()),
    decreases expr,
{
    lemma_any_of_expr(having(helper_kind()), *expr);
    match *expr {
        Expr::Binary(left, _, right) => {
            helper_find_one(left);
            helper_find_one(right);
        },
        Expr::Unary(_, inner) => {
            helper_find_one(inner);
        },
        Expr::Call(function, args) => {
            helper_find_one(function);
            helper_find_args(args@);
        },
        Expr::MethodCall(receiver, _, args) => {
            helper_find_one(receiver);
            helper_find_args(args@);
        },
        Expr::Field(base, _) => {
            helper_find_one(base);
        },
        Expr::Index(base, index) => {
            helper_find_one(base);
            helper_find_one(index);
        },
        Expr::Slice(base, bounds) => {
            helper_find_one(base);
            helper_find_optional(bounds.start);
            helper_find_optional(bounds.end);
            helper_find_optional(bounds.step);
        },
        Expr::Await(inner) => {
            helper_find_one(inner);
        },
        Expr::Try(inner) => {
            helper_find_one(inner);
        },
        Expr::If(i) => {
            helper_find_one(i.condition);
            helper_find_stmts(i.then_body@);
            helper_find_else(i.else_body);
        },
        Expr::Match(scrutinee, arms) => {
            helper_find_one(scrutinee);
            helper_find_arms(arms@);
        },
        Expr::Closure(_, inner) => {
            helper_find_one(inner);
        },
        Expr::List(items) | Expr::Tuple(items) | Expr::SetLiteral(items) => {
            helper_find_exprs(items@);
        },
        Expr::Dict(entries) => {
            helper_find_entries(entries@);
        },
        Expr::FString(parts) => {
            helper_find_parts(parts@);
        },
        Expr::ListComp(comp) => {
            helper_find_one(comp.expr);
            helper_find_one(comp.iter);
            helper_find_optional(comp.filter);
        },
        Expr::DictComp(comp) => {
            helper_find_one(comp.key);
            helper_find_one(comp.value);
            helper_find_one(comp.iter);
            helper_find_optional(comp.filter);
        },
        Expr::Constructor(_, args) => {
            helper_find_args(args@);
        },
        Expr::Paren(inner) => {
            helper_find_one(inner);
        },
        _ => {},
    }
    if calls_helper(Node::Expr(*expr)) {
        lemma_has_itself(Node::Expr(*expr), helper_kind());
    }
    if any(having(helper_kind()), held(Node::Expr(*expr))) {
        lemma_has_part_above(Node::Expr(*expr), helper_kind());
    }
}

proof fn helper_find_elif(branch: ElifBranch)
    ensures
        helper_elif(branch) ==> has_part(Node::Elif(branch), helper_kind()),
    decreases branch,
{
    lemma_any_of_both(having(helper_kind()), one(branch.condition), stmts(branch.body@));
    helper_find_one(branch.condition);
    helper_find_stmts(branch.body@);
    if calls_helper(Node::Elif(branch)) {
        lemma_has_itself(Node::Elif(branch), helper_kind());
    }
    if any(having(helper_kind()), held(Node::Elif(branch))) {
        lemma_has_part_above(Node::Elif(branch), helper_kind());
    }
}

proof fn helper_find_arg(arg: CallArg)
    ensures
        helper_arg(arg) ==> has_part(Node::Arg(arg), helper_kind()),
    decreases arg,
{
    match arg {
        CallArg::Positional(expr) => {
            helper_find_one(expr);
        },
        CallArg::Named(_, expr) => {
            helper_find_one(expr);
        },
    }
    if calls_helper(Node::Arg(arg)) {
        lemma_has_itself(Node::Arg(arg), helper_kind());
    }
    if any(having(helper_kind()), held(Node::Arg(arg))) {
        lemma_has_part_above(Node::Arg(arg), helper_kind());
    }
}

proof fn helper_find_arm(arm: MatchArm)
    ensures
        helper_arm(arm) ==> has_part(Node::Arm(arm), helper_kind()),
    decreases arm,
{
    helper_find_optional(arm.guard);
    match arm.body {
        MatchBody::Expr(expr) => {
            helper_find_one(expr);
            lemma_any_of_both(having(helper_kind()), optional(arm.guard), one(expr));
        },
        MatchBody::Block(block) => {
            helper_find_stmts(block@);
            lemma_any_of_both(having(helper_kind()), optional(arm.guard), stmts(block@));
        },
    }
    if calls_helper(Node::Arm(arm)) {
        lemma_has_itself(Node::Arm(arm), helper_kind());
    }
    if any(having(helper_kind()), held(Node::Arm(arm))) {
        lemma_has_part_above(Node::Arm(arm), helper_kind());
    }
}

proof fn helper_find_entry(entry: DictEntry)
    ensures
        helper_entry(entry) ==> has_part(Node::Entry(entry), helper_kind()),
    decreases entry,
{
    helper_find_one(entry.key);
    helper_find_one(entry.value);
    lemma_any_of_both(having(helper_kind()), one(entry.key), one(entry.value));
    if calls_helper(Node::Entry(entry)) {
        lemma_has_itself(Node::Entry(entry), helper_kind());
    }
    if any(having(helper_kind()), held(Node::Entry(entry))) {
        lemma_has_part_above(Node::Entry(entry), helper_kind());
    }
}

proof fn helper_find_part(part: FStringPart)
    ensures
        helper_part(part) ==> has_part(Node::Part(part), helper_kind()),
    decreases part,
{
    match part {
        FStringPart::Literal(_) => {},
        FStringPart::Expr(expr) => {
            helper_find_one(expr);
        },
    }
    if calls_helper(Node::Part(part)) {
        lemma_has_itself(Node::Part(part), helper_kind());
    }
    if any(having(helper_kind()), held(Node::Part(part))) {
        lemma_has_part_above(Node::Part(part), helper_kind());
    }
}

proof fn helper_find_method(method: &MethodDecl)
    ensures
        helper_method(*method) ==> has_part(Node::Method(*method), helper_kind()),
{
    helper_find_else(method.body);
    if calls_helper(Node::Method(*method)) {
        lemma_has_itself(Node::Method(*method), helper_kind());
    }
    if any(having(helper_kind()), held(Node::Method(*method))) {
        lemma_has_part_above(Node::Method(*method), helper_kind());
    }
}

proof fn helper_find_property(property: &PropertyDecl)
    ensures
        helper_body(property.body@) ==> has_part(Node::Property(*property), helper_kind()),
{
    helper_find_stmts(property.body@);
    if calls_helper(Node::Property(*property)) {
        lemma_has_itself(Node::Property(*property), helper_kind());
    }
    if any(having(helper_kind()), held(Node::Property(*property))) {
        lemma_has_part_above(Node::Property(*property), helper_kind());
    }
}

proof fn helper_find_field(field: &FieldDecl)
    ensures
        helper_option(field.default) ==> has_part(Node::Field(*field), helper_kind()),
{
    helper_find_optional(field.default);
    if calls_helper(Node::Field(*field)) {
        lemma_has_itself(Node::Field(*field), helper_kind());
    }
    if any(having(helper_kind()), held(Node::Field(*field))) {
        lemma_has_part_above(Node::Field(*field), helper_kind());
    }
}

proof fn helper_find_decl(decl: Declaration)
    ensures
        helper_decl(decl) ==> has_part(Node::Decl(decl), helper_kind()),
{
    lemma_any_of_decl(having(helper_kind()), decl);
    match decl {
        Declaration::Function(f) => {
            helper_find_stmts(f.body@);
        },
        Declaration::Model(m) => {
            helper_find_fields(m.fields@);
            helper_find_methods(m.methods@);
        },
        Declaration::Class(c) => {
            helper_find_fields(c.fields@);
            helper_find_methods(c.methods@);
            helper_find_properties(c.properties@);
        },
        Declaration::Trait(t) => {
            helper_find_methods(t.methods@);
        },
        Declaration::Const(c) => {
            helper_find_one(c.value);
        },
        _ => {},
    }
    if calls_helper(Node::Decl(decl)) {
        lemma_has_itself(Node::Decl(decl), helper_kind());
    }
    if any(having(helper_kind()), held(Node::Decl(decl))) {
        lemma_has_part_above(Node::Decl(decl), helper_kind());
    }
}

/// A program uses list helpers exactly where a call of `remove`, `count` or `index` stands anywhere in it.
pub proof fn law_list_helpers_are_found(program: &Program)
    ensures
        (exists|i: int|
            0 <= i < program.declarations@.len() && helper_decl((#[trigger] program.declarations@[i]).node)) <==> has_part(
            Node::Program(*program),
            |node: Node| calls_helper(node),
        ),
{
    let kind = helper_kind();
    let root = Node::Program(*program);
    let decls = program.declarations@;
    assert(kind =~= (|node: Node| calls_helper(node)));
    if helper_found(root) {
        let i = choose|i: int| 0 <= i < decls.len() && helper_decl((#[trigger] decls[i]).node);
        helper_find_decl(decls[i].node);
        assert(held(root)[i] == Node::Decl(decls[i].node));
        assert(having(kind)(held(root)[i]));
        lemma_has_part_above(root, kind);
    }
    if has_part(root, kind) {
        let way = choose|way: Seq<int>| #[trigger] part_at(root, way) matches Some(part) && kind(part);
        let found = helper_finds();
        assert forall|part: Node| #[trigger] kind(part) implies found(part) by {
            helper_unfolds(part);
        }
        assert forall|part: Node| #[trigger] any(found, held(part)) implies found(part) by {
            helper_unfolds(part);
        }
        lemma_found_above(kind, found, root, way);
    }
}

/// What is found in any part is found in every part that holds it, at whatever depth.
pub proof fn law_list_helpers_are_found_below(node: Node, way: Seq<int>)
    ensures
        part_at(node, way) matches Some(part) && helper_found(part) ==> helper_found(node),
    decreases way.len(),
{
    if way.len() > 0 && 0 <= way[0] < held(node).len() {
        law_list_helpers_are_found_below(held(node)[way[0]], way.drop_first());
        if helper_found(held(node)[way[0]]) {
            assert(helper_finds()(held(node)[way[0]]));
            helper_unfolds(node);
        }
    }
}

// ---------------------------------------------------------------------------
// Asynchronous code
// ---------------------------------------------------------------------------

/// Whether a part needs the async runtime by itself: an `await`, a call into the runtime, or an `async` function or
/// method.
pub open spec fn is_async_part(node: Node) -> bool {
    match node {
        Node::Expr(Expr::Await(_)) => true,
        Node::Expr(Expr::Call(function, _)) => match function.node {
            Expr::Ident(name) => name@ == "spawn"@ || name@ == "sleep"@ || name@ == "timeout"@ || name@ == "channel"@
                || name@ == "unbounded_channel"@,
            _ => false,
        },
        Node::Method(method) => method.is_async,
        Node::Decl(Declaration::Function(f)) => f.is_async,
        _ => false,
    }
}

/// The kind of part that the scan looks for.
pub open spec fn async_kind() -> spec_fn(Node) -> bool {
    |node: Node| is_async_part(node)
}

/// Whether the scan finds something in a part.
pub open spec fn async_found(node: Node) -> bool {
    match node {
        Node::Program(program) => exists|i: int|
            0 <= i < program.declarations@.len() && async_decl((#[trigger] program.declarations@[i]).node),
        Node::Decl(decl) => async_decl(decl),
        Node::Method(method) => async_method(method),
        Node::Property(property) => async_body(property.body@),
        Node::Field(field) => async_option(field.default),
        Node::Stmt(stmt) => async_stmt(stmt),
        Node::Elif(branch) => async_elif(branch),
        Node::Expr(expr) => async_expr(expr),
        Node::Arg(arg) => async_arg(arg),
        Node::Arm(arm) => async_arm(arm),
        Node::Entry(entry) => async_entry(entry),
        Node::Part(part) => async_part(part),
    }
}

/// What the scan finds.
pub open spec fn async_finds() -> spec_fn(Node) -> bool {
    |node: Node| async_found(node)
}

/// What the scan finds in a run of parts.
proof fn async_runs()
    ensures
        forall|expr: Rc<Spanned<Expr>>| #[trigger] any(async_finds(), one(expr)) <==> async_expr(expr.node),
        forall|expr: Option<Rc<Spanned<Expr>>>| #[trigger] any(async_finds(), optional(expr)) <==> async_option(expr),
        forall|stmts: Option<Vec<Spanned<Statement>>>| #[trigger] any(async_finds(), body(stmts)) <==> async_else(stmts),
        forall|items: Seq<Spanned<Statement>>| #[trigger] any(async_finds(), stmts(items)) <==> async_body(items),
        forall|items: Seq<ElifBranch>| #[trigger] any(async_finds(), elifs(items)) <==> async_elifs(items),
        forall|items: Seq<Rc<Spanned<Expr>>>| #[trigger] any(async_finds(), exprs(items)) <==> async_exprs(items),
        forall|items: Seq<CallArg>| #[trigger] any(async_finds(), args(items)) <==> async_args(items),
        forall|items: Seq<Spanned<MatchArm>>| #[trigger] any(async_finds(), arms(items)) <==> async_arms(items),
        forall|items: Seq<DictEntry>| #[trigger] any(async_finds(), entries(items)) <==> async_entries(items),
        forall|items: Seq<FStringPart>| #[trigger] any(async_finds(), parts(items)) <==> async_parts(items),
        forall|items: Seq<Rc<Spanned<MethodDecl>>>| #[trigger] any(async_finds(), methods(items)) <==> async_methods(items),
        forall|items: Seq<Rc<Spanned<PropertyDecl>>>| #[trigger] any(async_finds(), properties(items)) <==> async_properties(items),
        forall|items: Seq<Spanned<FieldDecl>>| #[trigger] any(async_finds(), fields(items)) <==> async_defaults(items),
{
    let found = async_finds();
    assert forall|expr: Rc<Spanned<Expr>>| #[trigger] any(found, one(expr)) <==> async_expr(expr.node) by {
        lemma_any_of_one(found, expr);
    }
    assert forall|items: Seq<Spanned<Statement>>| #[trigger] any(found, stmts(items)) <==> async_body(items) by {
        if async_body(items) {
            let i = choose|i: int| 0 <= i < items.len() && async_stmt((#[trigger] items[i]).node);
            assert(found(stmts(items)[i]));
        }
        if any(found, stmts(items)) {
            let i = choose|i: int| 0 <= i < stmts(items).len() && found(#[trigger] stmts(items)[i]);
            assert(async_stmt(items[i].node));
        }
    }
    assert forall|items: Seq<ElifBranch>| #[trigger] any(found, elifs(items)) <==> async_elifs(items) by {
        if async_elifs(items) {
            let i = choose|i: int| 0 <= i < items.len() && async_elif(#[trigger] items[i]);
            assert(found(elifs(items)[i]));
        }
        if any(found, elifs(items)) {
            let i = choose|i: int| 0 <= i < elifs(items).len() && found(#[trigger] elifs(items)[i]);
            assert(async_elif(items[i]));
        }
    }
    assert forall|items: Seq<Rc<Spanned<Expr>>>| #[trigger] any(found, exprs(items)) <==> async_exprs(items) by {
        if async_exprs(items) {
            let i = choose|i: int| 0 <= i < items.len() && async_expr((#[trigger] items[i]).node);
            assert(found(exprs(items)[i]));
        }
        if any(found, exprs(items)) {
            let i = choose|i: int| 0 <= i < exprs(items).len() && found(#[trigger] exprs(items)[i]);
            assert(async_expr(items[i].node));
        }
    }
    assert forall|items: Seq<CallArg>| #[trigger] any(found, args(items)) <==> async_args(items) by {
        if async_args(items) {
            let i = choose|i: int| 0 <= i < items.len() && async_arg(#[trigger] items[i]);
            assert(found(args(items)[i]));
        }
        if any(found, args(items)) {
            let i = choose|i: int| 0 <= i < args(items).len() && found(#[trigger] args(items)[i]);
            assert(async_arg(items[i]));
        }
    }
    assert forall|items: Seq<Spanned<MatchArm>>| #[trigger] any(found, arms(items)) <==> async_arms(items) by {
        if async_arms(items) {
            let i = choose|i: int| 0 <= i < items.len() && async_arm((#[trigger] items[i]).node);
            assert(found(arms(items)[i]));
        }
        if any(found, arms(items)) {
            let i = choose|i: int| 0 <= i < arms(items).len() && found(#[trigger] arms(items)[i]);
            assert(async_arm(items[i].node));
        }
    }
    assert forall|items: Seq<DictEntry>| #[trigger] any(found, entries(items)) <==> async_entries(items) by {
        if async_entries(items) {
            let i = choose|i: int| 0 <= i < items.len() && async_entry(#[trigger] items[i]);
            assert(found(entries(items)[i]));
        }
        if any(found, entries(items)) {
            let i = choose|i: int| 0 <= i < entries(items).len() && found(#[trigger] entries(items)[i]);
            assert(async_entry(items[i]));
        }
    }
    assert forall|items: Seq<FStringPart>| #[trigger] any(found, parts(items)) <==> async_parts(items) by {
        if async_parts(items) {
            let i = choose|i: int| 0 <= i < items.len() && async_part(#[trigger] items[i]);
            assert(found(parts(items)[i]));
        }
        if any(found, parts(items)) {
            let i = choose|i: int| 0 <= i < parts(items).len() && found(#[trigger] parts(items)[i]);
            assert(async_part(items[i]));
        }
    }
    assert forall|items: Seq<Rc<Spanned<MethodDecl>>>| #[trigger] any(found, methods(items)) <==> async_methods(items) by {
        if async_methods(items) {
            let i = choose|i: int| 0 <= i < items.len() && async_method((#[trigger] items[i]).node);
            assert(found(methods(items)[i]));
        }
        if any(found, methods(items)) {
            let i = choose|i: int| 0 <= i < methods(items).len() && found(#[trigger] methods(items)[i]);
            assert(async_method(items[i].node));
        }
    }
    assert forall|items: Seq<Rc<Spanned<PropertyDecl>>>| #[trigger] any(found, properties(items)) <==> async_properties(items) by {
        if async_properties(items) {
            let i = choose|i: int| 0 <= i < items.len() && async_body((#[trigger] items[i]).node.body@);
            assert(found(properties(items)[i]));
        }
        if any(found, properties(items)) {
            let i = choose|i: int| 0 <= i < properties(items).len() && found(#[trigger] properties(items)[i]);
            assert(async_body(items[i].node.body@));
        }
    }
    assert forall|items: Seq<Spanned<FieldDecl>>| #[trigger] any(found, fields(items)) <==> async_defaults(items) by {
        if async_defaults(items) {
            let i = choose|i: int| 0 <= i < items.len() && async_option((#[trigger] items[i]).node.default);
            assert(found(fields(items)[i]));
        }
        if any(found, fields(items)) {
            let i = choose|i: int| 0 <= i < fields(items).len() && found(#[trigger] fields(items)[i]);
            assert(async_option(items[i].node.default));
        }
    }
}

/// The scan finds something in a part exactly where the part is of the kind, or something is found in a held part.
proof fn async_unfolds(node: Node)
    ensures
        async_found(node) <==> is_async_part(node) || any(async_finds(), held(node)),
{
    let found = async_finds();
    async_runs();
    match node {
        Node::Program(program) => {
            let decls = program.declarations@;
            if async_found(node) {
                let i = choose|i: int| 0 <= i < decls.len() && async_decl((#[trigger] decls[i]).node);
                assert(found(held(node)[i]));
            }
            if any(found, held(node)) {
                let i = choose|i: int| 0 <= i < held(node).len() && found(#[trigger] held(node)[i]);
                assert(async_decl(decls[i].node));
            }
        },
        Node::Decl(decl) => {
            lemma_any_of_decl(found, decl);
        },
        Node::Stmt(stmt) => {
            lemma_any_of_stmt(found, stmt);
        },
        Node::Expr(expr) => {
            lemma_any_of_expr(found, expr);
        },
        Node::Elif(branch) => {
            lemma_any_of_both(found, one(branch.condition), stmts(branch.body@));
        },
        Node::Arm(arm) => match arm.body {
            MatchBody::Expr(expr) => {
                lemma_any_of_both(found, optional(arm.guard), one(expr));
            },
            MatchBody::Block(block) => {
                lemma_any_of_both(found, optional(arm.guard), stmts(block@));
            },
        },
        Node::Entry(entry) => {
            lemma_any_of_both(found, one(entry.key), one(entry.value));
        },
        _ => {},
    }
}

proof fn async_find_one(expr: Rc<Spanned<Expr>>)
    ensures
        async_expr(expr.node) ==> any(having(async_kind()), one(expr)),
    decreases expr,
{
    async_find_expr(&expr.node);
    lemma_any_of_one(having(async_kind()), expr);
}

proof fn async_find_optional(expr: Option<Rc<Spanned<Expr>>>)
    ensures
        async_option(expr) ==> any(having(async_kind()), optional(expr)),
    decreases expr,
{
    match expr {
        Some(expr) => {
            async_find_one(expr);
        },
        None => {},
    }
}

proof fn async_find_else(stmts: Option<Vec<Spanned<Statement>>>)
    ensures
        async_else(stmts) ==> any(having(async_kind()), body(stmts)),
    decreases stmts,
{
    match stmts {
        Some(stmts) => {
            async_find_stmts(stmts@);
        },
        None => {},
    }
}

proof fn async_find_stmts(items: Seq<Spanned<Statement>>)
    ensures
        async_body(items) ==> any(having(async_kind()), stmts(items)),
    decreases items,
{
    if async_body(items) {
        let i = choose|i: int| 0 <= i < items.len() && async_stmt((#[trigger] items[i]).node);
        async_find_stmt(items[i].node);
        assert(stmts(items)[i] == Node::Stmt(items[i].node));
        assert(having(async_kind())(stmts(items)[i]));
    }
}

proof fn async_find_elifs(items: Seq<ElifBranch>)
    ensures
        async_elifs(items) ==> any(having(async_kind()), elifs(items)),
    decreases items,
{
    if async_elifs(items) {
        let i = choose|i: int| 0 <= i < items.len() && async_elif(#[trigger] items[i]);
        async_find_elif(items[i]);
        assert(elifs(items)[i] == Node::Elif(items[i]));
        assert(having(async_kind())(elifs(items)[i]));
    }
}

proof fn async_find_exprs(items: Seq<Rc<Spanned<Expr>>>)
    ensures
        async_exprs(items) ==> any(having(async_kind()), exprs(items)),
    decreases items,
{
    if async_exprs(items) {
        let i = choose|i: int| 0 <= i < items.len() && async_expr((#[trigger] items[i]).node);
        async_find_expr(&items[i].node);
        assert(exprs(items)[i] == Node::Expr(items[i].node));
        assert(having(async_kind())(exprs(items)[i]));
    }
}

proof fn async_find_args(items: Seq<CallArg>)
    ensures
        async_args(items) ==> any(having(async_kind()), args(items)),
    decreases items,
{
    if async_args(items) {
        let i = choose|i: int| 0 <= i < items.len() && async_arg(#[trigger] items[i]);
        async_find_arg(items[i]);
        assert(args(items)[i] == Node::Arg(items[i]));
        assert(having(async_kind())(args(items)[i]));
    }
}

proof fn async_find_arms(items: Seq<Spanned<MatchArm>>)
    ensures
        async_arms(items) ==> any(having(async_kind()), arms(items)),
    decreases items,
{
    if async_arms(items) {
        let i = choose|i: int| 0 <= i < items.len() && async_arm((#[trigger] items[i]).node);
        async_find_arm(items[i].node);
        assert(arms(items)[i] == Node::Arm(items[i].node));
        assert(having(async_kind())(arms(items)[i]));
    }
}

proof fn async_find_entries(items: Seq<DictEntry>)
    ensures
        async_entries(items) ==> any(having(async_kind()), entries(items)),
    decreases items,
{
    if async_entries(items) {
        let i = choose|i: int| 0 <= i < items.len() && async_entry(#[trigger] items[i]);
        async_find_entry(items[i]);
        assert(entries(items)[i] == Node::Entry(items[i]));
        assert(having(async_kind())(entries(items)[i]));
    }
}

proof fn async_find_parts(items: Seq<FStringPart>)
    ensures
        async_parts(items) ==> any(having(async_kind()), parts(items)),
    decreases items,
{
    if async_parts(items) {
        let i = choose|i: int| 0 <= i < items.len() && async_part(#[trigger] items[i]);
        async_find_part(items[i]);
        assert(parts(items)[i] == Node::Part(items[i]));
        assert(having(async_kind())(parts(items)[i]));
    }
}

proof fn async_find_methods(items: Seq<Rc<Spanned<MethodDecl>>>)
    ensures
        async_methods(items) ==> any(having(async_kind()), methods(items)),
    decreases items,
{
    if async_methods(items) {
        let i = choose|i: int| 0 <= i < items.len() && async_method((#[trigger] items[i]).node);
        async_find_method(&items[i].node);
        assert(methods(items)[i] == Node::Method(items[i].node));
        assert(having(async_kind())(methods(items)[i]));
    }
}

proof fn async_find_properties(items: Seq<Rc<Spanned<PropertyDecl>>>)
    ensures
        async_properties(items) ==> any(having(async_kind()), properties(items)),
    decreases items,
{
    if async_properties(items) {
        let i = choose|i: int| 0 <= i < items.len() && async_body((#[trigger] items[i]).node.body@);
        async_find_property(&items[i].node);
        assert(properties(items)[i] == Node::Property(items[i].node));
        assert(having(async_kind())(properties(items)[i]));
    }
}

proof fn async_find_fields(items: Seq<Spanned<FieldDecl>>)
    ensures
        async_defaults(items) ==> any(having(async_kind()), fields(items)),
    decreases items,
{
    if async_defaults(items) {
        let i = choose|i: int| 0 <= i < items.len() && async_option((#[trigger] items[i]).node.default);
        async_find_field(&items[i].node);
        assert(fields(items)[i] == Node::Field(items[i].node));
        assert(having(async_kind())(fields(items)[i]));
    }
}

proof fn async_find_stmt(stmt: Statement)
    ensures
        async_stmt(stmt) ==> has_part(Node::Stmt(stmt), async_kind()),
    decreases stmt,
{
    lemma_any_of_stmt(having(async_kind()), stmt);
    match stmt {
        Statement::Expr(expr) => {
            async_find_one(expr);
        },
        Statement::Assignment(a) => {
            async_find_one(a.value);
        },
        Statement::FieldAssignment { object, value, .. } => {
            async_find_one(object);
            async_find_one(value);
        },
        Statement::IndexAssignment { object, index, value } => {
            async_find_one(object);
            async_find_one(index);
            async_find_one(value);
        },
        Statement::Return(value) => {
            async_find_optional(value);
        },
        Statement::If(i) => {
            async_find_one(i.condition);
            async_find_stmts(i.then_body@);
            async_find_elifs(i.elif_branches@);
            async_find_else(i.else_body);
        },
        Statement::While { condition, body } => {
            async_find_one(condition);
            async_find_stmts(body@);
        },
        Statement::For { iter, body, .. } => {
            async_find_one(iter);
            async_find_stmts(body@);
        },
        Statement::CompoundAssignment { value, .. } => {
            async_find_one(value);
        },
        Statement::TupleUnpack { value, .. } => {
            async_find_one(value);
        },
        Statement::TupleAssign { targets, value } => {
            async_find_exprs(targets@);
            async_find_one(value);
        },
        Statement::ChainedAssignment { value, .. } => {
            async_find_one(value);
        },
        _ => {},
    }
    if is_async_part(Node::Stmt(stmt)) {
        lemma_has_itself(Node::Stmt(stmt), async_kind());
    }
    if any(having(async_kind()), held(Node::Stmt(stmt))) {
        lemma_has_part_above(Node::Stmt(stmt), async_kind());
    }
}

proof fn async_find_expr(expr: &Expr)
    ensures
        async_expr(*expr) ==> has_part(Node::Expr(*expr), async_kind()),
    decreases expr,
{
    lemma_any_of_expr(having(async_kind()), *expr);
    match *expr {
        Expr::Binary(left, _, right) => {
            async_find_one(left);
            async_find_one(right);
        },
        Expr::Unary(_, inner) => {
            async_find_one(inner);
        },
        Expr::Call(function, args) => {
            async_find_one(function);
            async_find_args(args@);
        },
        Expr::MethodCall(receiver, _, args) => {
            async_find_one(receiver);
            async_find_args(args@);
        },
        Expr::Field(base, _) => {
            async_find_one(base);
        },
        Expr::Index(base, index) => {
            async_find_one(base);
            async_find_one(index);
        },
        Expr::Slice(base, bounds) => {
            async_find_one(base);
            async_find_optional(bounds.start);
            async_find_optional(bounds.end);
            async_find_optional(bounds.step);
        },
        Expr::Await(inner) => {
            async_find_one(inner);
        },
        Expr::Try(inner) => {
            async_find_one(inner);
        },
        Expr::If(i) => {
            async_find_one(i.condition);
            async_find_stmts(i.then_body@);
            async_find_else(i.else_body);
        },
        Expr::Match(scrutinee, arms) => {
            async_find_one(scrutinee);
            async_find_arms(arms@);
        },
        Expr::Closure(_, inner) => {
            async_find_one(inner);
        },
        Expr::List(items) | Expr::Tuple(items) | Expr::SetLiteral(items) => {
            async_find_exprs(items@);
        },
        Expr::Dict(entries) => {
            async_find_entries(entries@);
        },
        Expr::FString(parts) => {
            async_find_parts(parts@);
        },
        Expr::ListComp(comp) => {
            async_find_one(comp.expr);
            async_find_one(comp.iter);
            async_find_optional(comp.filter);
        },
        Expr::DictComp(comp) => {
            async_find_one(comp.key);
            async_find_one(comp.value);
            async_find_one(comp.iter);
            async_find_optional(comp.filter);
        },
        Expr::Constructor(_, args) => {
            async_find_args(args@);
        },
        Expr::Paren(inner) => {
            async_find_one(inner);
        },
        _ => {},
    }
    if is_async_part(Node::Expr(*expr)) {
        lemma_has_itself(Node::Expr(*expr), async_kind());
    }
    if any(having(async_kind()), held(Node::Expr(*expr))) {
        lemma_has_part_above(Node::Expr(*expr), async_kind());
    }
}

proof fn async_find_elif(branch: ElifBranch)
    ensures
        async_elif(branch) ==> has_part(Node::Elif(branch), async_kind()),
    decreases branch,
{
    lemma_any_of_both(having(async_kind()), one(branch.condition), stmts(branch.body@));
    async_find_one(branch.condition);
    async_find_stmts(branch.body@);
    if is_async_part(Node::Elif(branch)) {
        lemma_has_itself(Node::Elif(branch), async_kind());
    }
    if any(having(async_kind()), held(Node::Elif(branch))) {
        lemma_has_part_above(Node::Elif(branch), async_kind());
    }
}

proof fn async_find_arg(arg: CallArg)
    ensures
        async_arg(arg) ==> has_part(Node::Arg(arg), async_kind()),
    decreases arg,
{
    match arg {
        CallArg::Positional(expr) => {
            async_find_one(expr);
        },
        CallArg::Named(_, expr) => {
            async_find_one(expr);
        },
    }
    if is_async_part(Node::Arg(arg)) {
        lemma_has_itself(Node::Arg(arg), async_kind());
    }
    if any(having(async_kind()), held(Node::Arg(arg))) {
        lemma_has_part_above(Node::Arg(arg), async_kind());
    }
}

proof fn async_find_arm(arm: MatchArm)
    ensures
        async_arm(arm) ==> has_part(Node::Arm(arm), async_kind()),
    decreases arm,
{
    async_find_optional(arm.guard);
    match arm.body {
        MatchBody::Expr(expr) => {
            async_find_one(expr);
            lemma_any_of_both(having(async_kind()), optional(arm.guard), one(expr));
        },
        MatchBody::Block(block) => {
            async_find_stmts(block@);
            lemma_any_of_both(having(async_kind()), optional(arm.guard), stmts(block@));
        },
    }
    if is_async_part(Node::Arm(arm)) {
        lemma_has_itself(Node::Arm(arm), async_kind());
    }
    if any(having(async_kind()), held(Node::Arm(arm))) {
        lemma_has_part_above(Node::Arm(arm), async_kind());
    }
}

proof fn async_find_entry(entry: DictEntry)
    ensures
        async_entry(entry) ==> has_part(Node::Entry(entry), async_kind()),
    decreases entry,
{
    async_find_one(entry.key);
    async_find_one(entry.value);
    lemma_any_of_both(having(async_kind()), one(entry.key), one(entry.value));
    if is_async_part(Node::Entry(entry)) {
        lemma_has_itself(Node::Entry(entry), async_kind());
    }
    if any(having(async_kind()), held(Node::Entry(entry))) {
        lemma_has_part_above(Node::Entry(entry), async_kind());
    }
}

proof fn async_find_part(part: FStringPart)
    ensures
        async_part(part) ==> has_part(Node::Part(part), async_kind()),
    decreases part,
{
    match part {
        FStringPart::Literal(_) => {},
        FStringPart::Expr(expr) => {
            async_find_one(expr);
        },
    }
    if is_async_part(Node::Part(part)) {
        lemma_has_itself(Node::Part(part), async_kind());
    }
    if any(having(async_kind()), held(Node::Part(part))) {
        lemma_has_part_above(Node::Part(part), async_kind());
    }
}

proof fn async_find_method(method: &MethodDecl)
    ensures
        async_method(*method) ==> has_part(Node::Method(*method), async_kind()),
{
    async_find_else(method.body);
    if is_async_part(Node::Method(*method)) {
        lemma_has_itself(Node::Method(*method), async_kind());
    }
    if any(having(async_kind()), held(Node::Method(*method))) {
        lemma_has_part_above(Node::Method(*method), async_kind());
    }
}

proof fn async_find_property(property: &PropertyDecl)
    ensures
        async_body(property.body@) ==> has_part(Node::Property(*property), async_kind()),
{
    async_find_stmts(property.body@);
    if is_async_part(Node::Property(*property)) {
        lemma_has_itself(Node::Property(*property), async_kind());
    }
    if any(having(async_kind()), held(Node::Property(*property))) {
        lemma_has_part_above(Node::Property(*property), async_kind());
    }
}

proof fn async_find_field(field: &FieldDecl)
    ensures
        async_option(field.default) ==> has_part(Node::Field(*field), async_kind()),
{
    async_find_optional(field.default);
    if is_async_part(Node::Field(*field)) {
        lemma_has_itself(Node::Field(*field), async_kind());
    }
    if any(having(async_kind()), held(Node::Field(*field))) {
        lemma_has_part_above(Node::Field(*field), async_kind());
    }
}

proof fn async_find_decl(decl: Declaration)
    ensures
        async_decl(decl) ==> has_part(Node::Decl(decl), async_kind()),
{
    lemma_any_of_decl(having(async_kind()), decl);
    match decl {
        Declaration::Function(f) => {
            async_find_stmts(f.body@);
        },
        Declaration::Model(m) => {
            async_find_fields(m.fields@);
            async_find_methods(m.methods@);
        },
        Declaration::Class(c) => {
            async_find_fields(c.fields@);
            async_find_methods(c.methods@);
            async_find_properties(c.properties@);
        },
        Declaration::Trait(t) => {
            async_find_methods(t.methods@);
        },
        Declaration::Const(c) => {
            async_find_one(c.value);
        },
        _ => {},
    }
    if is_async_part(Node::Decl(decl)) {
        lemma_has_itself(Node::Decl(decl), async_kind());
    }
    if any(having(async_kind()), held(Node::Decl(decl))) {
        lemma_has_part_above(Node::Decl(decl), async_kind());
    }
}

/// A program needs the async runtime exactly where an `await`, a call into the runtime, or an `async` function or method
/// stands anywhere in it.
pub proof fn law_async_code_is_found(program: &Program)
    ensures
        (exists|i: int|
            0 <= i < program.declarations@.len() && async_decl((#[trigger] program.declarations@[i]).node)) <==> has_part(
            Node::Program(*program),
            |node: Node| is_async_part(node),
        ),
{
    let kind = async_kind();
    let root = Node::Program(*program);
    let decls = program.declarations@;
    assert(kind =~= (|node: Node| is_async_part(node)));
    if async_found(root) {
        let i = choose|i: int| 0 <= i < decls.len() && async_decl((#[trigger] decls[i]).node);
        async_find_decl(decls[i].node);
        assert(held(root)[i] == Node::Decl(decls[i].node));
        assert(having(kind)(held(root)[i]));
        lemma_has_part_above(root, kind);
    }
    if has_part(root, kind) {
        let way = choose|way: Seq<int>| #[trigger] part_at(root, way) matches Some(part) && kind(part);
        let found = async_finds();
        assert forall|part: Node| #[trigger] kind(part) implies found(part) by {
            async_unfolds(part);
        }
        assert forall|part: Node| #[trigger] any(found, held(part)) implies found(part) by {
            async_unfolds(part);
        }
        lemma_found_above(kind, found, root, way);
    }
}

/// What is found in any part is found in every part that holds it, at whatever depth.
pub proof fn law_async_code_is_found_below(node: Node, way: Seq<int>)
    ensures
        part_at(node, way) matches Some(part) && async_found(part) ==> async_found(node),
    decreases way.len(),
{
    if way.len() > 0 && 0 <= way[0] < held(node).len() {
        law_async_code_is_found_below(held(node)[way[0]], way.drop_first());
        if async_found(held(node)[way[0]]) {
            assert(async_finds()(held(node)[way[0]]));
            async_unfolds(node);
        }
    }
}

} // verus!
