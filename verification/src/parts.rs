//! The parts of a program, and what is found among them.
//!
//! Every part of a program holds its own parts, down to names and literals. The scanners look for one kind of part each;
//! what they find is stated over the parts alone, in one way for all of them.

use crate::ast::{
    CallArg, Declaration, DictEntry, ElifBranch, Expr, FStringPart, FieldDecl, MatchArm, MatchBody, MethodDecl,
    Program, PropertyDecl, Spanned, Statement,
};
use std::rc::Rc;
use vstd::prelude::*;

verus! {

broadcast use vstd::string::group_string_axioms;

/// A part of a program.
pub ghost enum Node {
    /// The whole.
    Program(Program),
    /// A declaration.
    Decl(Declaration),
    /// A method.
    Method(MethodDecl),
    /// A computed property.
    Property(PropertyDecl),
    /// A field.
    Field(FieldDecl),
    /// A statement.
    Stmt(Statement),
    /// An `elif` branch.
    Elif(ElifBranch),
    /// An expression.
    Expr(Expr),
    /// An argument of a call.
    Arg(CallArg),
    /// An arm of a match.
    Arm(MatchArm),
    /// An entry of a dictionary.
    Entry(DictEntry),
    /// A part of an interpolated string.
    Part(FStringPart),
}

// ---------------------------------------------------------------------------
// What holds what
// ---------------------------------------------------------------------------

/// Some declarations as parts.
pub open spec fn decls(items: Seq<Spanned<Declaration>>) -> Seq<Node> {
    Seq::new(items.len(), |i: int| Node::Decl(items[i].node))
}

/// Some methods as parts.
pub open spec fn methods(items: Seq<Rc<Spanned<MethodDecl>>>) -> Seq<Node> {
    Seq::new(items.len(), |i: int| Node::Method(items[i].node))
}

/// Some properties as parts.
pub open spec fn properties(items: Seq<Rc<Spanned<PropertyDecl>>>) -> Seq<Node> {
    Seq::new(items.len(), |i: int| Node::Property(items[i].node))
}

/// Some fields as parts.
pub open spec fn fields(items: Seq<Spanned<FieldDecl>>) -> Seq<Node> {
    Seq::new(items.len(), |i: int| Node::Field(items[i].node))
}

/// Some statements as parts.
pub open spec fn stmts(items: Seq<Spanned<Statement>>) -> Seq<Node> {
    Seq::new(items.len(), |i: int| Node::Stmt(items[i].node))
}

/// Some `elif` branches as parts.
pub open spec fn elifs(items: Seq<ElifBranch>) -> Seq<Node> {
    Seq::new(items.len(), |i: int| Node::Elif(items[i]))
}

/// Some expressions as parts.
pub open spec fn exprs(items: Seq<Rc<Spanned<Expr>>>) -> Seq<Node> {
    Seq::new(items.len(), |i: int| Node::Expr(items[i].node))
}

/// Some arguments as parts.
pub open spec fn args(items: Seq<CallArg>) -> Seq<Node> {
    Seq::new(items.len(), |i: int| Node::Arg(items[i]))
}

/// Some match arms as parts.
pub open spec fn arms(items: Seq<Spanned<MatchArm>>) -> Seq<Node> {
    Seq::new(items.len(), |i: int| Node::Arm(items[i].node))
}

/// Some dictionary entries as parts.
pub open spec fn entries(items: Seq<DictEntry>) -> Seq<Node> {
    Seq::new(items.len(), |i: int| Node::Entry(items[i]))
}

/// Some parts of an interpolated string as parts.
pub open spec fn parts(items: Seq<FStringPart>) -> Seq<Node> {
    Seq::new(items.len(), |i: int| Node::Part(items[i]))
}

/// One expression as a part.
pub open spec fn one(expr: Rc<Spanned<Expr>>) -> Seq<Node> {
    seq![Node::Expr(expr.node)]
}

/// An optional expression as a part.
pub open spec fn optional(expr: Option<Rc<Spanned<Expr>>>) -> Seq<Node> {
    match expr {
        Some(expr) => one(expr),
        None => Seq::empty(),
    }
}

/// An optional body as parts.
pub open spec fn body(stmts: Option<Vec<Spanned<Statement>>>) -> Seq<Node> {
    match stmts {
        Some(stmts) => self::stmts(stmts@),
        None => Seq::empty(),
    }
}

/// The parts that a statement holds.
pub open spec fn stmt_parts(stmt: Statement) -> Seq<Node> {
    match stmt {
        Statement::Expr(expr) => one(expr),
        Statement::Assignment(a) => one(a.value),
        Statement::FieldAssignment { object, value, .. } => one(object) + one(value),
        Statement::IndexAssignment { object, index, value } => one(object) + one(index) + one(value),
        Statement::Return(value) => optional(value),
        Statement::If(i) => one(i.condition) + stmts(i.then_body@) + elifs(i.elif_branches@) + body(i.else_body),
        Statement::While { condition, body } => one(condition) + stmts(body@),
        Statement::For { iter, body, .. } => one(iter) + stmts(body@),
        Statement::Pass | Statement::Break | Statement::Continue => Seq::empty(),
        Statement::CompoundAssignment { value, .. } => one(value),
        Statement::TupleUnpack { value, .. } => one(value),
        Statement::TupleAssign { targets, value } => exprs(targets@) + one(value),
        Statement::ChainedAssignment { value, .. } => one(value),
    }
}

/// The parts that an expression holds.
pub open spec fn expr_parts(expr: Expr) -> Seq<Node> {
    match expr {
        Expr::Ident(_) | Expr::Literal(_) | Expr::SelfExpr => Seq::empty(),
        Expr::Binary(left, _, right) => one(left) + one(right),
        Expr::Unary(_, inner) => one(inner),
        Expr::Call(function, args) => one(function) + self::args(args@),
        Expr::MethodCall(receiver, _, args) => one(receiver) + self::args(args@),
        Expr::Field(base, _) => one(base),
        Expr::Index(base, index) => one(base) + one(index),
        Expr::Slice(base, bounds) => one(base) + optional(bounds.start) + optional(bounds.end) + optional(bounds.step),
        Expr::Await(inner) => one(inner),
        Expr::Try(inner) => one(inner),
        Expr::If(i) => one(i.condition) + stmts(i.then_body@) + body(i.else_body),
        Expr::Match(scrutinee, arms) => one(scrutinee) + self::arms(arms@),
        Expr::Closure(_, inner) => one(inner),
        Expr::List(items) | Expr::Tuple(items) | Expr::SetLiteral(items) => exprs(items@),
        Expr::Dict(entries) => self::entries(entries@),
        Expr::FString(parts) => self::parts(parts@),
        Expr::ListComp(comp) => one(comp.expr) + one(comp.iter) + optional(comp.filter),
        Expr::DictComp(comp) => one(comp.key) + one(comp.value) + one(comp.iter) + optional(comp.filter),
        Expr::Constructor(_, args) => self::args(args@),
        Expr::Paren(inner) => one(inner),
    }
}

/// The parts that a declaration holds.
pub open spec fn decl_parts(decl: Declaration) -> Seq<Node> {
    match decl {
        Declaration::Function(f) => stmts(f.body@),
        Declaration::Model(m) => fields(m.fields@) + methods(m.methods@),
        Declaration::Class(c) => fields(c.fields@) + methods(c.methods@) + properties(c.properties@),
        Declaration::Trait(t) => methods(t.methods@),
        Declaration::Const(c) => one(c.value),
        Declaration::Import(_) | Declaration::Enum(_) | Declaration::Newtype(_) | Declaration::Docstring(_) =>
        Seq::empty(),
    }
}

/// The parts that a part holds.
pub open spec fn held(node: Node) -> Seq<Node> {
    match node {
        Node::Program(program) => decls(program.declarations@),
        Node::Decl(decl) => decl_parts(decl),
        Node::Method(method) => body(method.body),
        Node::Property(property) => stmts(property.body@),
        Node::Field(field) => optional(field.default),
        Node::Stmt(stmt) => stmt_parts(stmt),
        Node::Elif(branch) => one(branch.condition) + stmts(branch.body@),
        Node::Expr(expr) => expr_parts(expr),
        Node::Arg(arg) => match arg {
            CallArg::Positional(expr) => one(expr),
            CallArg::Named(_, expr) => one(expr),
        },
        Node::Arm(arm) => optional(arm.guard) + match arm.body {
            MatchBody::Expr(expr) => one(expr),
            MatchBody::Block(block) => stmts(block@),
        },
        Node::Entry(entry) => one(entry.key) + one(entry.value),
        Node::Part(part) => match part {
            FStringPart::Literal(_) => Seq::empty(),
            FStringPart::Expr(expr) => one(expr),
        },
    }
}

/// The part at the end of a way down: each step names one of the parts that are held.
pub open spec fn part_at(node: Node, way: Seq<int>) -> Option<Node>
    decreases way.len(),
{
    if way.len() == 0 {
        Some(node)
    } else if 0 <= way[0] < held(node).len() {
        part_at(held(node)[way[0]], way.drop_first())
    } else {
        None
    }
}

/// Whether a part of a certain kind stands anywhere in a part.
pub open spec fn has_part(node: Node, kind: spec_fn(Node) -> bool) -> bool {
    exists|way: Seq<int>| #[trigger] part_at(node, way) matches Some(part) && kind(part)
}

// ---------------------------------------------------------------------------
// Finding parts
// ---------------------------------------------------------------------------

/// Whether something is found in one of some parts.
pub open spec fn any(found: spec_fn(Node) -> bool, nodes: Seq<Node>) -> bool {
    exists|i: int| 0 <= i < nodes.len() && found(#[trigger] nodes[i])
}

/// What is found in two runs of parts is found in one of them.
pub proof fn lemma_any_of_both(found: spec_fn(Node) -> bool, a: Seq<Node>, b: Seq<Node>)
    ensures
        any(found, a + b) <==> any(found, a) || any(found, b),
{
    let both = a + b;
    if any(found, a) {
        let i = choose|i: int| 0 <= i < a.len() && found(#[trigger] a[i]);
        assert(both[i] == a[i]);
    }
    if any(found, b) {
        let i = choose|i: int| 0 <= i < b.len() && found(#[trigger] b[i]);
        assert(both[a.len() + i] == b[i]);
    }
    if any(found, both) {
        let i = choose|i: int| 0 <= i < both.len() && found(#[trigger] both[i]);
        if i < a.len() {
            assert(both[i] == a[i]);
        } else {
            assert(both[i] == b[i - a.len()]);
        }
    }
}

/// What is found in one part is found in that part.
pub proof fn lemma_any_of_one(found: spec_fn(Node) -> bool, expr: Rc<Spanned<Expr>>)
    ensures
        any(found, one(expr)) <==> found(Node::Expr(expr.node)),
{
    assert(one(expr)[0] == Node::Expr(expr.node));
}

/// What stands at the end of a way is found at its beginning, where what is found in a part is found in what holds it.
pub proof fn lemma_found_above(
    kind: spec_fn(Node) -> bool,
    found: spec_fn(Node) -> bool,
    node: Node,
    way: Seq<int>,
)
    requires
        forall|part: Node| #[trigger] kind(part) ==> found(part),
        forall|part: Node| #[trigger] any(found, held(part)) ==> found(part),
        part_at(node, way) matches Some(part) && kind(part),
    ensures
        found(node),
    decreases way.len(),
{
    if way.len() > 0 {
        let next = held(node)[way[0]];
        lemma_found_above(kind, found, next, way.drop_first());
        assert(found(held(node)[way[0]]));
        assert(any(found, held(node)));
    }
}

/// A way down from a held part is one from what holds it.
pub proof fn lemma_one_step_down(node: Node, at: int, way: Seq<int>)
    requires
        0 <= at < held(node).len(),
    ensures
        part_at(node, seq![at] + way) == part_at(held(node)[at], way),
{
    assert((seq![at] + way).drop_first() =~= way);
}

/// What is found in the parts of a statement is found in one of their runs.
pub proof fn lemma_any_of_stmt(found: spec_fn(Node) -> bool, stmt: Statement)
    ensures
        any(found, stmt_parts(stmt)) <==> match stmt {
            Statement::Expr(expr) => any(found, one(expr)),
            Statement::Assignment(a) => any(found, one(a.value)),
            Statement::FieldAssignment { object, value, .. } => any(found, one(object)) || any(found, one(value)),
            Statement::IndexAssignment { object, index, value } => any(found, one(object)) || any(found, one(index)) || any(found, one(value)),
            Statement::Return(value) => any(found, optional(value)),
            Statement::If(i) => any(found, one(i.condition)) || any(found, self::stmts(i.then_body@)) || any(found, self::elifs(i.elif_branches@)) || any(found, body(i.else_body)),
            Statement::While { condition, body } => any(found, one(condition)) || any(found, self::stmts(body@)),
            Statement::For { iter, body, .. } => any(found, one(iter)) || any(found, self::stmts(body@)),
            Statement::Pass | Statement::Break | Statement::Continue => false,
            Statement::CompoundAssignment { value, .. } => any(found, one(value)),
            Statement::TupleUnpack { value, .. } => any(found, one(value)),
            Statement::TupleAssign { targets, value } => any(found, self::exprs(targets@)) || any(found, one(value)),
            Statement::ChainedAssignment { value, .. } => any(found, one(value)),
        },
{
    match stmt {
        Statement::FieldAssignment { object, value, .. } => {
            lemma_any_of_both(found, one(object), one(value));
        },
        Statement::IndexAssignment { object, index, value } => {
            lemma_any_of_both(found, one(object), one(index));
            lemma_any_of_both(found, one(object) + one(index), one(value));
        },
        Statement::If(i) => {
            lemma_any_of_both(found, one(i.condition), self::stmts(i.then_body@));
            lemma_any_of_both(found, one(i.condition) + self::stmts(i.then_body@), self::elifs(i.elif_branches@));
            lemma_any_of_both(found, one(i.condition) + self::stmts(i.then_body@) + self::elifs(i.elif_branches@), body(i.else_body));
        },
        Statement::While { condition, body } => {
            lemma_any_of_both(found, one(condition), self::stmts(body@));
        },
        Statement::For { iter, body, .. } => {
            lemma_any_of_both(found, one(iter), self::stmts(body@));
        },
        Statement::TupleAssign { targets, value } => {
            lemma_any_of_both(found, self::exprs(targets@), one(value));
        },
        _ => {},
    }
}

/// What is found in the parts of an expression is found in one of their runs.
pub proof fn lemma_any_of_expr(found: spec_fn(Node) -> bool, expr: Expr)
    ensures
        any(found, expr_parts(expr)) <==> match expr {
            Expr::Ident(_) | Expr::Literal(_) | Expr::SelfExpr => false,
            Expr::Binary(left, _, right) => any(found, one(left)) || any(found, one(right)),
            Expr::Unary(_, inner) => any(found, one(inner)),
            Expr::Call(function, args) => any(found, one(function)) || any(found, self::args(args@)),
            Expr::MethodCall(receiver, _, args) => any(found, one(receiver)) || any(found, self::args(args@)),
            Expr::Field(base, _) => any(found, one(base)),
            Expr::Index(base, index) => any(found, one(base)) || any(found, one(index)),
            Expr::Slice(base, bounds) => any(found, one(base)) || any(found, optional(bounds.start)) || any(found, optional(bounds.end)) || any(found, optional(bounds.step)),
            Expr::Await(inner) => any(found, one(inner)),
            Expr::Try(inner) => any(found, one(inner)),
            Expr::If(i) => any(found, one(i.condition)) || any(found, self::stmts(i.then_body@)) || any(found, body(i.else_body)),
            Expr::Match(scrutinee, arms) => any(found, one(scrutinee)) || any(found, self::arms(arms@)),
            Expr::Closure(_, inner) => any(found, one(inner)),
            Expr::List(items) | Expr::Tuple(items) | Expr::SetLiteral(items) => any(found, self::exprs(items@)),
            Expr::Dict(entries) => any(found, self::entries(entries@)),
            Expr::FString(parts) => any(found, self::parts(parts@)),
            Expr::ListComp(comp) => any(found, one(comp.expr)) || any(found, one(comp.iter)) || any(found, optional(comp.filter)),
            Expr::DictComp(comp) => any(found, one(comp.key)) || any(found, one(comp.value)) || any(found, one(comp.iter)) || any(found, optional(comp.filter)),
            Expr::Constructor(_, args) => any(found, self::args(args@)),
            Expr::Paren(inner) => any(found, one(inner)),
        },
{
    match expr {
        Expr::Binary(left, _, right) => {
            lemma_any_of_both(found, one(left), one(right));
        },
        Expr::Call(function, args) => {
            lemma_any_of_both(found, one(function), self::args(args@));
        },
        Expr::MethodCall(receiver, _, args) => {
            lemma_any_of_both(found, one(receiver), self::args(args@));
        },
        Expr::Index(base, index) => {
            lemma_any_of_both(found, one(base), one(index));
        },
        Expr::Slice(base, bounds) => {
            lemma_any_of_both(found, one(base), optional(bounds.start));
            lemma_any_of_both(found, one(base) + optional(bounds.start), optional(bounds.end));
            lemma_any_of_both(found, one(base) + optional(bounds.start) + optional(bounds.end), optional(bounds.step));
        },
        Expr::If(i) => {
            lemma_any_of_both(found, one(i.condition), self::stmts(i.then_body@));
            lemma_any_of_both(found, one(i.condition) + self::stmts(i.then_body@), body(i.else_body));
        },
        Expr::Match(scrutinee, arms) => {
            lemma_any_of_both(found, one(scrutinee), self::arms(arms@));
        },
        Expr::ListComp(comp) => {
            lemma_any_of_both(found, one(comp.expr), one(comp.iter));
            lemma_any_of_both(found, one(comp.expr) + one(comp.iter), optional(comp.filter));
        },
        Expr::DictComp(comp) => {
            lemma_any_of_both(found, one(comp.key), one(comp.value));
            lemma_any_of_both(found, one(comp.key) + one(comp.value), one(comp.iter));
            lemma_any_of_both(found, one(comp.key) + one(comp.value) + one(comp.iter), optional(comp.filter));
        },
        _ => {},
    }
}

/// What is found in the parts of a declaration is found in one of their runs.
pub proof fn lemma_any_of_decl(found: spec_fn(Node) -> bool, decl: Declaration)
    ensures
        any(found, decl_parts(decl)) <==> match decl {
            Declaration::Function(f) => any(found, self::stmts(f.body@)),
            Declaration::Model(m) => any(found, self::fields(m.fields@)) || any(found, self::methods(m.methods@)),
            Declaration::Class(c) => any(found, self::fields(c.fields@)) || any(found, self::methods(c.methods@)) || any(found, self::properties(c.properties@)),
            Declaration::Trait(t) => any(found, self::methods(t.methods@)),
            Declaration::Const(c) => any(found, one(c.value)),
            Declaration::Import(_) | Declaration::Enum(_) | Declaration::Newtype(_) | Declaration::Docstring(_) => false,
        },
{
    match decl {
        Declaration::Model(m) => {
            lemma_any_of_both(found, self::fields(m.fields@), self::methods(m.methods@));
        },
        Declaration::Class(c) => {
            lemma_any_of_both(found, self::fields(c.fields@), self::methods(c.methods@));
            lemma_any_of_both(found, self::fields(c.fields@) + self::methods(c.methods@), self::properties(c.properties@));
        },
        _ => {},
    }
}

/// Whether a part of a certain kind stands anywhere in a part.
pub open spec fn having(kind: spec_fn(Node) -> bool) -> spec_fn(Node) -> bool {
    |part: Node| has_part(part, kind)
}

/// What stands in a held part stands in what holds it.
pub proof fn lemma_has_part_above(node: Node, kind: spec_fn(Node) -> bool)
    requires
        any(having(kind), held(node)),
    ensures
        has_part(node, kind),
{
    let has = having(kind);
    let at = choose|i: int| 0 <= i < held(node).len() && has(#[trigger] held(node)[i]);
    let way = choose|way: Seq<int>| #[trigger] part_at(held(node)[at], way) matches Some(part) && kind(part);
    lemma_one_step_down(node, at, way);
    assert(part_at(node, seq![at] + way) matches Some(part) && kind(part));
}

/// A part of a kind stands in itself.
pub proof fn lemma_has_itself(node: Node, kind: spec_fn(Node) -> bool)
    requires
        kind(node),
    ensures
        has_part(node, kind),
{
    assert(part_at(node, Seq::empty()) == Some(node));
}

/// Statements hold every expression and every body that they are made of.
pub proof fn law_statements_hold_their_parts(stmt: &Statement)
    ensures
        match *stmt {
            Statement::Expr(expr) => stmt_parts(*stmt).contains(Node::Expr(expr.node)),
            Statement::Assignment(a) => stmt_parts(*stmt).contains(Node::Expr(a.value.node)),
            Statement::FieldAssignment { object, value, .. } => stmt_parts(*stmt).contains(Node::Expr(object.node))
                && stmt_parts(*stmt).contains(Node::Expr(value.node)),
            Statement::IndexAssignment { object, index, value } => stmt_parts(*stmt).contains(Node::Expr(object.node))
                && stmt_parts(*stmt).contains(Node::Expr(index.node))
                && stmt_parts(*stmt).contains(Node::Expr(value.node)),
            Statement::Return(value) => (value matches Some(e) ==> stmt_parts(*stmt).contains(Node::Expr(e.node))),
            Statement::If(i) => stmt_parts(*stmt).contains(Node::Expr(i.condition.node))
                && (forall|k: int| 0 <= k < i.then_body@.len() ==> stmt_parts(*stmt).contains(Node::Stmt((#[trigger] i.then_body@[k]).node)))
                && (forall|k: int| 0 <= k < i.elif_branches@.len() ==> stmt_parts(*stmt).contains(Node::Elif((#[trigger] i.elif_branches@[k]))))
                && (i.else_body matches Some(b) ==> (forall|k: int| 0 <= k < b@.len() ==> stmt_parts(*stmt).contains(Node::Stmt((#[trigger] b@[k]).node)))),
            Statement::While { condition, body } => stmt_parts(*stmt).contains(Node::Expr(condition.node))
                && (forall|k: int| 0 <= k < body@.len() ==> stmt_parts(*stmt).contains(Node::Stmt((#[trigger] body@[k]).node))),
            Statement::For { iter, body, .. } => stmt_parts(*stmt).contains(Node::Expr(iter.node))
                && (forall|k: int| 0 <= k < body@.len() ==> stmt_parts(*stmt).contains(Node::Stmt((#[trigger] body@[k]).node))),
            Statement::CompoundAssignment { value, .. } => stmt_parts(*stmt).contains(Node::Expr(value.node)),
            Statement::TupleUnpack { value, .. } => stmt_parts(*stmt).contains(Node::Expr(value.node)),
            Statement::TupleAssign { targets, value } => (forall|k: int| 0 <= k < targets@.len() ==> stmt_parts(*stmt).contains(Node::Expr((#[trigger] targets@[k]).node)))
                && stmt_parts(*stmt).contains(Node::Expr(value.node)),
            Statement::ChainedAssignment { value, .. } => stmt_parts(*stmt).contains(Node::Expr(value.node)),
            _ => stmt_parts(*stmt).len() == 0,
        },
{
    match *stmt {
        Statement::Expr(expr) => {
            let is = |node: Node| node == Node::Expr(expr.node);
            lemma_any_of_stmt(is, *stmt);
            lemma_any_of_one(is, expr);
        },
        Statement::Assignment(a) => {
            let is = |node: Node| node == Node::Expr(a.value.node);
            lemma_any_of_stmt(is, *stmt);
            lemma_any_of_one(is, a.value);
        },
        Statement::FieldAssignment { object, value, .. } => {
            let is = |node: Node| node == Node::Expr(object.node);
            lemma_any_of_stmt(is, *stmt);
            lemma_any_of_one(is, object);
            let is = |node: Node| node == Node::Expr(value.node);
            lemma_any_of_stmt(is, *stmt);
            lemma_any_of_one(is, value);
        },
        Statement::IndexAssignment { object, index, value } => {
            let is = |node: Node| node == Node::Expr(object.node);
            lemma_any_of_stmt(is, *stmt);
            lemma_any_of_one(is, object);
            let is = |node: Node| node == Node::Expr(index.node);
            lemma_any_of_stmt(is, *stmt);
            lemma_any_of_one(is, index);
            let is = |node: Node| node == Node::Expr(value.node);
            lemma_any_of_stmt(is, *stmt);
            lemma_any_of_one(is, value);
        },
        Statement::Return(value) => {
            match value {
                Some(e) => {
                    let is = |node: Node| node == Node::Expr(e.node);
                    lemma_any_of_stmt(is, *stmt);
                    lemma_any_of_one(is, e);
                },
                None => {},
            }
        },
        Statement::If(i) => {
            let is = |node: Node| node == Node::Expr(i.condition.node);
            lemma_any_of_stmt(is, *stmt);
            lemma_any_of_one(is, i.condition);
            assert forall|k: int| 0 <= k < i.then_body@.len() implies stmt_parts(*stmt).contains(
                Node::Stmt((#[trigger] i.then_body@[k]).node),
            ) by {
                let is = |node: Node| node == Node::Stmt(i.then_body@[k].node);
                lemma_any_of_stmt(is, *stmt);
                assert(is(self::stmts(i.then_body@)[k]));
            }
            assert forall|k: int| 0 <= k < i.elif_branches@.len() implies stmt_parts(*stmt).contains(
                Node::Elif((#[trigger] i.elif_branches@[k])),
            ) by {
                let is = |node: Node| node == Node::Elif(i.elif_branches@[k]);
                lemma_any_of_stmt(is, *stmt);
                assert(is(self::elifs(i.elif_branches@)[k]));
            }
            match i.else_body {
                Some(b) => {
                    assert forall|k: int| 0 <= k < b@.len() implies stmt_parts(*stmt).contains(
                Node::Stmt((#[trigger] b@[k]).node),
            ) by {
                let is = |node: Node| node == Node::Stmt(b@[k].node);
                lemma_any_of_stmt(is, *stmt);
                assert(is(self::stmts(b@)[k]));
            }
                },
                None => {},
            }
        },
        Statement::While { condition, body } => {
            let is = |node: Node| node == Node::Expr(condition.node);
            lemma_any_of_stmt(is, *stmt);
            lemma_any_of_one(is, condition);
            assert forall|k: int| 0 <= k < body@.len() implies stmt_parts(*stmt).contains(
                Node::Stmt((#[trigger] body@[k]).node),
            ) by {
                let is = |node: Node| node == Node::Stmt(body@[k].node);
                lemma_any_of_stmt(is, *stmt);
                assert(is(self::stmts(body@)[k]));
            }
        },
        Statement::For { iter, body, .. } => {
            let is = |node: Node| node == Node::Expr(iter.node);
            lemma_any_of_stmt(is, *stmt);
            lemma_any_of_one(is, iter);
            assert forall|k: int| 0 <= k < body@.len() implies stmt_parts(*stmt).contains(
                Node::Stmt((#[trigger] body@[k]).node),
            ) by {
                let is = |node: Node| node == Node::Stmt(body@[k].node);
                lemma_any_of_stmt(is, *stmt);
                assert(is(self::stmts(body@)[k]));
            }
        },
        Statement::CompoundAssignment { value, .. } => {
            let is = |node: Node| node == Node::Expr(value.node);
            lemma_any_of_stmt(is, *stmt);
            lemma_any_of_one(is, value);
        },
        Statement::TupleUnpack { value, .. } => {
            let is = |node: Node| node == Node::Expr(value.node);
            lemma_any_of_stmt(is, *stmt);
            lemma_any_of_one(is, value);
        },
        Statement::TupleAssign { targets, value } => {
            assert forall|k: int| 0 <= k < targets@.len() implies stmt_parts(*stmt).contains(
                Node::Expr((#[trigger] targets@[k]).node),
            ) by {
                let is = |node: Node| node == Node::Expr(targets@[k].node);
                lemma_any_of_stmt(is, *stmt);
                assert(is(self::exprs(targets@)[k]));
            }
            let is = |node: Node| node == Node::Expr(value.node);
            lemma_any_of_stmt(is, *stmt);
            lemma_any_of_one(is, value);
        },
        Statement::ChainedAssignment { value, .. } => {
            let is = |node: Node| node == Node::Expr(value.node);
            lemma_any_of_stmt(is, *stmt);
            lemma_any_of_one(is, value);
        },
        _ => {},
    }
}

/// Expressions hold every expression and every body that they are made of.
pub proof fn law_expressions_hold_their_parts(expr: &Expr)
    ensures
        match *expr {
            Expr::Binary(left, _, right) => expr_parts(*expr).contains(Node::Expr(left.node))
                && expr_parts(*expr).contains(Node::Expr(right.node)),
            Expr::Unary(_, inner) => expr_parts(*expr).contains(Node::Expr(inner.node)),
            Expr::Call(function, args) => expr_parts(*expr).contains(Node::Expr(function.node))
                && (forall|k: int| 0 <= k < args@.len() ==> expr_parts(*expr).contains(Node::Arg((#[trigger] args@[k])))),
            Expr::MethodCall(receiver, _, args) => expr_parts(*expr).contains(Node::Expr(receiver.node))
                && (forall|k: int| 0 <= k < args@.len() ==> expr_parts(*expr).contains(Node::Arg((#[trigger] args@[k])))),
            Expr::Field(base, _) => expr_parts(*expr).contains(Node::Expr(base.node)),
            Expr::Index(base, index) => expr_parts(*expr).contains(Node::Expr(base.node))
                && expr_parts(*expr).contains(Node::Expr(index.node)),
            Expr::Slice(base, bounds) => expr_parts(*expr).contains(Node::Expr(base.node))
                && (bounds.start matches Some(e) ==> expr_parts(*expr).contains(Node::Expr(e.node)))
                && (bounds.end matches Some(e) ==> expr_parts(*expr).contains(Node::Expr(e.node)))
                && (bounds.step matches Some(e) ==> expr_parts(*expr).contains(Node::Expr(e.node))),
            Expr::Await(inner) => expr_parts(*expr).contains(Node::Expr(inner.node)),
            Expr::Try(inner) => expr_parts(*expr).contains(Node::Expr(inner.node)),
            Expr::If(i) => expr_parts(*expr).contains(Node::Expr(i.condition.node))
                && (forall|k: int| 0 <= k < i.then_body@.len() ==> expr_parts(*expr).contains(Node::Stmt((#[trigger] i.then_body@[k]).node)))
                && (i.else_body matches Some(b) ==> (forall|k: int| 0 <= k < b@.len() ==> expr_parts(*expr).contains(Node::Stmt((#[trigger] b@[k]).node)))),
            Expr::Match(scrutinee, arms) => expr_parts(*expr).contains(Node::Expr(scrutinee.node))
                && (forall|k: int| 0 <= k < arms@.len() ==> expr_parts(*expr).contains(Node::Arm((#[trigger] arms@[k]).node))),
            Expr::Closure(_, inner) => expr_parts(*expr).contains(Node::Expr(inner.node)),
            Expr::List(items) | Expr::Tuple(items) | Expr::SetLiteral(items) => (forall|k: int| 0 <= k < items@.len() ==> expr_parts(*expr).contains(Node::Expr((#[trigger] items@[k]).node))),
            Expr::Dict(entries) => (forall|k: int| 0 <= k < entries@.len() ==> expr_parts(*expr).contains(Node::Entry((#[trigger] entries@[k])))),
            Expr::FString(parts) => (forall|k: int| 0 <= k < parts@.len() ==> expr_parts(*expr).contains(Node::Part((#[trigger] parts@[k])))),
            Expr::ListComp(comp) => expr_parts(*expr).contains(Node::Expr(comp.expr.node))
                && expr_parts(*expr).contains(Node::Expr(comp.iter.node))
                && (comp.filter matches Some(e) ==> expr_parts(*expr).contains(Node::Expr(e.node))),
            Expr::DictComp(comp) => expr_parts(*expr).contains(Node::Expr(comp.key.node))
                && expr_parts(*expr).contains(Node::Expr(comp.value.node))
                && expr_parts(*expr).contains(Node::Expr(comp.iter.node))
                && (comp.filter matches Some(e) ==> expr_parts(*expr).contains(Node::Expr(e.node))),
            Expr::Constructor(_, args) => (forall|k: int| 0 <= k < args@.len() ==> expr_parts(*expr).contains(Node::Arg((#[trigger] args@[k])))),
            Expr::Paren(inner) => expr_parts(*expr).contains(Node::Expr(inner.node)),
            _ => expr_parts(*expr).len() == 0,
        },
{
    match *expr {
        Expr::Binary(left, _, right) => {
            let is = |node: Node| node == Node::Expr(left.node);
            lemma_any_of_expr(is, *expr);
            lemma_any_of_one(is, left);
            let is = |node: Node| node == Node::Expr(right.node);
            lemma_any_of_expr(is, *expr);
            lemma_any_of_one(is, right);
        },
        Expr::Unary(_, inner) => {
            let is = |node: Node| node == Node::Expr(inner.node);
            lemma_any_of_expr(is, *expr);
            lemma_any_of_one(is, inner);
        },
        Expr::Call(function, args) => {
            let is = |node: Node| node == Node::Expr(function.node);
            lemma_any_of_expr(is, *expr);
            lemma_any_of_one(is, function);
            assert forall|k: int| 0 <= k < args@.len() implies expr_parts(*expr).contains(
                Node::Arg((#[trigger] args@[k])),
            ) by {
                let is = |node: Node| node == Node::Arg(args@[k]);
                lemma_any_of_expr(is, *expr);
                assert(is(self::args(args@)[k]));
            }
        },
        Expr::MethodCall(receiver, _, args) => {
            let is = |node: Node| node == Node::Expr(receiver.node);
            lemma_any_of_expr(is, *expr);
            lemma_any_of_one(is, receiver);
            assert forall|k: int| 0 <= k < args@.len() implies expr_parts(*expr).contains(
                Node::Arg((#[trigger] args@[k])),
            ) by {
                let is = |node: Node| node == Node::Arg(args@[k]);
                lemma_any_of_expr(is, *expr);
                assert(is(self::args(args@)[k]));
            }
        },
        Expr::Field(base, _) => {
            let is = |node: Node| node == Node::Expr(base.node);
            lemma_any_of_expr(is, *expr);
            lemma_any_of_one(is, base);
        },
        Expr::Index(base, index) => {
            let is = |node: Node| node == Node::Expr(base.node);
            lemma_any_of_expr(is, *expr);
            lemma_any_of_one(is, base);
            let is = |node: Node| node == Node::Expr(index.node);
            lemma_any_of_expr(is, *expr);
            lemma_any_of_one(is, index);
        },
        Expr::Slice(base, bounds) => {
            let is = |node: Node| node == Node::Expr(base.node);
            lemma_any_of_expr(is, *expr);
            lemma_any_of_one(is, base);
            match bounds.start {
                Some(e) => {
                    let is = |node: Node| node == Node::Expr(e.node);
                    lemma_any_of_expr(is, *expr);
                    lemma_any_of_one(is, e);
                },
                None => {},
            }
            match bounds.end {
                Some(e) => {
                    let is = |node: Node| node == Node::Expr(e.node);
                    lemma_any_of_expr(is, *expr);
                    lemma_any_of_one(is, e);
                },
                None => {},
            }
            match bounds.step {
                Some(e) => {
                    let is = |node: Node| node == Node::Expr(e.node);
                    lemma_any_of_expr(is, *expr);
                    lemma_any_of_one(is, e);
                },
                None => {},
            }
        },
        Expr::Await(inner) => {
            let is = |node: Node| node == Node::Expr(inner.node);
            lemma_any_of_expr(is, *expr);
            lemma_any_of_one(is, inner);
        },
        Expr::Try(inner) => {
            let is = |node: Node| node == Node::Expr(inner.node);
            lemma_any_of_expr(is, *expr);
            lemma_any_of_one(is, inner);
        },
        Expr::If(i) => {
            let is = |node: Node| node == Node::Expr(i.condition.node);
            lemma_any_of_expr(is, *expr);
            lemma_any_of_one(is, i.condition);
            assert forall|k: int| 0 <= k < i.then_body@.len() implies expr_parts(*expr).contains(
                Node::Stmt((#[trigger] i.then_body@[k]).node),
            ) by {
                let is = |node: Node| node == Node::Stmt(i.then_body@[k].node);
                lemma_any_of_expr(is, *expr);
                assert(is(self::stmts(i.then_body@)[k]));
            }
            match i.else_body {
                Some(b) => {
                    assert forall|k: int| 0 <= k < b@.len() implies expr_parts(*expr).contains(
                Node::Stmt((#[trigger] b@[k]).node),
            ) by {
                let is = |node: Node| node == Node::Stmt(b@[k].node);
                lemma_any_of_expr(is, *expr);
                assert(is(self::stmts(b@)[k]));
            }
                },
                None => {},
            }
        },
        Expr::Match(scrutinee, arms) => {
            let is = |node: Node| node == Node::Expr(scrutinee.node);
            lemma_any_of_expr(is, *expr);
            lemma_any_of_one(is, scrutinee);
            assert forall|k: int| 0 <= k < arms@.len() implies expr_parts(*expr).contains(
                Node::Arm((#[trigger] arms@[k]).node),
            ) by {
                let is = |node: Node| node == Node::Arm(arms@[k].node);
                lemma_any_of_expr(is, *expr);
                assert(is(self::arms(arms@)[k]));
            }
        },
        Expr::Closure(_, inner) => {
            let is = |node: Node| node == Node::Expr(inner.node);
            lemma_any_of_expr(is, *expr);
            lemma_any_of_one(is, inner);
        },
        Expr::List(items) | Expr::Tuple(items) | Expr::SetLiteral(items) => {
            assert forall|k: int| 0 <= k < items@.len() implies expr_parts(*expr).contains(
                Node::Expr((#[trigger] items@[k]).node),
            ) by {
                let is = |node: Node| node == Node::Expr(items@[k].node);
                lemma_any_of_expr(is, *expr);
                assert(is(self::exprs(items@)[k]));
            }
        },
        Expr::Dict(entries) => {
            assert forall|k: int| 0 <= k < entries@.len() implies expr_parts(*expr).contains(
                Node::Entry((#[trigger] entries@[k])),
            ) by {
                let is = |node: Node| node == Node::Entry(entries@[k]);
                lemma_any_of_expr(is, *expr);
                assert(is(self::entries(entries@)[k]));
            }
        },
        Expr::FString(parts) => {
            assert forall|k: int| 0 <= k < parts@.len() implies expr_parts(*expr).contains(
                Node::Part((#[trigger] parts@[k])),
            ) by {
                let is = |node: Node| node == Node::Part(parts@[k]);
                lemma_any_of_expr(is, *expr);
                assert(is(self::parts(parts@)[k]));
            }
        },
        Expr::ListComp(comp) => {
            let is = |node: Node| node == Node::Expr(comp.expr.node);
            lemma_any_of_expr(is, *expr);
            lemma_any_of_one(is, comp.expr);
            let is = |node: Node| node == Node::Expr(comp.iter.node);
            lemma_any_of_expr(is, *expr);
            lemma_any_of_one(is, comp.iter);
            match comp.filter {
                Some(e) => {
                    let is = |node: Node| node == Node::Expr(e.node);
                    lemma_any_of_expr(is, *expr);
                    lemma_any_of_one(is, e);
                },
                None => {},
            }
        },
        Expr::DictComp(comp) => {
            let is = |node: Node| node == Node::Expr(comp.key.node);
            lemma_any_of_expr(is, *expr);
            lemma_any_of_one(is, comp.key);
            let is = |node: Node| node == Node::Expr(comp.value.node);
            lemma_any_of_expr(is, *expr);
            lemma_any_of_one(is, comp.value);
            let is = |node: Node| node == Node::Expr(comp.iter.node);
            lemma_any_of_expr(is, *expr);
            lemma_any_of_one(is, comp.iter);
            match comp.filter {
                Some(e) => {
                    let is = |node: Node| node == Node::Expr(e.node);
                    lemma_any_of_expr(is, *expr);
                    lemma_any_of_one(is, e);
                },
                None => {},
            }
        },
        Expr::Constructor(_, args) => {
            assert forall|k: int| 0 <= k < args@.len() implies expr_parts(*expr).contains(
                Node::Arg((#[trigger] args@[k])),
            ) by {
                let is = |node: Node| node == Node::Arg(args@[k]);
                lemma_any_of_expr(is, *expr);
                assert(is(self::args(args@)[k]));
            }
        },
        Expr::Paren(inner) => {
            let is = |node: Node| node == Node::Expr(inner.node);
            lemma_any_of_expr(is, *expr);
            lemma_any_of_one(is, inner);
        },
        _ => {},
    }
}

} // verus!
