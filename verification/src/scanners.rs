//! Feature scanners over the syntax tree.
//!
//! The scanners only read the tree. They decide which runtime crates a generated project needs.

use crate::ast::{
    CallArg, Declaration, Decorator, DecoratorArg, DecoratorArgValue, DictEntry, ElifBranch, Expr, FStringPart,
    FieldDecl, FunctionDecl, ImportKind, Literal, MatchArm, MatchBody, MethodDecl, Program, PropertyDecl, Spanned,
    Statement,
};
use crate::parts::{has_part, Node};
use crate::scan_laws::{calls_helper, is_async_part, law_async_code_is_found, law_list_helpers_are_found};
use crate::text::{same_text, texts};
use std::rc::Rc;
use vstd::prelude::*;

verus! {

broadcast use vstd::string::group_string_axioms;

// ---------------------------------------------------------------------------
// Serialization
// ---------------------------------------------------------------------------

/// Whether a decorator argument names one of the serialization derives.
pub open spec fn names_serde(arg: DecoratorArg) -> bool {
    arg matches DecoratorArg::Positional(expr) && expr.node matches Expr::Ident(name) && (name@ == "Serialize"@
        || name@ == "Deserialize"@)
}

/// Whether a decorator derives serialization.
pub open spec fn derives_serde(decorator: Decorator) -> bool {
    decorator.name@ == "derive"@ && exists|i: int|
        0 <= i < decorator.args@.len() && names_serde(#[trigger] decorator.args@[i])
}

/// Whether any of some decorators derives serialization.
pub open spec fn any_derives_serde(decorators: Seq<Spanned<Decorator>>) -> bool {
    exists|i: int| 0 <= i < decorators.len() && derives_serde((#[trigger] decorators[i]).node)
}

/// Whether a declaration derives serialization.
pub open spec fn decl_uses_serde(decl: Declaration) -> bool {
    match decl {
        Declaration::Model(m) => any_derives_serde(m.decorators@),
        Declaration::Class(c) => any_derives_serde(c.decorators@),
        _ => false,
    }
}

/// Decides whether any of some decorators derives serialization.
fn decorators_use_serde(decorators: &Vec<Spanned<Decorator>>) -> (found: bool)
    ensures
        found == any_derives_serde(decorators@),
{
    let mut i: usize = 0;
    while i < decorators.len()
        invariant
            i <= decorators@.len(),
            forall|j: int| 0 <= j < i ==> !derives_serde((#[trigger] decorators@[j]).node),
        decreases decorators@.len() - i,
    {
        if decorator_uses_serde(&decorators[i].node) {
            proof {
                assert(derives_serde(decorators@[i as int].node));
            }
            return true;
        }
        i += 1;
    }
    false
}

/// Decides whether a decorator derives serialization.
fn decorator_uses_serde(decorator: &Decorator) -> (found: bool)
    ensures
        found == derives_serde(*decorator),
{
    if !same_text(decorator.name.as_str(), "derive") {
        return false;
    }
    let mut i: usize = 0;
    while i < decorator.args.len()
        invariant
            i <= decorator.args@.len(),
            decorator.name@ == "derive"@,
            forall|j: int| 0 <= j < i ==> !names_serde(#[trigger] decorator.args@[j]),
        decreases decorator.args@.len() - i,
    {
        let named: bool = match &decorator.args[i] {
            DecoratorArg::Positional(expr) => match &expr.node {
                Expr::Ident(name) => same_text(name.as_str(), "Serialize") || same_text(
                    name.as_str(),
                    "Deserialize",
                ),
                _ => false,
            },
            _ => false,
        };
        if named {
            proof {
                assert(names_serde(decorator.args@[i as int]));
            }
            return true;
        }
        i += 1;
    }
    false
}

/// Detects whether serialization derives are used anywhere in a program.
pub fn detect_serde_usage(program: &Program) -> (found: bool)
    ensures
        found == exists|i: int|
            0 <= i < program.declarations@.len() && decl_uses_serde((#[trigger] program.declarations@[i]).node),
{
    let decls: &Vec<Spanned<Declaration>> = &program.declarations;
    let mut i: usize = 0;
    while i < decls.len()
        invariant
            i <= decls@.len(),
            decls@ == program.declarations@,
            forall|j: int| 0 <= j < i ==> !decl_uses_serde((#[trigger] decls@[j]).node),
        decreases decls@.len() - i,
    {
        let used: bool = match &decls[i].node {
            Declaration::Model(m) => decorators_use_serde(&m.decorators),
            Declaration::Class(c) => decorators_use_serde(&c.decorators),
            _ => false,
        };
        if used {
            proof {
                assert(decl_uses_serde(program.declarations@[i as int].node));
            }
            return true;
        }
        i += 1;
    }
    false
}

// ---------------------------------------------------------------------------
// Asynchronous code
// ---------------------------------------------------------------------------

/// Whether a called name belongs to the async runtime.
pub open spec fn runtime_call(function: Expr) -> bool {
    function matches Expr::Ident(name) && (name@ == "spawn"@ || name@ == "sleep"@ || name@ == "timeout"@ || name@
        == "channel"@ || name@ == "unbounded_channel"@)
}

/// Whether a body needs the async runtime.
pub open spec fn async_body(body: Seq<Spanned<Statement>>) -> bool
    decreases body,
{
    exists|i: int| 0 <= i < body.len() && async_stmt((#[trigger] body[i]).node)
}

/// Whether an optional body needs the async runtime.
pub open spec fn async_else(body: Option<Vec<Spanned<Statement>>>) -> bool
    decreases body,
{
    match body {
        Some(body) => async_body(body@),
        None => false,
    }
}

/// Whether a statement needs the async runtime, in any expression or body of it.
pub open spec fn async_stmt(stmt: Statement) -> bool
    decreases stmt,
{
    match stmt {
        Statement::Expr(expr) => async_expr(expr.node),
        Statement::Assignment(a) => async_expr(a.value.node),
        Statement::CompoundAssignment { value, .. } => async_expr(value.node),
        Statement::FieldAssignment { object, value, .. } => async_expr(object.node) || async_expr(value.node),
        Statement::IndexAssignment { object, index, value } => async_expr(object.node) || async_expr(index.node)
            || async_expr(value.node),
        Statement::TupleUnpack { value, .. } => async_expr(value.node),
        Statement::TupleAssign { targets, value } => async_exprs(targets@) || async_expr(value.node),
        Statement::ChainedAssignment { value, .. } => async_expr(value.node),
        Statement::Return(value) => async_option(value),
        Statement::If(i) => async_expr(i.condition.node) || async_body(i.then_body@) || async_elifs(i.elif_branches@)
            || async_else(i.else_body),
        Statement::While { condition, body } => async_expr(condition.node) || async_body(body@),
        Statement::For { iter, body, .. } => async_expr(iter.node) || async_body(body@),
        Statement::Pass | Statement::Break | Statement::Continue => false,
    }
}

/// Whether an expression needs the async runtime, in any part of it.
pub open spec fn async_expr(expr: Expr) -> bool
    decreases expr,
{
    match expr {
        Expr::Ident(_) | Expr::Literal(_) | Expr::SelfExpr => false,
        Expr::Await(_) => true,
        Expr::Call(function, args) => runtime_call(function.node) || async_expr(function.node) || async_args(args@),
        Expr::MethodCall(receiver, _, args) => async_expr(receiver.node) || async_args(args@),
        Expr::Binary(left, _, right) => async_expr(left.node) || async_expr(right.node),
        Expr::Unary(_, inner) => async_expr(inner.node),
        Expr::Field(base, _) => async_expr(base.node),
        Expr::Index(base, index) => async_expr(base.node) || async_expr(index.node),
        Expr::Slice(base, bounds) => async_expr(base.node) || async_option(bounds.start) || async_option(bounds.end)
            || async_option(bounds.step),
        Expr::If(i) => async_expr(i.condition.node) || async_body(i.then_body@) || async_else(i.else_body),
        Expr::Match(scrutinee, arms) => async_expr(scrutinee.node) || async_arms(arms@),
        Expr::Closure(_, body) => async_expr(body.node),
        Expr::List(items) | Expr::Tuple(items) | Expr::SetLiteral(items) => async_exprs(items@),
        Expr::Dict(entries) => async_entries(entries@),
        Expr::FString(parts) => async_parts(parts@),
        Expr::ListComp(comp) => async_expr(comp.expr.node) || async_expr(comp.iter.node) || async_option(comp.filter),
        Expr::DictComp(comp) => async_expr(comp.key.node) || async_expr(comp.value.node) || async_expr(comp.iter.node)
            || async_option(comp.filter),
        Expr::Constructor(_, args) => async_args(args@),
        Expr::Try(inner) => async_expr(inner.node),
        Expr::Paren(inner) => async_expr(inner.node),
    }
}

/// Whether an optional expression needs the async runtime.
pub open spec fn async_option(value: Option<Rc<Spanned<Expr>>>) -> bool
    decreases value,
{
    match value {
        Some(expr) => async_expr(expr.node),
        None => false,
    }
}

/// Whether an argument needs the async runtime.
pub open spec fn async_arg(arg: CallArg) -> bool
    decreases arg,
{
    match arg {
        CallArg::Positional(expr) => async_expr(expr.node),
        CallArg::Named(_, expr) => async_expr(expr.node),
    }
}

/// Whether the guard or the body of a match arm needs the async runtime.
pub open spec fn async_arm(arm: MatchArm) -> bool
    decreases arm,
{
    async_option(arm.guard) || match arm.body {
        MatchBody::Expr(expr) => async_expr(expr.node),
        MatchBody::Block(stmts) => async_body(stmts@),
    }
}

/// Whether the key or the value of a dictionary entry needs the async runtime.
pub open spec fn async_entry(entry: DictEntry) -> bool
    decreases entry,
{
    async_expr(entry.key.node) || async_expr(entry.value.node)
}

/// Whether a part of an interpolated string needs the async runtime.
pub open spec fn async_part(part: FStringPart) -> bool
    decreases part,
{
    match part {
        FStringPart::Literal(_) => false,
        FStringPart::Expr(expr) => async_expr(expr.node),
    }
}

/// Whether the condition or the body of an `elif` branch needs the async runtime.
pub open spec fn async_elif(branch: ElifBranch) -> bool
    decreases branch,
{
    async_expr(branch.condition.node) || async_body(branch.body@)
}

/// Whether any of some arguments needs the async runtime.
pub open spec fn async_args(items: Seq<CallArg>) -> bool
    decreases items,
{
    exists|i: int| 0 <= i < items.len() && async_arg(#[trigger] items[i])
}

/// Whether any of some match arms needs the async runtime.
pub open spec fn async_arms(items: Seq<Spanned<MatchArm>>) -> bool
    decreases items,
{
    exists|i: int| 0 <= i < items.len() && async_arm((#[trigger] items[i]).node)
}

/// Whether any of some expressions needs the async runtime.
pub open spec fn async_exprs(items: Seq<Rc<Spanned<Expr>>>) -> bool
    decreases items,
{
    exists|i: int| 0 <= i < items.len() && async_expr((#[trigger] items[i]).node)
}

/// Whether any of some dictionary entries needs the async runtime.
pub open spec fn async_entries(items: Seq<DictEntry>) -> bool
    decreases items,
{
    exists|i: int| 0 <= i < items.len() && async_entry(#[trigger] items[i])
}

/// Whether any of some interpolations needs the async runtime.
pub open spec fn async_parts(items: Seq<FStringPart>) -> bool
    decreases items,
{
    exists|i: int| 0 <= i < items.len() && async_part(#[trigger] items[i])
}

/// Whether any of some `elif` branches needs the async runtime.
pub open spec fn async_elifs(items: Seq<ElifBranch>) -> bool
    decreases items,
{
    exists|i: int| 0 <= i < items.len() && async_elif(#[trigger] items[i])
}

/// Decides whether any of some arguments needs the async runtime.
fn args_use_async(items: &Vec<CallArg>) -> (found: bool)
    ensures
        found == async_args(items@),
    decreases items,
{
    let mut i: usize = 0;
    while i < items.len()
        invariant
            i <= items@.len(),
            forall|j: int| 0 <= j < i ==> !async_arg(#[trigger] items@[j]),
        decreases items@.len() - i,
    {
        if call_arg_uses_async(&items[i]) {
            proof {
                assert(async_arg(items@[i as int]));
            }
            return true;
        }
        i += 1;
    }
    false
}

/// Decides whether any of some match arms needs the async runtime.
fn arms_use_async(items: &Vec<Spanned<MatchArm>>) -> (found: bool)
    ensures
        found == async_arms(items@),
    decreases items,
{
    let mut i: usize = 0;
    while i < items.len()
        invariant
            i <= items@.len(),
            forall|j: int| 0 <= j < i ==> !async_arm((#[trigger] items@[j]).node),
        decreases items@.len() - i,
    {
        if match_body_uses_async(&items[i].node) {
            proof {
                assert(async_arm(items@[i as int].node));
            }
            return true;
        }
        i += 1;
    }
    false
}

/// Decides whether any of some expressions needs the async runtime.
fn exprs_use_async(items: &Vec<Rc<Spanned<Expr>>>) -> (found: bool)
    ensures
        found == async_exprs(items@),
    decreases items,
{
    let mut i: usize = 0;
    while i < items.len()
        invariant
            i <= items@.len(),
            forall|j: int| 0 <= j < i ==> !async_expr((#[trigger] items@[j]).node),
        decreases items@.len() - i,
    {
        if expr_uses_async(&items[i].node) {
            proof {
                assert(async_expr(items@[i as int].node));
            }
            return true;
        }
        i += 1;
    }
    false
}

/// Decides whether any of some dictionary entries needs the async runtime.
fn entries_use_async(items: &Vec<DictEntry>) -> (found: bool)
    ensures
        found == async_entries(items@),
    decreases items,
{
    let mut i: usize = 0;
    while i < items.len()
        invariant
            i <= items@.len(),
            forall|j: int| 0 <= j < i ==> !async_entry(#[trigger] items@[j]),
        decreases items@.len() - i,
    {
        if entry_uses_async(&items[i]) {
            proof {
                assert(async_entry(items@[i as int]));
            }
            return true;
        }
        i += 1;
    }
    false
}

/// Decides whether any of some interpolations needs the async runtime.
fn parts_use_async(items: &Vec<FStringPart>) -> (found: bool)
    ensures
        found == async_parts(items@),
    decreases items,
{
    let mut i: usize = 0;
    while i < items.len()
        invariant
            i <= items@.len(),
            forall|j: int| 0 <= j < i ==> !async_part(#[trigger] items@[j]),
        decreases items@.len() - i,
    {
        if part_uses_async(&items[i]) {
            proof {
                assert(async_part(items@[i as int]));
            }
            return true;
        }
        i += 1;
    }
    false
}

/// Decides whether any of some `elif` branches needs the async runtime.
fn elifs_use_async(items: &Vec<ElifBranch>) -> (found: bool)
    ensures
        found == async_elifs(items@),
    decreases items,
{
    let mut i: usize = 0;
    while i < items.len()
        invariant
            i <= items@.len(),
            forall|j: int| 0 <= j < i ==> !async_elif(#[trigger] items@[j]),
        decreases items@.len() - i,
    {
        if elif_uses_async(&items[i]) {
            proof {
                assert(async_elif(items@[i as int]));
            }
            return true;
        }
        i += 1;
    }
    false
}

/// Decides whether a body needs the async runtime.
fn body_uses_async(items: &Vec<Spanned<Statement>>) -> (found: bool)
    ensures
        found == async_body(items@),
    decreases items,
{
    let mut i: usize = 0;
    while i < items.len()
        invariant
            i <= items@.len(),
            forall|j: int| 0 <= j < i ==> !async_stmt((#[trigger] items@[j]).node),
        decreases items@.len() - i,
    {
        if stmt_uses_async(&items[i].node) {
            proof {
                assert(async_stmt(items@[i as int].node));
            }
            return true;
        }
        i += 1;
    }
    false
}

/// Decides whether an optional body needs the async runtime.
fn else_uses_async(body: &Option<Vec<Spanned<Statement>>>) -> (found: bool)
    ensures
        found == async_else(*body),
    decreases body,
{
    match body {
        Some(body) => body_uses_async(body),
        None => false,
    }
}

/// Decides whether an optional expression needs the async runtime.
fn option_uses_async(value: &Option<Rc<Spanned<Expr>>>) -> (found: bool)
    ensures
        found == async_option(*value),
    decreases value,
{
    match value {
        Some(expr) => expr_uses_async(&expr.node),
        None => false,
    }
}

/// Decides whether an argument needs the async runtime.
fn call_arg_uses_async(arg: &CallArg) -> (found: bool)
    ensures
        found == async_arg(*arg),
    decreases arg,
{
    match arg {
        CallArg::Positional(expr) => expr_uses_async(&expr.node),
        CallArg::Named(_, expr) => expr_uses_async(&expr.node),
    }
}

/// Decides whether the guard or the body of a match arm needs the async runtime.
fn match_body_uses_async(arm: &MatchArm) -> (found: bool)
    ensures
        found == async_arm(*arm),
    decreases arm,
{
    option_uses_async(&arm.guard) || match &arm.body {
        MatchBody::Expr(expr) => expr_uses_async(&expr.node),
        MatchBody::Block(stmts) => body_uses_async(stmts),
    }
}

/// Decides whether the key or the value of a dictionary entry needs the async runtime.
fn entry_uses_async(entry: &DictEntry) -> (found: bool)
    ensures
        found == async_entry(*entry),
    decreases entry,
{
    expr_uses_async(&entry.key.node) || expr_uses_async(&entry.value.node)
}

/// Decides whether a part of an interpolated string needs the async runtime.
fn part_uses_async(part: &FStringPart) -> (found: bool)
    ensures
        found == async_part(*part),
    decreases part,
{
    match part {
        FStringPart::Literal(_) => false,
        FStringPart::Expr(expr) => expr_uses_async(&expr.node),
    }
}

/// Decides whether the condition or the body of an `elif` branch needs the async runtime.
fn elif_uses_async(branch: &ElifBranch) -> (found: bool)
    ensures
        found == async_elif(*branch),
    decreases branch,
{
    expr_uses_async(&branch.condition.node) || body_uses_async(&branch.body)
}

/// Decides whether a statement needs the async runtime.
fn stmt_uses_async(stmt: &Statement) -> (found: bool)
    ensures
        found == async_stmt(*stmt),
    decreases stmt,
{
    match stmt {
        Statement::Expr(expr) => expr_uses_async(&expr.node),
        Statement::Assignment(a) => expr_uses_async(&a.value.node),
        Statement::CompoundAssignment { value, .. } => expr_uses_async(&value.node),
        Statement::FieldAssignment { object, value, .. } => expr_uses_async(&object.node)
            || expr_uses_async(&value.node),
        Statement::IndexAssignment { object, index, value } => expr_uses_async(&object.node)
            || expr_uses_async(&index.node)
            || expr_uses_async(&value.node),
        Statement::TupleUnpack { value, .. } => expr_uses_async(&value.node),
        Statement::TupleAssign { targets, value } => exprs_use_async(targets) || expr_uses_async(&value.node),
        Statement::ChainedAssignment { value, .. } => expr_uses_async(&value.node),
        Statement::Return(value) => option_uses_async(value),
        Statement::If(i) => expr_uses_async(&i.condition.node) || body_uses_async(&i.then_body)
            || elifs_use_async(&i.elif_branches)
            || else_uses_async(&i.else_body),
        Statement::While { condition, body } => expr_uses_async(&condition.node) || body_uses_async(body),
        Statement::For { iter, body, .. } => expr_uses_async(&iter.node) || body_uses_async(body),
        Statement::Pass | Statement::Break | Statement::Continue => false,
    }
}

/// Decides whether a called name belongs to the async runtime.
fn is_runtime_call(function: &Expr) -> (found: bool)
    ensures
        found == runtime_call(*function),
{
    match function {
        Expr::Ident(name) => {
            let name: &str = name.as_str();
            same_text(name, "spawn") || same_text(name, "sleep") || same_text(name, "timeout") || same_text(
                name,
                "channel",
            ) || same_text(name, "unbounded_channel")
        },
        _ => false,
    }
}

/// Decides whether an expression needs the async runtime.
fn expr_uses_async(expr: &Expr) -> (found: bool)
    ensures
        found == async_expr(*expr),
    decreases expr,
{
    match expr {
        Expr::Ident(_) | Expr::Literal(_) | Expr::SelfExpr => false,
        Expr::Await(_) => true,
        Expr::Call(function, args) => is_runtime_call(&function.node) || expr_uses_async(&function.node)
            || args_use_async(args),
        Expr::MethodCall(receiver, _, args) => expr_uses_async(&receiver.node) || args_use_async(args),
        Expr::Binary(left, _, right) => expr_uses_async(&left.node) || expr_uses_async(&right.node),
        Expr::Unary(_, inner) => expr_uses_async(&inner.node),
        Expr::Field(base, _) => expr_uses_async(&base.node),
        Expr::Index(base, index) => expr_uses_async(&base.node) || expr_uses_async(&index.node),
        Expr::Slice(base, bounds) => expr_uses_async(&base.node) || option_uses_async(&bounds.start)
            || option_uses_async(&bounds.end)
            || option_uses_async(&bounds.step),
        Expr::If(i) => expr_uses_async(&i.condition.node) || body_uses_async(&i.then_body)
            || else_uses_async(&i.else_body),
        Expr::Match(scrutinee, arms) => expr_uses_async(&scrutinee.node) || arms_use_async(arms),
        Expr::Closure(_, body) => expr_uses_async(&body.node),
        Expr::List(items) | Expr::Tuple(items) | Expr::SetLiteral(items) => exprs_use_async(items),
        Expr::Dict(entries) => entries_use_async(entries),
        Expr::FString(parts) => parts_use_async(parts),
        Expr::ListComp(comp) => expr_uses_async(&comp.expr.node) || expr_uses_async(&comp.iter.node)
            || option_uses_async(&comp.filter),
        Expr::DictComp(comp) => expr_uses_async(&comp.key.node) || expr_uses_async(&comp.value.node)
            || expr_uses_async(&comp.iter.node)
            || option_uses_async(&comp.filter),
        Expr::Constructor(_, args) => args_use_async(args),
        Expr::Try(inner) => expr_uses_async(&inner.node),
        Expr::Paren(inner) => expr_uses_async(&inner.node),
    }
}

/// Whether a method needs the async runtime.
pub open spec fn async_method(method: MethodDecl) -> bool {
    method.is_async || async_else(method.body)
}

/// Whether any of some methods needs the async runtime.
pub open spec fn async_methods(items: Seq<Rc<Spanned<MethodDecl>>>) -> bool {
    exists|i: int| 0 <= i < items.len() && async_method((#[trigger] items[i]).node)
}

/// Whether any of some properties needs the async runtime.
pub open spec fn async_properties(items: Seq<Rc<Spanned<PropertyDecl>>>) -> bool {
    exists|i: int| 0 <= i < items.len() && async_body((#[trigger] items[i]).node.body@)
}

/// Whether any of the default values of some fields needs the async runtime.
pub open spec fn async_defaults(items: Seq<Spanned<FieldDecl>>) -> bool {
    exists|i: int| 0 <= i < items.len() && async_option((#[trigger] items[i]).node.default)
}

/// Whether a declaration needs the async runtime.
pub open spec fn async_decl(decl: Declaration) -> bool {
    match decl {
        Declaration::Function(f) => f.is_async || async_body(f.body@),
        Declaration::Model(m) => async_defaults(m.fields@) || async_methods(m.methods@),
        Declaration::Class(c) => async_defaults(c.fields@) || async_methods(c.methods@)
            || async_properties(c.properties@),
        Declaration::Trait(t) => async_methods(t.methods@),
        Declaration::Const(c) => async_expr(c.value.node),
        Declaration::Import(_) | Declaration::Enum(_) | Declaration::Newtype(_) | Declaration::Docstring(_) => false,
    }
}

/// Decides whether a method needs the async runtime.
fn method_uses_async(method: &MethodDecl) -> (found: bool)
    ensures
        found == async_method(*method),
{
    method.is_async || else_uses_async(&method.body)
}

/// Decides whether any of some methods needs the async runtime.
fn methods_use_async(items: &Vec<Rc<Spanned<MethodDecl>>>) -> (found: bool)
    ensures
        found == async_methods(items@),
{
    let mut i: usize = 0;
    while i < items.len()
        invariant
            i <= items@.len(),
            forall|j: int| 0 <= j < i ==> !async_method((#[trigger] items@[j]).node),
        decreases items@.len() - i,
    {
        if method_uses_async(&items[i].node) {
            proof {
                assert(async_method(items@[i as int].node));
            }
            return true;
        }
        i += 1;
    }
    false
}

/// Decides whether any of some properties needs the async runtime.
fn properties_use_async(items: &Vec<Rc<Spanned<PropertyDecl>>>) -> (found: bool)
    ensures
        found == async_properties(items@),
{
    let mut i: usize = 0;
    while i < items.len()
        invariant
            i <= items@.len(),
            forall|j: int| 0 <= j < i ==> !async_body((#[trigger] items@[j]).node.body@),
        decreases items@.len() - i,
    {
        if body_uses_async(&items[i].node.body) {
            proof {
                assert(async_body(items@[i as int].node.body@));
            }
            return true;
        }
        i += 1;
    }
    false
}

/// Decides whether any of the default values of some fields needs the async runtime.
fn defaults_use_async(items: &Vec<Spanned<FieldDecl>>) -> (found: bool)
    ensures
        found == async_defaults(items@),
{
    let mut i: usize = 0;
    while i < items.len()
        invariant
            i <= items@.len(),
            forall|j: int| 0 <= j < i ==> !async_option((#[trigger] items@[j]).node.default),
        decreases items@.len() - i,
    {
        if option_uses_async(&items[i].node.default) {
            proof {
                assert(async_option(items@[i as int].node.default));
            }
            return true;
        }
        i += 1;
    }
    false
}

/// Decides whether a declaration needs the async runtime.
fn decl_uses_async(decl: &Declaration) -> (found: bool)
    ensures
        found == async_decl(*decl),
{
    match decl {
        Declaration::Function(f) => f.is_async || body_uses_async(&f.body),
        Declaration::Model(m) => defaults_use_async(&m.fields) || methods_use_async(&m.methods),
        Declaration::Class(c) => defaults_use_async(&c.fields) || methods_use_async(&c.methods) || properties_use_async(
            &c.properties,
        ),
        Declaration::Trait(t) => methods_use_async(&t.methods),
        Declaration::Const(c) => expr_uses_async(&c.value.node),
        Declaration::Import(_) | Declaration::Enum(_) | Declaration::Newtype(_) | Declaration::Docstring(_) => false,
    }
}

/// Detects whether a program needs the async runtime.
pub fn detect_async_usage(program: &Program) -> (found: bool)
    ensures
        found == exists|i: int|
            0 <= i < program.declarations@.len() && async_decl((#[trigger] program.declarations@[i]).node),
        found == has_part(Node::Program(*program), |node: Node| is_async_part(node)),
{
    proof {
        law_async_code_is_found(program);
    }
    let decls: &Vec<Spanned<Declaration>> = &program.declarations;
    let mut i: usize = 0;
    while i < decls.len()
        invariant
            i <= decls@.len(),
            decls@ == program.declarations@,
            forall|j: int| 0 <= j < i ==> !async_decl((#[trigger] decls@[j]).node),
        decreases decls@.len() - i,
    {
        if decl_uses_async(&decls[i].node) {
            proof {
                assert(async_decl(program.declarations@[i as int].node));
                law_async_code_is_found(program);
            }
            return true;
        }
        i += 1;
    }
    false
}

// ---------------------------------------------------------------------------
// Web framework
// ---------------------------------------------------------------------------

/// Whether a path starts at the web framework's module.
pub open spec fn web_path(segments: Seq<String>) -> bool {
    segments.len() > 0 && segments[0]@ == "web"@
}

/// Whether any of some decorators declares a route.
pub open spec fn any_route(decorators: Seq<Spanned<Decorator>>) -> bool {
    exists|i: int| 0 <= i < decorators.len() && (#[trigger] decorators[i]).node.name@ == "route"@
}

/// Whether a declaration uses the web framework.
pub open spec fn web_decl(decl: Declaration) -> bool {
    match decl {
        Declaration::Import(import) => match import.kind {
            ImportKind::Module(path) => web_path(path.segments@),
            ImportKind::From { module, .. } => web_path(module.segments@),
            _ => false,
        },
        Declaration::Function(f) => any_route(f.decorators@),
        _ => false,
    }
}

/// Decides whether a path starts at the web framework's module.
fn is_web_path(segments: &Vec<String>) -> (found: bool)
    ensures
        found == web_path(segments@),
{
    segments.len() > 0 && same_text(segments[0].as_str(), "web")
}

/// Decides whether any of some decorators declares a route.
fn has_route(items: &Vec<Spanned<Decorator>>) -> (found: bool)
    ensures
        found == any_route(items@),
    decreases items,
{
    let mut i: usize = 0;
    while i < items.len()
        invariant
            i <= items@.len(),
            forall|j: int| 0 <= j < i ==> !((#[trigger] items@[j]).node.name@ == "route"@),
        decreases items@.len() - i,
    {
        if same_text(items[i].node.name.as_str(), "route") {
            proof {
                assert(items@[i as int].node.name@ == "route"@);
            }
            return true;
        }
        i += 1;
    }
    false
}

/// Detects whether a program uses the web framework.
pub fn detect_web_usage(program: &Program) -> (found: bool)
    ensures
        found == exists|i: int|
            0 <= i < program.declarations@.len() && web_decl((#[trigger] program.declarations@[i]).node),
{
    let decls: &Vec<Spanned<Declaration>> = &program.declarations;
    let mut i: usize = 0;
    while i < decls.len()
        invariant
            i <= decls@.len(),
            decls@ == program.declarations@,
            forall|j: int| 0 <= j < i ==> !web_decl((#[trigger] decls@[j]).node),
        decreases decls@.len() - i,
    {
        let used: bool = match &decls[i].node {
            Declaration::Import(import) => match &import.kind {
                ImportKind::Module(path) => is_web_path(&path.segments),
                ImportKind::From { module, .. } => is_web_path(&module.segments),
                _ => false,
            },
            Declaration::Function(f) => has_route(&f.decorators),
            _ => false,
        };
        if used {
            proof {
                assert(web_decl(program.declarations@[i as int].node));
            }
            return true;
        }
        i += 1;
    }
    false
}

// ---------------------------------------------------------------------------
// List helpers
// ---------------------------------------------------------------------------

/// Whether a method name is one of the list helpers.
pub open spec fn helper_name(method: Seq<char>) -> bool {
    method == "remove"@ || method == "count"@ || method == "index"@
}

/// Whether a body uses list helpers.
pub open spec fn helper_body(body: Seq<Spanned<Statement>>) -> bool
    decreases body,
{
    exists|i: int| 0 <= i < body.len() && helper_stmt((#[trigger] body[i]).node)
}

/// Whether an optional body uses list helpers.
pub open spec fn helper_else(body: Option<Vec<Spanned<Statement>>>) -> bool
    decreases body,
{
    match body {
        Some(body) => helper_body(body@),
        None => false,
    }
}

/// Whether a statement uses list helpers, in any expression or body of it.
pub open spec fn helper_stmt(stmt: Statement) -> bool
    decreases stmt,
{
    match stmt {
        Statement::Expr(expr) => helper_expr(expr.node),
        Statement::Assignment(a) => helper_expr(a.value.node),
        Statement::CompoundAssignment { value, .. } => helper_expr(value.node),
        Statement::FieldAssignment { object, value, .. } => helper_expr(object.node) || helper_expr(value.node),
        Statement::IndexAssignment { object, index, value } => helper_expr(object.node) || helper_expr(index.node)
            || helper_expr(value.node),
        Statement::TupleUnpack { value, .. } => helper_expr(value.node),
        Statement::TupleAssign { targets, value } => helper_exprs(targets@) || helper_expr(value.node),
        Statement::ChainedAssignment { value, .. } => helper_expr(value.node),
        Statement::Return(value) => helper_option(value),
        Statement::If(i) => helper_expr(i.condition.node) || helper_body(i.then_body@) || helper_elifs(i.elif_branches@)
            || helper_else(i.else_body),
        Statement::While { condition, body } => helper_expr(condition.node) || helper_body(body@),
        Statement::For { iter, body, .. } => helper_expr(iter.node) || helper_body(body@),
        Statement::Pass | Statement::Break | Statement::Continue => false,
    }
}

/// Whether an expression uses list helpers, in any part of it.
pub open spec fn helper_expr(expr: Expr) -> bool
    decreases expr,
{
    match expr {
        Expr::Ident(_) | Expr::Literal(_) | Expr::SelfExpr => false,
        Expr::Await(inner) => helper_expr(inner.node),
        Expr::Call(function, args) => helper_expr(function.node) || helper_args(args@),
        Expr::MethodCall(receiver, method, args) => helper_name(method@) || helper_expr(receiver.node)
            || helper_args(args@),
        Expr::Binary(left, _, right) => helper_expr(left.node) || helper_expr(right.node),
        Expr::Unary(_, inner) => helper_expr(inner.node),
        Expr::Field(base, _) => helper_expr(base.node),
        Expr::Index(base, index) => helper_expr(base.node) || helper_expr(index.node),
        Expr::Slice(base, bounds) => helper_expr(base.node) || helper_option(bounds.start) || helper_option(bounds.end)
            || helper_option(bounds.step),
        Expr::If(i) => helper_expr(i.condition.node) || helper_body(i.then_body@) || helper_else(i.else_body),
        Expr::Match(scrutinee, arms) => helper_expr(scrutinee.node) || helper_arms(arms@),
        Expr::Closure(_, body) => helper_expr(body.node),
        Expr::List(items) | Expr::Tuple(items) | Expr::SetLiteral(items) => helper_exprs(items@),
        Expr::Dict(entries) => helper_entries(entries@),
        Expr::FString(parts) => helper_parts(parts@),
        Expr::ListComp(comp) => helper_expr(comp.expr.node) || helper_expr(comp.iter.node)
            || helper_option(comp.filter),
        Expr::DictComp(comp) => helper_expr(comp.key.node) || helper_expr(comp.value.node)
            || helper_expr(comp.iter.node)
            || helper_option(comp.filter),
        Expr::Constructor(_, args) => helper_args(args@),
        Expr::Try(inner) => helper_expr(inner.node),
        Expr::Paren(inner) => helper_expr(inner.node),
    }
}

/// Whether an optional expression uses list helpers.
pub open spec fn helper_option(value: Option<Rc<Spanned<Expr>>>) -> bool
    decreases value,
{
    match value {
        Some(expr) => helper_expr(expr.node),
        None => false,
    }
}

/// Whether an argument uses list helpers.
pub open spec fn helper_arg(arg: CallArg) -> bool
    decreases arg,
{
    match arg {
        CallArg::Positional(expr) => helper_expr(expr.node),
        CallArg::Named(_, expr) => helper_expr(expr.node),
    }
}

/// Whether the guard or the body of a match arm uses list helpers.
pub open spec fn helper_arm(arm: MatchArm) -> bool
    decreases arm,
{
    helper_option(arm.guard) || match arm.body {
        MatchBody::Expr(expr) => helper_expr(expr.node),
        MatchBody::Block(stmts) => helper_body(stmts@),
    }
}

/// Whether the key or the value of a dictionary entry uses list helpers.
pub open spec fn helper_entry(entry: DictEntry) -> bool
    decreases entry,
{
    helper_expr(entry.key.node) || helper_expr(entry.value.node)
}

/// Whether a part of an interpolated string uses list helpers.
pub open spec fn helper_part(part: FStringPart) -> bool
    decreases part,
{
    match part {
        FStringPart::Literal(_) => false,
        FStringPart::Expr(expr) => helper_expr(expr.node),
    }
}

/// Whether the condition or the body of an `elif` branch uses list helpers.
pub open spec fn helper_elif(branch: ElifBranch) -> bool
    decreases branch,
{
    helper_expr(branch.condition.node) || helper_body(branch.body@)
}

/// Whether any of some arguments uses list helpers.
pub open spec fn helper_args(items: Seq<CallArg>) -> bool
    decreases items,
{
    exists|i: int| 0 <= i < items.len() && helper_arg(#[trigger] items[i])
}

/// Whether any of some match arms uses list helpers.
pub open spec fn helper_arms(items: Seq<Spanned<MatchArm>>) -> bool
    decreases items,
{
    exists|i: int| 0 <= i < items.len() && helper_arm((#[trigger] items[i]).node)
}

/// Whether any of some expressions uses list helpers.
pub open spec fn helper_exprs(items: Seq<Rc<Spanned<Expr>>>) -> bool
    decreases items,
{
    exists|i: int| 0 <= i < items.len() && helper_expr((#[trigger] items[i]).node)
}

/// Whether any of some dictionary entries uses list helpers.
pub open spec fn helper_entries(items: Seq<DictEntry>) -> bool
    decreases items,
{
    exists|i: int| 0 <= i < items.len() && helper_entry(#[trigger] items[i])
}

/// Whether any of some interpolations uses list helpers.
pub open spec fn helper_parts(items: Seq<FStringPart>) -> bool
    decreases items,
{
    exists|i: int| 0 <= i < items.len() && helper_part(#[trigger] items[i])
}

/// Whether any of some `elif` branches uses list helpers.
pub open spec fn helper_elifs(items: Seq<ElifBranch>) -> bool
    decreases items,
{
    exists|i: int| 0 <= i < items.len() && helper_elif(#[trigger] items[i])
}

/// Decides whether any of some arguments uses list helpers.
fn args_use_list_helpers(items: &Vec<CallArg>) -> (found: bool)
    ensures
        found == helper_args(items@),
    decreases items,
{
    let mut i: usize = 0;
    while i < items.len()
        invariant
            i <= items@.len(),
            forall|j: int| 0 <= j < i ==> !helper_arg(#[trigger] items@[j]),
        decreases items@.len() - i,
    {
        if arg_uses_list_helpers(&items[i]) {
            proof {
                assert(helper_arg(items@[i as int]));
            }
            return true;
        }
        i += 1;
    }
    false
}

/// Decides whether any of some match arms uses list helpers.
fn arms_use_list_helpers(items: &Vec<Spanned<MatchArm>>) -> (found: bool)
    ensures
        found == helper_arms(items@),
    decreases items,
{
    let mut i: usize = 0;
    while i < items.len()
        invariant
            i <= items@.len(),
            forall|j: int| 0 <= j < i ==> !helper_arm((#[trigger] items@[j]).node),
        decreases items@.len() - i,
    {
        if arm_uses_list_helpers(&items[i].node) {
            proof {
                assert(helper_arm(items@[i as int].node));
            }
            return true;
        }
        i += 1;
    }
    false
}

/// Decides whether any of some expressions uses list helpers.
fn exprs_use_list_helpers(items: &Vec<Rc<Spanned<Expr>>>) -> (found: bool)
    ensures
        found == helper_exprs(items@),
    decreases items,
{
    let mut i: usize = 0;
    while i < items.len()
        invariant
            i <= items@.len(),
            forall|j: int| 0 <= j < i ==> !helper_expr((#[trigger] items@[j]).node),
        decreases items@.len() - i,
    {
        if expr_uses_list_helpers(&items[i].node) {
            proof {
                assert(helper_expr(items@[i as int].node));
            }
            return true;
        }
        i += 1;
    }
    false
}

/// Decides whether any of some dictionary entries uses list helpers.
fn entries_use_list_helpers(items: &Vec<DictEntry>) -> (found: bool)
    ensures
        found == helper_entries(items@),
    decreases items,
{
    let mut i: usize = 0;
    while i < items.len()
        invariant
            i <= items@.len(),
            forall|j: int| 0 <= j < i ==> !helper_entry(#[trigger] items@[j]),
        decreases items@.len() - i,
    {
        if entry_uses_list_helpers(&items[i]) {
            proof {
                assert(helper_entry(items@[i as int]));
            }
            return true;
        }
        i += 1;
    }
    false
}

/// Decides whether any of some interpolations uses list helpers.
fn parts_use_list_helpers(items: &Vec<FStringPart>) -> (found: bool)
    ensures
        found == helper_parts(items@),
    decreases items,
{
    let mut i: usize = 0;
    while i < items.len()
        invariant
            i <= items@.len(),
            forall|j: int| 0 <= j < i ==> !helper_part(#[trigger] items@[j]),
        decreases items@.len() - i,
    {
        if part_uses_list_helpers(&items[i]) {
            proof {
                assert(helper_part(items@[i as int]));
            }
            return true;
        }
        i += 1;
    }
    false
}

/// Decides whether any of some `elif` branches uses list helpers.
fn elifs_use_list_helpers(items: &Vec<ElifBranch>) -> (found: bool)
    ensures
        found == helper_elifs(items@),
    decreases items,
{
    let mut i: usize = 0;
    while i < items.len()
        invariant
            i <= items@.len(),
            forall|j: int| 0 <= j < i ==> !helper_elif(#[trigger] items@[j]),
        decreases items@.len() - i,
    {
        if elif_uses_list_helpers(&items[i]) {
            proof {
                assert(helper_elif(items@[i as int]));
            }
            return true;
        }
        i += 1;
    }
    false
}

/// Decides whether a body uses list helpers.
fn body_uses_list_helpers(items: &Vec<Spanned<Statement>>) -> (found: bool)
    ensures
        found == helper_body(items@),
    decreases items,
{
    let mut i: usize = 0;
    while i < items.len()
        invariant
            i <= items@.len(),
            forall|j: int| 0 <= j < i ==> !helper_stmt((#[trigger] items@[j]).node),
        decreases items@.len() - i,
    {
        if stmt_uses_list_helpers(&items[i].node) {
            proof {
                assert(helper_stmt(items@[i as int].node));
            }
            return true;
        }
        i += 1;
    }
    false
}

/// Decides whether an optional body uses list helpers.
fn else_uses_list_helpers(body: &Option<Vec<Spanned<Statement>>>) -> (found: bool)
    ensures
        found == helper_else(*body),
    decreases body,
{
    match body {
        Some(body) => body_uses_list_helpers(body),
        None => false,
    }
}

/// Decides whether an optional expression uses list helpers.
fn option_uses_list_helpers(value: &Option<Rc<Spanned<Expr>>>) -> (found: bool)
    ensures
        found == helper_option(*value),
    decreases value,
{
    match value {
        Some(expr) => expr_uses_list_helpers(&expr.node),
        None => false,
    }
}

/// Decides whether an argument uses list helpers.
fn arg_uses_list_helpers(arg: &CallArg) -> (found: bool)
    ensures
        found == helper_arg(*arg),
    decreases arg,
{
    match arg {
        CallArg::Positional(expr) => expr_uses_list_helpers(&expr.node),
        CallArg::Named(_, expr) => expr_uses_list_helpers(&expr.node),
    }
}

/// Decides whether the guard or the body of a match arm uses list helpers.
fn arm_uses_list_helpers(arm: &MatchArm) -> (found: bool)
    ensures
        found == helper_arm(*arm),
    decreases arm,
{
    option_uses_list_helpers(&arm.guard) || match &arm.body {
        MatchBody::Expr(expr) => expr_uses_list_helpers(&expr.node),
        MatchBody::Block(stmts) => body_uses_list_helpers(stmts),
    }
}

/// Decides whether the key or the value of a dictionary entry uses list helpers.
fn entry_uses_list_helpers(entry: &DictEntry) -> (found: bool)
    ensures
        found == helper_entry(*entry),
    decreases entry,
{
    expr_uses_list_helpers(&entry.key.node) || expr_uses_list_helpers(&entry.value.node)
}

/// Decides whether a part of an interpolated string uses list helpers.
fn part_uses_list_helpers(part: &FStringPart) -> (found: bool)
    ensures
        found == helper_part(*part),
    decreases part,
{
    match part {
        FStringPart::Literal(_) => false,
        FStringPart::Expr(expr) => expr_uses_list_helpers(&expr.node),
    }
}

/// Decides whether the condition or the body of an `elif` branch uses list helpers.
fn elif_uses_list_helpers(branch: &ElifBranch) -> (found: bool)
    ensures
        found == helper_elif(*branch),
    decreases branch,
{
    expr_uses_list_helpers(&branch.condition.node) || body_uses_list_helpers(&branch.body)
}

/// Decides whether a statement uses list helpers.
fn stmt_uses_list_helpers(stmt: &Statement) -> (found: bool)
    ensures
        found == helper_stmt(*stmt),
    decreases stmt,
{
    match stmt {
        Statement::Expr(expr) => expr_uses_list_helpers(&expr.node),
        Statement::Assignment(a) => expr_uses_list_helpers(&a.value.node),
        Statement::CompoundAssignment { value, .. } => expr_uses_list_helpers(&value.node),
        Statement::FieldAssignment { object, value, .. } => expr_uses_list_helpers(&object.node)
            || expr_uses_list_helpers(&value.node),
        Statement::IndexAssignment { object, index, value } => expr_uses_list_helpers(&object.node)
            || expr_uses_list_helpers(&index.node)
            || expr_uses_list_helpers(&value.node),
        Statement::TupleUnpack { value, .. } => expr_uses_list_helpers(&value.node),
        Statement::TupleAssign { targets, value } => exprs_use_list_helpers(targets)
            || expr_uses_list_helpers(&value.node),
        Statement::ChainedAssignment { value, .. } => expr_uses_list_helpers(&value.node),
        Statement::Return(value) => option_uses_list_helpers(value),
        Statement::If(i) => expr_uses_list_helpers(&i.condition.node) || body_uses_list_helpers(&i.then_body)
            || elifs_use_list_helpers(&i.elif_branches)
            || else_uses_list_helpers(&i.else_body),
        Statement::While { condition, body } => expr_uses_list_helpers(&condition.node) || body_uses_list_helpers(body),
        Statement::For { iter, body, .. } => expr_uses_list_helpers(&iter.node) || body_uses_list_helpers(body),
        Statement::Pass | Statement::Break | Statement::Continue => false,
    }
}

/// Decides whether a method name is one of the list helpers.
fn is_helper_name(method: &str) -> (found: bool)
    ensures
        found == helper_name(method@),
{
    same_text(method, "remove") || same_text(method, "count") || same_text(method, "index")
}

/// Decides whether an expression uses list helpers.
fn expr_uses_list_helpers(expr: &Expr) -> (found: bool)
    ensures
        found == helper_expr(*expr),
    decreases expr,
{
    match expr {
        Expr::Ident(_) | Expr::Literal(_) | Expr::SelfExpr => false,
        Expr::Await(inner) => expr_uses_list_helpers(&inner.node),
        Expr::Call(function, args) => expr_uses_list_helpers(&function.node) || args_use_list_helpers(args),
        Expr::MethodCall(receiver, method, args) => is_helper_name(method.as_str())
            || expr_uses_list_helpers(&receiver.node) || args_use_list_helpers(args),
        Expr::Binary(left, _, right) => expr_uses_list_helpers(&left.node) || expr_uses_list_helpers(&right.node),
        Expr::Unary(_, inner) => expr_uses_list_helpers(&inner.node),
        Expr::Field(base, _) => expr_uses_list_helpers(&base.node),
        Expr::Index(base, index) => expr_uses_list_helpers(&base.node) || expr_uses_list_helpers(&index.node),
        Expr::Slice(base, bounds) => expr_uses_list_helpers(&base.node) || option_uses_list_helpers(&bounds.start)
            || option_uses_list_helpers(&bounds.end)
            || option_uses_list_helpers(&bounds.step),
        Expr::If(i) => expr_uses_list_helpers(&i.condition.node) || body_uses_list_helpers(&i.then_body)
            || else_uses_list_helpers(&i.else_body),
        Expr::Match(scrutinee, arms) => expr_uses_list_helpers(&scrutinee.node) || arms_use_list_helpers(arms),
        Expr::Closure(_, body) => expr_uses_list_helpers(&body.node),
        Expr::List(items) | Expr::Tuple(items) | Expr::SetLiteral(items) => exprs_use_list_helpers(items),
        Expr::Dict(entries) => entries_use_list_helpers(entries),
        Expr::FString(parts) => parts_use_list_helpers(parts),
        Expr::ListComp(comp) => expr_uses_list_helpers(&comp.expr.node) || expr_uses_list_helpers(&comp.iter.node)
            || option_uses_list_helpers(&comp.filter),
        Expr::DictComp(comp) => expr_uses_list_helpers(&comp.key.node) || expr_uses_list_helpers(&comp.value.node)
            || expr_uses_list_helpers(&comp.iter.node)
            || option_uses_list_helpers(&comp.filter),
        Expr::Constructor(_, args) => args_use_list_helpers(args),
        Expr::Try(inner) => expr_uses_list_helpers(&inner.node),
        Expr::Paren(inner) => expr_uses_list_helpers(&inner.node),
    }
}

/// Whether a method uses list helpers.
pub open spec fn helper_method(method: MethodDecl) -> bool {
    helper_else(method.body)
}

/// Whether any of some methods uses list helpers.
pub open spec fn helper_methods(items: Seq<Rc<Spanned<MethodDecl>>>) -> bool {
    exists|i: int| 0 <= i < items.len() && helper_method((#[trigger] items[i]).node)
}

/// Whether any of some properties uses list helpers.
pub open spec fn helper_properties(items: Seq<Rc<Spanned<PropertyDecl>>>) -> bool {
    exists|i: int| 0 <= i < items.len() && helper_body((#[trigger] items[i]).node.body@)
}

/// Whether any of the default values of some fields uses list helpers.
pub open spec fn helper_defaults(items: Seq<Spanned<FieldDecl>>) -> bool {
    exists|i: int| 0 <= i < items.len() && helper_option((#[trigger] items[i]).node.default)
}

/// Whether a declaration uses list helpers.
pub open spec fn helper_decl(decl: Declaration) -> bool {
    match decl {
        Declaration::Function(f) => helper_body(f.body@),
        Declaration::Model(m) => helper_defaults(m.fields@) || helper_methods(m.methods@),
        Declaration::Class(c) => helper_defaults(c.fields@) || helper_methods(c.methods@)
            || helper_properties(c.properties@),
        Declaration::Trait(t) => helper_methods(t.methods@),
        Declaration::Const(c) => helper_expr(c.value.node),
        Declaration::Import(_) | Declaration::Enum(_) | Declaration::Newtype(_) | Declaration::Docstring(_) => false,
    }
}

/// Decides whether a method uses list helpers.
fn method_uses_list_helpers(method: &MethodDecl) -> (found: bool)
    ensures
        found == helper_method(*method),
{
    else_uses_list_helpers(&method.body)
}

/// Decides whether any of some methods uses list helpers.
fn methods_use_list_helpers(items: &Vec<Rc<Spanned<MethodDecl>>>) -> (found: bool)
    ensures
        found == helper_methods(items@),
{
    let mut i: usize = 0;
    while i < items.len()
        invariant
            i <= items@.len(),
            forall|j: int| 0 <= j < i ==> !helper_method((#[trigger] items@[j]).node),
        decreases items@.len() - i,
    {
        if method_uses_list_helpers(&items[i].node) {
            proof {
                assert(helper_method(items@[i as int].node));
            }
            return true;
        }
        i += 1;
    }
    false
}

/// Decides whether any of some properties uses list helpers.
fn properties_use_list_helpers(items: &Vec<Rc<Spanned<PropertyDecl>>>) -> (found: bool)
    ensures
        found == helper_properties(items@),
{
    let mut i: usize = 0;
    while i < items.len()
        invariant
            i <= items@.len(),
            forall|j: int| 0 <= j < i ==> !helper_body((#[trigger] items@[j]).node.body@),
        decreases items@.len() - i,
    {
        if body_uses_list_helpers(&items[i].node.body) {
            proof {
                assert(helper_body(items@[i as int].node.body@));
            }
            return true;
        }
        i += 1;
    }
    false
}

/// Decides whether any of the default values of some fields uses list helpers.
fn defaults_use_list_helpers(items: &Vec<Spanned<FieldDecl>>) -> (found: bool)
    ensures
        found == helper_defaults(items@),
{
    let mut i: usize = 0;
    while i < items.len()
        invariant
            i <= items@.len(),
            forall|j: int| 0 <= j < i ==> !helper_option((#[trigger] items@[j]).node.default),
        decreases items@.len() - i,
    {
        if option_uses_list_helpers(&items[i].node.default) {
            proof {
                assert(helper_option(items@[i as int].node.default));
            }
            return true;
        }
        i += 1;
    }
    false
}

/// Decides whether a declaration uses list helpers.
fn decl_uses_list_helpers(decl: &Declaration) -> (found: bool)
    ensures
        found == helper_decl(*decl),
{
    match decl {
        Declaration::Function(f) => body_uses_list_helpers(&f.body),
        Declaration::Model(m) => defaults_use_list_helpers(&m.fields) || methods_use_list_helpers(&m.methods),
        Declaration::Class(c) => defaults_use_list_helpers(&c.fields) || methods_use_list_helpers(&c.methods)
            || properties_use_list_helpers(
            &c.properties,
        ),
        Declaration::Trait(t) => methods_use_list_helpers(&t.methods),
        Declaration::Const(c) => expr_uses_list_helpers(&c.value.node),
        Declaration::Import(_) | Declaration::Enum(_) | Declaration::Newtype(_) | Declaration::Docstring(_) => false,
    }
}

/// Detects whether a program uses list helpers: `remove`, `count` or `index`.
pub fn detect_list_helpers_usage(program: &Program) -> (found: bool)
    ensures
        found == exists|i: int|
            0 <= i < program.declarations@.len() && helper_decl((#[trigger] program.declarations@[i]).node),
        found == has_part(Node::Program(*program), |node: Node| calls_helper(node)),
{
    proof {
        law_list_helpers_are_found(program);
    }
    let decls: &Vec<Spanned<Declaration>> = &program.declarations;
    let mut i: usize = 0;
    while i < decls.len()
        invariant
            i <= decls@.len(),
            decls@ == program.declarations@,
            forall|j: int| 0 <= j < i ==> !helper_decl((#[trigger] decls@[j]).node),
        decreases decls@.len() - i,
    {
        if decl_uses_list_helpers(&decls[i].node) {
            proof {
                assert(helper_decl(program.declarations@[i as int].node));
                law_list_helpers_are_found(program);
            }
            return true;
        }
        i += 1;
    }
    false
}

// ---------------------------------------------------------------------------
// Routes
// ---------------------------------------------------------------------------

/// A route: the function that serves it, its path, its methods, and whether the function is `async`.
pub type Route = (String, String, Vec<String>, bool);

/// What a route is.
#[verifier::ext_equal]
pub ghost struct RouteModel {
    /// The function that serves it.
    pub handler: Seq<char>,
    /// The path.
    pub path: Seq<char>,
    /// The methods.
    pub methods: Seq<Seq<char>>,
    /// Whether the function is `async`.
    pub is_async: bool,
}

/// What a route is.
pub open spec fn route_model(route: Route) -> RouteModel {
    RouteModel { handler: route.0@, path: route.1@, methods: texts(route.2@), is_async: route.3 }
}

/// What a run of routes is.
pub open spec fn route_models(routes: Seq<Route>) -> Seq<RouteModel> {
    Seq::new(routes.len(), |i: int| route_model(routes[i]))
}

/// The string that an expression spells.
pub open spec fn spelled(expr: Expr) -> Option<Seq<char>> {
    match expr {
        Expr::Literal(Literal::String(text)) => Some(text@),
        _ => None,
    }
}

/// The path that the arguments from one on give: the first string by place that is not empty.
pub open spec fn route_path(args: Seq<DecoratorArg>, from: int, path: Seq<char>) -> Seq<char>
    decreases args.len() - from,
{
    if from < 0 || from >= args.len() {
        path
    } else {
        match args[from] {
            DecoratorArg::Positional(expr) => if path.len() == 0 {
                match spelled(expr.node) {
                    Some(text) => route_path(args, from + 1, text),
                    None => route_path(args, from + 1, path),
                }
            } else {
                route_path(args, from + 1, path)
            },
            _ => route_path(args, from + 1, path),
        }
    }
}

/// The strings of a list, from one item on, behind those found so far.
pub open spec fn listed_strings(items: Seq<Rc<Spanned<Expr>>>, from: int, found: Seq<Seq<char>>) -> Seq<Seq<char>>
    decreases items.len() - from,
{
    if from < 0 || from >= items.len() {
        found
    } else {
        match spelled(items[from].node) {
            Some(text) => listed_strings(items, from + 1, found.push(text)),
            None => listed_strings(items, from + 1, found),
        }
    }
}

/// The list that a `methods` argument gives.
pub open spec fn methods_argument(arg: DecoratorArg) -> Option<Seq<Rc<Spanned<Expr>>>> {
    match arg {
        DecoratorArg::Named(name, DecoratorArgValue::Expr(expr)) => match expr.node {
            Expr::List(items) => if name@ == "methods"@ {
                Some(items@)
            } else {
                None
            },
            _ => None,
        },
        _ => None,
    }
}

/// The methods that the arguments from one on give: those of the last `methods` list.
pub open spec fn route_methods(args: Seq<DecoratorArg>, from: int, methods: Seq<Seq<char>>) -> Seq<Seq<char>>
    decreases args.len() - from,
{
    if from < 0 || from >= args.len() {
        methods
    } else {
        match methods_argument(args[from]) {
            Some(items) => route_methods(args, from + 1, listed_strings(items, 0, Seq::empty())),
            None => route_methods(args, from + 1, methods),
        }
    }
}

/// The route that a decorator of a function declares. One without a path declares none.
pub open spec fn route_of(f: FunctionDecl, decorator: Decorator) -> Option<RouteModel> {
    if decorator.name@ == "route"@ {
        let path = route_path(decorator.args@, 0, Seq::empty());
        if path.len() == 0 {
            None
        } else {
            Some(
                RouteModel {
                    handler: f.name@,
                    path,
                    methods: route_methods(decorator.args@, 0, seq!["GET"@]),
                    is_async: f.is_async,
                },
            )
        }
    } else {
        None
    }
}

/// The routes of a function, from one decorator on, behind those found so far.
pub open spec fn function_routes(f: FunctionDecl, from: int, found: Seq<RouteModel>) -> Seq<RouteModel>
    decreases f.decorators@.len() - from,
{
    if from < 0 || from >= f.decorators@.len() {
        found
    } else {
        match route_of(f, f.decorators@[from].node) {
            Some(route) => function_routes(f, from + 1, found.push(route)),
            None => function_routes(f, from + 1, found),
        }
    }
}

/// The routes of the declarations from one on, behind those found so far.
pub open spec fn declared_routes(
    decls: Seq<Spanned<Declaration>>,
    from: int,
    found: Seq<RouteModel>,
) -> Seq<RouteModel>
    decreases decls.len() - from,
{
    if from < 0 || from >= decls.len() {
        found
    } else {
        match decls[from].node {
            Declaration::Function(f) => declared_routes(decls, from + 1, function_routes(*f, 0, found)),
            _ => declared_routes(decls, from + 1, found),
        }
    }
}

/// The strings of a list.
fn strings_of(items: &Vec<Rc<Spanned<Expr>>>) -> (strings: Vec<String>)
    ensures
        texts(strings@) == listed_strings(items@, 0, Seq::empty()),
{
    let mut strings: Vec<String> = Vec::new();
    let mut i: usize = 0;
    proof {
        assert(texts(strings@) =~= Seq::empty());
    }
    while i < items.len()
        invariant
            i <= items@.len(),
            listed_strings(items@, 0, Seq::empty()) == listed_strings(items@, i as int, texts(strings@)),
        decreases items@.len() - i,
    {
        match &items[i].node {
            Expr::Literal(Literal::String(text)) => {
                let ghost before = texts(strings@);
                strings.push(text.clone());
                proof {
                    assert(texts(strings@) =~= before.push(text@));
                }
            },
            _ => {},
        }
        i += 1;
    }
    strings
}

/// The route that a decorator of a function declares.
fn declared_route(f: &FunctionDecl, decorator: &Decorator) -> (route: Option<Route>)
    ensures
        route_of(*f, *decorator) == match route {
            Some(route) => Some(route_model(route)),
            None => None,
        },
{
    if !same_text(decorator.name.as_str(), "route") {
        return None;
    }
    let args: &Vec<DecoratorArg> = &decorator.args;
    let mut path: String = String::new();
    let mut methods: Vec<String> = vec!["GET".to_owned()];
    let mut i: usize = 0;
    proof {
        assert(texts(methods@) =~= seq!["GET"@]);
        assert(path@ =~= Seq::empty());
    }
    while i < args.len()
        invariant
            i <= args@.len(),
            args@ == decorator.args@,
            route_path(args@, 0, Seq::empty()) == route_path(args@, i as int, path@),
            route_methods(args@, 0, seq!["GET"@]) == route_methods(args@, i as int, texts(methods@)),
        decreases args@.len() - i,
    {
        match &args[i] {
            DecoratorArg::Positional(expr) => {
                if path.as_str().unicode_len() == 0 {
                    match &expr.node {
                        Expr::Literal(Literal::String(text)) => {
                            path = text.clone();
                        },
                        _ => {},
                    }
                }
            },
            DecoratorArg::Named(name, value) => {
                if same_text(name.as_str(), "methods") {
                    match value {
                        DecoratorArgValue::Expr(expr) => match &expr.node {
                            Expr::List(items) => {
                                methods = strings_of(items);
                            },
                            _ => {},
                        },
                        _ => {},
                    }
                }
            },
        }
        i += 1;
    }
    if path.as_str().unicode_len() == 0 {
        None
    } else {
        Some((f.name.clone(), path, methods, f.is_async))
    }
}

/// Collects the routes that `@route` decorators declare.
pub fn collect_routes(program: &Program) -> (routes: Vec<Route>)
    ensures
        route_models(routes@) == declared_routes(program.declarations@, 0, Seq::empty()),
{
    let decls: &Vec<Spanned<Declaration>> = &program.declarations;
    let mut routes: Vec<Route> = Vec::new();
    let mut i: usize = 0;
    proof {
        assert(route_models(routes@) =~= Seq::empty());
    }
    while i < decls.len()
        invariant
            i <= decls@.len(),
            declared_routes(decls@, 0, Seq::empty()) == declared_routes(decls@, i as int, route_models(routes@)),
        decreases decls@.len() - i,
    {
        match &decls[i].node {
            Declaration::Function(f) => {
                let ghost before = route_models(routes@);
                let mut k: usize = 0;
                while k < f.decorators.len()
                    invariant
                        k <= f.decorators@.len(),
                        function_routes(**f, 0, before) == function_routes(**f, k as int, route_models(routes@)),
                    decreases f.decorators@.len() - k,
                {
                    match declared_route(f, &f.decorators[k].node) {
                        Some(route) => {
                            let ghost found = route_models(routes@);
                            routes.push(route);
                            proof {
                                assert(route_models(routes@) =~= found.push(route_model(route)));
                            }
                        },
                        None => {},
                    }
                    k += 1;
                }
            },
            _ => {},
        }
        i += 1;
    }
    routes
}

// ---------------------------------------------------------------------------
// Imports
// ---------------------------------------------------------------------------

/// Collects the Rust crates that a program imports, each once.
pub fn collect_rust_crates(program: &Program) -> (crates: Vec<String>)
    ensures
        texts(crates@).no_duplicates(),
        forall|name: Seq<char>|
            texts(crates@).contains(name) <==> exists|i: int|
                0 <= i < program.declarations@.len() && crate::cli::imports::imported_crate(
                    (#[trigger] program.declarations@[i]).node,
                ) == Some(name),
{
    let crates: Vec<String> = crate::cli::imports::collect_rust_crates(program);
    proof {
        crate::cli::imports::law_crates_are_listed_once(program.declarations@);
    }
    crates
}

/// Whether a declaration imports the poem.
pub open spec fn this_import(decl: Declaration) -> bool {
    decl matches Declaration::Import(import) && import.kind matches ImportKind::Module(path) && path.segments@.len()
        == 1 && path.segments@[0]@ == "this"@
}

/// Detects `import this`.
pub fn check_for_this_import(program: &Program) -> (found: bool)
    ensures
        found == exists|i: int|
            0 <= i < program.declarations@.len() && this_import((#[trigger] program.declarations@[i]).node),
{
    let decls: &Vec<Spanned<Declaration>> = &program.declarations;
    let mut i: usize = 0;
    while i < decls.len()
        invariant
            i <= decls@.len(),
            decls@ == program.declarations@,
            forall|j: int| 0 <= j < i ==> !this_import((#[trigger] decls@[j]).node),
        decreases decls@.len() - i,
    {
        let used: bool = match &decls[i].node {
            Declaration::Import(import) => match &import.kind {
                ImportKind::Module(path) => path.segments.len() == 1 && same_text(path.segments[0].as_str(), "this"),
                _ => false,
            },
            _ => false,
        };
        if used {
            proof {
                assert(this_import(program.declarations@[i as int].node));
            }
            return true;
        }
        i += 1;
    }
    false
}

} // verus!

