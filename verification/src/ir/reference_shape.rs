//! Predicates for expressions that already emit reference-shaped Rust values.
//!
//! Ownership planning sees these expressions as ordinary surface types. The predicates stand in one place, so that
//! conversions, method emission and argument planning agree on them.

use crate::ir::{IrExprKind, IrType, TypedExpr};
use crate::text::{same_text, trim_start, trimmed_start, white_space};
use vstd::prelude::*;

verus! {

broadcast use vstd::string::group_string_axioms;

/// Whether a type is already represented as a reference-like Rust value.
///
/// Callback parameters keep their exact emitted spelling, so a spelling that starts with `&` is a reference.
pub open spec fn reference_shaped(ty: IrType) -> bool {
    match ty {
        IrType::Ref(_) | IrType::RefMut(_) | IrType::StrRef | IrType::StaticStr => true,
        IrType::RustDisplay(display) => trimmed_start(display@).len() > 0 && trimmed_start(display@)[0] == '&',
        _ => false,
    }
}

/// Whether an expression already emits a reference-shaped value: by its type, as the receiver `self`, or as a
/// borrowing view of another value.
pub open spec fn emits_reference(expr: TypedExpr) -> bool {
    ||| reference_shaped(expr.ty)
    ||| match expr.kind {
        IrExprKind::Var { name, .. } => name@ == "self"@,
        IrExprKind::MethodCall { method, args, .. } => (*args)@.len() == 0 && (method@ == "as_slice"@ || method@
            == "as_str"@),
        _ => false,
    }
}

/// Decides whether a type is already represented as a reference-like Rust value.
#[must_use]
pub fn type_has_rust_reference_shape(ty: &IrType) -> (shaped: bool)
    ensures
        shaped == reference_shaped(*ty),
{
    match ty {
        IrType::Ref(_) | IrType::RefMut(_) | IrType::StrRef | IrType::StaticStr => true,
        IrType::RustDisplay(display) => {
            let rest: Vec<char> = trim_start(display.as_str());
            rest.len() > 0 && rest[0] == '&'
        },
        _ => false,
    }
}

/// Decides whether an expression already emits a reference-shaped value.
#[must_use]
pub fn expr_has_rust_reference_shape(expr: &TypedExpr) -> (shaped: bool)
    ensures
        shaped == emits_reference(*expr),
{
    if type_has_rust_reference_shape(&expr.ty) {
        return true;
    }
    match &expr.kind {
        IrExprKind::Var { name, .. } => same_text(name.as_str(), "self"),
        IrExprKind::MethodCall { method, args, .. } => args.len() == 0 && (same_text(method.as_str(), "as_slice")
            || same_text(method.as_str(), "as_str")),
        _ => false,
    }
}

/// References and static strings are reference-shaped, and a spelled type is where its spelling starts with an ampersand,
/// behind white space or not; owned values are not. An expression is also where it is the receiver, or a borrowing view
/// of another value without arguments.
pub proof fn law_references_are_reference_shaped(expr: TypedExpr)
    ensures
        expr.ty is Ref || expr.ty is RefMut || expr.ty is StrRef || expr.ty is StaticStr ==> reference_shaped(expr.ty),
        expr.ty is Int || expr.ty is Float || expr.ty is Bool || expr.ty is String || expr.ty is Unit || expr.ty is List
            || expr.ty is Dict || expr.ty is Struct || expr.ty is Unknown ==> !reference_shaped(expr.ty),
        expr.ty matches IrType::RustDisplay(display) && display@.len() > 0 && display@[0] == '&' && !white_space('&')
            ==> reference_shaped(expr.ty),
        expr.ty matches IrType::RustDisplay(display) && display@.len() > 0 && display@[0] != '&' && !white_space(
            display@[0],
        ) ==> !reference_shaped(expr.ty),
        reference_shaped(expr.ty) ==> emits_reference(expr),
        expr.kind matches IrExprKind::Var { name, .. } ==> (emits_reference(expr) <==> reference_shaped(expr.ty) || name@
            == "self"@),
        expr.kind matches IrExprKind::MethodCall { method, args, .. } ==> (emits_reference(expr) <==> reference_shaped(
            expr.ty,
        ) || ((*args)@.len() == 0 && (method@ == "as_str"@ || method@ == "as_slice"@))),
{
}

} // verus!
