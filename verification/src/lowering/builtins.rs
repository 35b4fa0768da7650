//! The explicit namespace of the built-in functions.

use crate::ast::{Expr, Spanned};
use crate::lowering::AstLowering;
use crate::text::same_text;
use vstd::prelude::*;

verus! {

broadcast use vstd::string::group_string_axioms;

/// The root of the standard library.
pub const STDLIB_ROOT: &'static str = "std";

/// The namespace of the built-in functions under the root.
pub const STDLIB_BUILTINS: &'static str = "builtins";

/// Whether an expression is `std.builtins`.
pub open spec fn builtin_namespace(expr: Expr) -> bool {
    match expr {
        Expr::Field(root, namespace) => namespace@ == STDLIB_BUILTINS@ && match root.node {
            Expr::Ident(name) => name@ == STDLIB_ROOT@,
            _ => false,
        },
        _ => false,
    }
}

/// The name that a callee `std.builtins.<name>` ends in.
pub open spec fn builtin_member(callee: Expr) -> Option<Seq<char>> {
    match callee {
        Expr::Field(namespace, member) => if builtin_namespace(namespace.node) {
            Some(member@)
        } else {
            None
        },
        _ => None,
    }
}

impl AstLowering {
    /// The built-in function that a callee names explicitly.
    pub fn explicit_builtin_member_name(callee: &Spanned<Expr>) -> (name: Option<&str>)
        ensures
            match name {
                Some(name) => builtin_member(callee.node) == Some(name@),
                None => builtin_member(callee.node) is None,
            },
    {
        match &callee.node {
            Expr::Field(namespace, member) => {
                if AstLowering::is_explicit_builtin_namespace_expr(namespace) {
                    Some(member.as_str())
                } else {
                    None
                }
            },
            _ => None,
        }
    }

    /// Decides whether an expression is the explicit namespace of the built-in functions.
    pub fn is_explicit_builtin_namespace_expr(expr: &Spanned<Expr>) -> (found: bool)
        ensures
            found == builtin_namespace(expr.node),
    {
        match &expr.node {
            Expr::Field(root, namespace) => same_text(namespace.as_str(), STDLIB_BUILTINS) && match &root.node {
                Expr::Ident(name) => same_text(name.as_str(), STDLIB_ROOT),
                _ => false,
            },
            _ => false,
        }
    }
}

/// A built-in function is named explicitly by its name under `std.builtins`, and by nothing else.
pub proof fn law_builtins_are_named_in_full(callee: Expr)
    ensures
        builtin_member(callee) matches Some(name) ==> (callee matches Expr::Field(namespace, member) && member@ == name
            && (namespace.node matches Expr::Field(root, inner) && inner@ == "builtins"@ && (
        root.node matches Expr::Ident(first) && first@ == "std"@))),
        (callee matches Expr::Field(namespace, member) && (namespace.node matches Expr::Field(root, inner) && inner@
            == "builtins"@ && (root.node matches Expr::Ident(first) && first@ == "std"@))) ==> builtin_member(callee)
            is Some,
{
}

} // verus!
