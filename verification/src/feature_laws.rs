//! What holds of the features that a program is found to use.

use crate::ast::{
    Declaration, Decorator, DecoratorArg, DecoratorArgValue, Expr, FunctionDecl, ImportKind, Literal, Spanned,
};
use crate::cli::imports::imported_crate;
use crate::scanners::{
    any_derives_serde, any_route, decl_uses_serde, declared_routes, derives_serde, function_routes, listed_strings,
    methods_argument, names_serde, route_methods, route_of, route_path, spelled, this_import, web_decl, RouteModel,
};
use std::rc::Rc;
use vstd::prelude::*;

verus! {

// ---------------------------------------------------------------------------
// Serialization
// ---------------------------------------------------------------------------

/// The decorators of a declaration that can derive anything: those of models and classes.
pub open spec fn deriving(decl: Declaration) -> Seq<Spanned<Decorator>> {
    match decl {
        Declaration::Model(m) => m.decorators@,
        Declaration::Class(c) => c.decorators@,
        _ => Seq::empty(),
    }
}

/// Whether an argument of a decorator is a bare name.
pub open spec fn is_name(arg: DecoratorArg, name: Seq<char>) -> bool {
    match arg {
        DecoratorArg::Positional(expr) => match expr.node {
            Expr::Ident(text) => text@ == name,
            _ => false,
        },
        _ => false,
    }
}

/// A declaration uses serialization exactly where it is a model or a class and one of its `derive` decorators lists
/// `Serialize` or `Deserialize`, at whatever place.
pub proof fn law_serialization_is_derived(decl: Declaration, decorator: int, arg: int)
    ensures
        ({
            let given = deriving(decl);
            0 <= decorator < given.len() && given[decorator].node.name@ == "derive"@ && 0 <= arg
                < given[decorator].node.args@.len() && (is_name(given[decorator].node.args@[arg], "Serialize"@)
                || is_name(given[decorator].node.args@[arg], "Deserialize"@)) ==> decl_uses_serde(decl)
        }),
        decl_uses_serde(decl) ==> exists|d: int, a: int|
            0 <= d < deriving(decl).len() && deriving(decl)[d].node.name@ == "derive"@ && 0 <= a < deriving(
                decl,
            )[d].node.args@.len() && (is_name(#[trigger] deriving(decl)[d].node.args@[a], "Serialize"@) || is_name(
                deriving(decl)[d].node.args@[a],
                "Deserialize"@,
            )),
{
    let given = deriving(decl);
    if 0 <= decorator < given.len() && given[decorator].node.name@ == "derive"@ && 0 <= arg
        < given[decorator].node.args@.len() && (is_name(given[decorator].node.args@[arg], "Serialize"@) || is_name(
        given[decorator].node.args@[arg],
        "Deserialize"@,
    )) {
        assert(names_serde(given[decorator].node.args@[arg]));
        assert(derives_serde(given[decorator].node));
        assert(any_derives_serde(given));
    }
    if decl_uses_serde(decl) {
        assert(any_derives_serde(given));
        let d = choose|d: int| 0 <= d < given.len() && derives_serde((#[trigger] given[d]).node);
        let args = given[d].node.args@;
        let a = choose|a: int| 0 <= a < args.len() && names_serde(#[trigger] args[a]);
        assert(is_name(given[d].node.args@[a], "Serialize"@) || is_name(given[d].node.args@[a], "Deserialize"@));
    }
}

// ---------------------------------------------------------------------------
// Web framework and routes
// ---------------------------------------------------------------------------

/// A program uses the web framework where it imports from it or declares a route: a declaration does so exactly where it
/// is an import whose path starts with `web`, or a function with a `route` decorator.
pub proof fn law_web_programs_import_or_route(decl: Declaration)
    ensures
        decl is Function ==> (web_decl(decl) <==> exists|i: int|
            0 <= i < decl->Function_0.decorators@.len() && (#[trigger] decl->Function_0.decorators@[i]).node.name@
                == "route"@),
        decl is Import ==> (match decl->Import_0.kind {
            ImportKind::Module(path) => web_decl(decl) <==> path.segments@.len() > 0 && path.segments@[0]@ == "web"@,
            ImportKind::From { module, .. } => web_decl(decl) <==> module.segments@.len() > 0 && module.segments@[0]@
                == "web"@,
            _ => !web_decl(decl),
        }),
        !(decl is Function) && !(decl is Import) ==> !web_decl(decl),
{
}

/// A program from which a route is collected uses the web framework.
pub proof fn law_routes_use_the_web_framework(decls: Seq<Spanned<Declaration>>)
    ensures
        declared_routes(decls, 0, Seq::empty()).len() > 0 ==> exists|i: int|
            0 <= i < decls.len() && web_decl((#[trigger] decls[i]).node),
{
    let routes = declared_routes(decls, 0, Seq::empty());
    if routes.len() > 0 {
        law_routes_are_those_declared(decls, routes[0]);
        assert(routes.contains(routes[0]));
        let (i, k) = choose|i: int, k: int| #[trigger] declares(decls, i, k, routes[0]);
        match decls[i].node {
            Declaration::Function(f) => {
                assert(f.decorators@[k].node.name@ == "route"@);
                assert(any_route(f.decorators@));
                assert(web_decl(decls[i].node));
            },
            _ => {},
        }
    }
}

/// Whether a decorator of a declaration declares a route.
pub open spec fn declares(decls: Seq<Spanned<Declaration>>, i: int, k: int, route: RouteModel) -> bool {
    0 <= i < decls.len() && (match decls[i].node {
        Declaration::Function(f) => 0 <= k < f.decorators@.len() && route_of(*f, f.decorators@[k].node) == Some(route),
        _ => false,
    })
}

/// The routes that are collected are exactly those that a decorator of a function declares.
pub proof fn law_routes_are_those_declared(decls: Seq<Spanned<Declaration>>, route: RouteModel)
    ensures
        declared_routes(decls, 0, Seq::empty()).contains(route) <==> exists|i: int, k: int| #[trigger]
            declares(decls, i, k, route),
{
    routes_from(decls, 0, Seq::empty(), route);
    assert(!Seq::<RouteModel>::empty().contains(route));
    if declared_routes(decls, 0, Seq::empty()).contains(route) {
        let (i, k) = choose|i: int, k: int| i >= 0 && #[trigger] declares(decls, i, k, route);
        assert(declares(decls, i, k, route));
    }
}

spec fn with_routes(f: Rc<FunctionDecl>, found: Seq<RouteModel>) -> Seq<RouteModel> {
    function_routes(*f, 0, found)
}

proof fn routes_from(decls: Seq<Spanned<Declaration>>, from: int, found: Seq<RouteModel>, route: RouteModel)
    requires
        0 <= from,
    ensures
        declared_routes(decls, from, found).contains(route) <==> found.contains(route) || exists|i: int, k: int|
            i >= from && #[trigger] declares(decls, i, k, route),
    decreases decls.len() - from,
{
    if from < decls.len() {
        match decls[from].node {
            Declaration::Function(f) => {
                of_function(&*f, 0, found, route);
                let more = with_routes(f, found);
                routes_from(decls, from + 1, more, route);
                assert forall|k: int| 0 <= k < f.decorators@.len() && #[trigger] route_of(*f, f.decorators@[k].node)
                    == Some(route) implies declares(decls, from, k, route) by {}
                if more.contains(route) && !found.contains(route) {
                    let k = choose|k: int|
                        0 <= k < f.decorators@.len() && #[trigger] route_of(*f, f.decorators@[k].node) == Some(route);
                    assert(declares(decls, from, k, route));
                }
                assert forall|i: int, k: int| i >= from && #[trigger] declares(decls, i, k, route) implies more.contains(
                    route,
                ) || i >= from + 1 by {
                    if i == from {
                        assert(route_of(*f, f.decorators@[k].node) == Some(route));
                    }
                }
            },
            _ => {
                routes_from(decls, from + 1, found, route);
                assert forall|i: int, k: int| i >= from && #[trigger] declares(decls, i, k, route) implies i >= from
                    + 1 by {}
            },
        }
    } else {
        assert forall|i: int, k: int| i >= from implies !(#[trigger] declares(decls, i, k, route)) by {}
    }
}

proof fn of_function(f: &FunctionDecl, from: int, found: Seq<RouteModel>, route: RouteModel)
    requires
        0 <= from,
    ensures
        function_routes(*f, from, found).contains(route) <==> found.contains(route) || exists|k: int|
            from <= k < f.decorators@.len() && #[trigger] route_of(*f, f.decorators@[k].node) == Some(route),
    decreases f.decorators@.len() - from,
{
    if from < f.decorators@.len() {
        match route_of(*f, f.decorators@[from].node) {
            Some(here) => {
                of_function(f, from + 1, found.push(here), route);
                if found.contains(route) {
                    let at = found.index_of(route);
                    assert(found.push(here)[at] == route);
                    assert(found.push(here).contains(route));
                }
                if here == route {
                    assert(found.push(here)[found.len() as int] == route);
                    assert(found.push(here).contains(route));
                }
                if found.push(here).contains(route) && here != route {
                    let at = found.push(here).index_of(route);
                    assert(found[at] == route);
                }
            },
            None => {
                of_function(f, from + 1, found, route);
            },
        }
    }
}

/// A `route` decorator whose first argument is a path declares a route for its function: with the function's name, that
/// path, and whether the function is `async`. It serves `GET` unless it lists its methods, and then exactly those. A
/// decorator of another name declares nothing.
pub proof fn law_decorators_declare_their_routes(f: FunctionDecl, decorator: Decorator, at: int)
    ensures
        decorator.name@ != "route"@ ==> route_of(f, decorator) is None,
        decorator.name@ == "route"@ && decorator.args@.len() > 0 ==> (match decorator.args@[0] {
            DecoratorArg::Positional(expr) => match expr.node {
                Expr::Literal(Literal::String(path)) => path@.len() > 0 ==> {
                    &&& route_of(f, decorator) is Some
                    &&& route_of(f, decorator)->Some_0.path == path@
                    &&& route_of(f, decorator)->Some_0.handler == f.name@
                    &&& route_of(f, decorator)->Some_0.is_async == f.is_async
                },
                _ => true,
            },
            _ => true,
        }),
        route_of(f, decorator) matches Some(route) ==> {
            &&& (forall|i: int| 0 <= i < decorator.args@.len() ==> !(#[trigger] decorator.args@[i] is Named))
                ==> route.methods == seq!["GET"@]
            &&& 0 <= at < decorator.args@.len() && (forall|i: int|
                at < i < decorator.args@.len() ==> !(#[trigger] decorator.args@[i] is Named)) ==> (
            match decorator.args@[at] {
                DecoratorArg::Named(name, DecoratorArgValue::Expr(expr)) => match expr.node {
                    Expr::List(items) => name@ == "methods"@ && (forall|i: int|
                        0 <= i < items@.len() ==> spelled((#[trigger] items@[i]).node) is Some) ==> route.methods.len()
                        == items@.len() && forall|i: int|
                        0 <= i < items@.len() ==> spelled(items@[i].node) == Some(#[trigger] route.methods[i]),
                    _ => true,
                },
                _ => true,
            })
        },
{
    let args = decorator.args@;
    if args.len() > 0 {
        match args[0] {
            DecoratorArg::Positional(expr) => match expr.node {
                Expr::Literal(Literal::String(path)) => {
                    if path@.len() > 0 {
                        kept_path(args, 1, path@);
                    }
                },
                _ => {},
            },
            _ => {},
        }
    }
    if forall|i: int| 0 <= i < args.len() ==> !(#[trigger] args[i] is Named) {
        kept_methods(args, 0, seq!["GET"@]);
    }
    if 0 <= at < args.len() && forall|i: int| at < i < args.len() ==> !(#[trigger] args[i] is Named) {
        match methods_argument(args[at]) {
            Some(items) => {
                last_methods(args, 0, at, seq!["GET"@]);
                if forall|i: int| 0 <= i < items.len() ==> spelled((#[trigger] items[i]).node) is Some {
                    all_strings(items, 0, Seq::empty());
                }
            },
            None => {},
        }
    }
}

proof fn kept_path(args: Seq<DecoratorArg>, from: int, path: Seq<char>)
    requires
        0 <= from,
        path.len() > 0,
    ensures
        route_path(args, from, path) == path,
    decreases args.len() - from,
{
    if from < args.len() {
        kept_path(args, from + 1, path);
    }
}

proof fn kept_methods(args: Seq<DecoratorArg>, from: int, methods: Seq<Seq<char>>)
    requires
        0 <= from,
        forall|i: int| from <= i < args.len() ==> !(#[trigger] args[i] is Named),
    ensures
        route_methods(args, from, methods) == methods,
    decreases args.len() - from,
{
    if from < args.len() {
        assert(!(args[from] is Named));
        kept_methods(args, from + 1, methods);
    }
}

proof fn last_methods(args: Seq<DecoratorArg>, from: int, at: int, methods: Seq<Seq<char>>)
    requires
        0 <= from <= at < args.len(),
        methods_argument(args[at]) is Some,
        forall|i: int| at < i < args.len() ==> !(#[trigger] args[i] is Named),
    ensures
        route_methods(args, from, methods) == listed_strings(methods_argument(args[at])->Some_0, 0, Seq::empty()),
    decreases at - from,
{
    if from == at {
        kept_methods(args, at + 1, listed_strings(methods_argument(args[at])->Some_0, 0, Seq::empty()));
    } else {
        match methods_argument(args[from]) {
            Some(items) => last_methods(args, from + 1, at, listed_strings(items, 0, Seq::empty())),
            None => last_methods(args, from + 1, at, methods),
        }
    }
}

spec fn text_at(items: Seq<Rc<Spanned<Expr>>>, at: int) -> Seq<char> {
    spelled(items[at].node)->Some_0
}

proof fn all_strings(items: Seq<Rc<Spanned<Expr>>>, from: int, found: Seq<Seq<char>>)
    requires
        0 <= from <= items.len(),
        found.len() == from,
        forall|i: int| 0 <= i < items.len() ==> spelled((#[trigger] items[i]).node) is Some,
        forall|i: int| 0 <= i < from ==> spelled(items[i].node) == Some(#[trigger] found[i]),
    ensures
        listed_strings(items, from, found).len() == items.len(),
        forall|i: int|
            0 <= i < items.len() ==> spelled(items[i].node) == Some(
                #[trigger] listed_strings(items, from, found)[i],
            ),
    decreases items.len() - from,
{
    if from < items.len() {
        assert(spelled(items[from].node) is Some);
        all_strings(items, from + 1, found.push(text_at(items, from)));
    }
}

// ---------------------------------------------------------------------------
// Imports
// ---------------------------------------------------------------------------

/// A string literal spells its text, and nothing else spells anything.
pub proof fn law_only_string_literals_spell(expr: Expr)
    ensures
        spelled(expr) matches Some(text) ==> (expr matches Expr::Literal(Literal::String(written)) && written@ == text),
        expr matches Expr::Literal(Literal::String(written)) ==> spelled(expr) == Some(written@),
{
}

/// A Rust import asks for its crate by name, whatever it takes from it, except for the standard library; no other
/// declaration asks for a crate.
pub proof fn law_rust_imports_ask_for_their_crate(decl: Declaration)
    ensures
        imported_crate(decl) == (match decl {
            Declaration::Import(import) => match import.kind {
                ImportKind::RustCrate { crate_name, .. } | ImportKind::RustFrom { crate_name, .. } => if crate_name@
                    != "std"@ {
                    Some(crate_name@)
                } else {
                    None
                },
                ImportKind::Module(_) | ImportKind::From { .. } | ImportKind::Python(_) => None,
            },
            _ => None,
        }),
{
}

/// The poem is imported by its bare name alone.
pub proof fn law_the_poem_is_imported_by_name(decl: Declaration)
    ensures
        this_import(decl) <==> (match decl {
            Declaration::Import(import) => match import.kind {
                ImportKind::Module(path) => path.segments@.len() == 1 && path.segments@[0]@ == "this"@,
                _ => false,
            },
            _ => false,
        }),
{
}

} // verus!
