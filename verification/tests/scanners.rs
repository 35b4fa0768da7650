//! What programs use.

use std::rc::Rc;

use incan_backend::ast::{
    BinaryOp, BindingKind, CallArg, ConstDecl, Declaration, Decorator, DecoratorArg, DecoratorArgValue, DictComp,
    DictEntry, ElifBranch, Expr, FStringPart, FunctionDecl, IfExpr, IfStmt, ImportDecl, ImportKind, ImportPath,
    ListComp, Literal, MatchArm, MatchBody, MethodDecl, ModelDecl, Program, SliceExpr, Span, Spanned, Statement,
    TraitDecl, Type, UnaryOp,
};
use incan_backend::scanners::{
    check_for_this_import, collect_routes, collect_rust_crates, detect_async_usage, detect_list_helpers_usage,
    detect_serde_usage, detect_web_usage,
};

fn spanned<T>(node: T) -> Spanned<T> {
    Spanned {
        node,
        span: Span { start: 0, end: 0 },
    }
}

fn expr(node: Expr) -> Rc<Spanned<Expr>> {
    Rc::new(spanned(node))
}

fn ident(name: &str) -> Rc<Spanned<Expr>> {
    expr(Expr::Ident(name.to_string()))
}

fn text(value: &str) -> Rc<Spanned<Expr>> {
    expr(Expr::Literal(Literal::String(value.to_string())))
}

fn program(declarations: Vec<Declaration>) -> Program {
    Program {
        declarations: declarations.into_iter().map(spanned).collect(),
    }
}

fn decorated(name: &str, is_async: bool, decorators: Vec<Decorator>, body: Vec<Statement>) -> Declaration {
    Declaration::Function(Rc::new(FunctionDecl {
        name: name.to_string(),
        is_async,
        decorators: decorators.into_iter().map(spanned).collect(),
        params: Vec::new(),
        return_type: spanned(Type::Unit),
        body: body.into_iter().map(spanned).collect(),
    }))
}

fn function(body: Vec<Statement>) -> Program {
    program(vec![decorated("f", false, Vec::new(), body)])
}

fn import(kind: ImportKind) -> Declaration {
    Declaration::Import(ImportDecl { kind, alias: None })
}

fn path(segments: &[&str]) -> ImportPath {
    ImportPath {
        segments: segments.iter().map(|name| name.to_string()).collect(),
        is_absolute: false,
        parent_levels: 0,
    }
}

#[test]
fn serde_derives_are_found() {
    let derive = |name: &str| {
        program(vec![Declaration::Model(Rc::new(ModelDecl {
            name: "User".to_string(),
            decorators: vec![spanned(Decorator {
                name: "derive".to_string(),
                args: vec![DecoratorArg::Positional(ident(name))],
            })],
            fields: Vec::new(),
            methods: Vec::new(),
        }))])
    };
    assert!(detect_serde_usage(&derive("Serialize")));
    assert!(detect_serde_usage(&derive("Deserialize")));
    assert!(!detect_serde_usage(&derive("Debug")));
    assert!(!detect_serde_usage(&program(Vec::new())));
}

#[test]
fn async_code_is_found_wherever_it_stands() {
    assert!(detect_async_usage(&program(vec![decorated("f", true, Vec::new(), Vec::new())])));
    let awaiting = || expr(Expr::Await(ident("task")));
    assert!(detect_async_usage(&function(vec![Statement::Return(Some(awaiting()))])));
    assert!(detect_async_usage(&function(vec![Statement::Expr(expr(Expr::FString(vec![
        FStringPart::Expr(awaiting())
    ])))])));
    assert!(detect_async_usage(&function(vec![Statement::Expr(expr(Expr::Call(
        ident("print"),
        vec![CallArg::Named("end".to_string(), awaiting())]
    )))])));
    for name in ["spawn", "sleep", "timeout", "channel", "unbounded_channel"] {
        assert!(detect_async_usage(&function(vec![Statement::Expr(expr(Expr::Call(
            ident(name),
            Vec::new()
        )))])));
    }
    assert!(!detect_async_usage(&function(vec![Statement::Expr(expr(Expr::Call(
        ident("print"),
        Vec::new()
    )))])));
    assert!(!detect_async_usage(&function(vec![Statement::Return(None)])));
}

#[test]
fn list_helpers_are_found() {
    let calling = |method: &str| {
        function(vec![Statement::Expr(expr(Expr::MethodCall(
            ident("items"),
            method.to_string(),
            Vec::new(),
        )))])
    };
    for name in ["remove", "count", "index"] {
        assert!(detect_list_helpers_usage(&calling(name)));
    }
    assert!(!detect_list_helpers_usage(&calling("append")));
}

/// Statements that hold an expression, one for each place that an expression can stand at.
fn places(held: &dyn Fn() -> Rc<Spanned<Expr>>) -> Vec<Statement> {
    let idle = || vec![spanned(Statement::Pass)];
    let acting = || vec![spanned(Statement::Expr(held()))];
    let arm = |guard: Option<Rc<Spanned<Expr>>>, body: MatchBody| {
        vec![spanned(MatchArm {
            pattern: "_".to_string(),
            guard,
            body,
        })]
    };
    let conditional = |condition: Rc<Spanned<Expr>>,
                       then_body: Vec<Spanned<Statement>>,
                       elif_branches: Vec<ElifBranch>,
                       else_body: Option<Vec<Spanned<Statement>>>| {
        Statement::If(IfStmt {
            condition,
            then_body,
            elif_branches,
            else_body,
        })
    };
    let elif = |condition: Rc<Spanned<Expr>>, body: Vec<Spanned<Statement>>| vec![ElifBranch { condition, body }];
    let slice = |start: Option<Rc<Spanned<Expr>>>, end: Option<Rc<Spanned<Expr>>>, step: Option<Rc<Spanned<Expr>>>| {
        Expr::Slice(ident("a"), SliceExpr { start, end, step })
    };
    let list_comp = |item: Rc<Spanned<Expr>>, iter: Rc<Spanned<Expr>>, filter: Option<Rc<Spanned<Expr>>>| {
        Expr::ListComp(ListComp {
            expr: item,
            var: "x".to_string(),
            iter,
            filter,
        })
    };
    let dict_comp = |key: Rc<Spanned<Expr>>, value: Rc<Spanned<Expr>>, filter: Option<Rc<Spanned<Expr>>>| {
        Expr::DictComp(DictComp {
            key,
            value,
            var: "x".to_string(),
            iter: ident("a"),
            filter,
        })
    };
    let choice = |condition: Rc<Spanned<Expr>>, then_body: Vec<Spanned<Statement>>| {
        Expr::If(IfExpr {
            condition,
            then_body,
            else_body: None,
        })
    };
    let mut statements: Vec<Statement> = vec![
        Expr::Binary(ident("a"), BinaryOp::Gt, held()),
        Expr::Unary(UnaryOp::Not, held()),
        Expr::Call(ident("f"), vec![CallArg::Positional(held())]),
        Expr::MethodCall(held(), "len".to_string(), Vec::new()),
        Expr::MethodCall(ident("a"), "push".to_string(), vec![CallArg::Positional(held())]),
        Expr::Field(held(), "x".to_string()),
        Expr::Index(held(), ident("i")),
        Expr::Index(ident("a"), held()),
        Expr::Slice(
            held(),
            SliceExpr {
                start: None,
                end: None,
                step: None,
            },
        ),
        slice(Some(held()), None, None),
        slice(None, Some(held()), None),
        slice(None, None, Some(held())),
        Expr::Try(held()),
        choice(held(), idle()),
        choice(ident("a"), acting()),
        Expr::Match(held(), Vec::new()),
        Expr::Match(ident("a"), arm(Some(held()), MatchBody::Block(idle()))),
        Expr::Match(ident("a"), arm(None, MatchBody::Expr(held()))),
        Expr::Match(ident("a"), arm(None, MatchBody::Block(acting()))),
        Expr::Closure(Vec::new(), held()),
        Expr::List(vec![held()]),
        Expr::Dict(vec![DictEntry {
            key: held(),
            value: ident("a"),
        }]),
        Expr::Dict(vec![DictEntry {
            key: ident("a"),
            value: held(),
        }]),
        Expr::FString(vec![FStringPart::Literal("n".to_string()), FStringPart::Expr(held())]),
        list_comp(held(), ident("a"), None),
        list_comp(ident("x"), held(), None),
        list_comp(ident("x"), ident("a"), Some(held())),
        dict_comp(held(), ident("x"), None),
        dict_comp(ident("x"), held(), None),
        dict_comp(ident("x"), ident("x"), Some(held())),
        Expr::Constructor("Point".to_string(), vec![CallArg::Positional(held())]),
        Expr::Paren(held()),
    ]
    .into_iter()
    .map(|node| Statement::Expr(expr(node)))
    .collect();
    statements.extend([
        conditional(held(), idle(), Vec::new(), None),
        conditional(ident("a"), acting(), Vec::new(), None),
        conditional(ident("a"), idle(), elif(held(), idle()), None),
        conditional(ident("a"), idle(), elif(ident("b"), acting()), None),
        conditional(ident("a"), idle(), Vec::new(), Some(acting())),
        Statement::While {
            condition: held(),
            body: idle(),
        },
        Statement::For {
            var: "x".to_string(),
            iter: held(),
            body: idle(),
        },
        Statement::FieldAssignment {
            object: held(),
            field: "x".to_string(),
            value: ident("a"),
        },
        Statement::IndexAssignment {
            object: held(),
            index: ident("i"),
            value: ident("a"),
        },
        Statement::IndexAssignment {
            object: ident("a"),
            index: held(),
            value: ident("a"),
        },
        Statement::TupleAssign {
            targets: vec![ident("a"), held()],
            value: ident("b"),
        },
        Statement::ChainedAssignment {
            binding: BindingKind::Inferred,
            targets: vec!["x".to_string(), "y".to_string()],
            value: held(),
        },
        Statement::Return(Some(held())),
    ]);
    statements
}

#[test]
fn no_place_hides_an_expression() {
    let counting = || {
        expr(Expr::MethodCall(
            ident("xs"),
            "count".to_string(),
            vec![CallArg::Positional(expr(Expr::Literal(Literal::Int(1))))],
        ))
    };
    let waiting = || expr(Expr::Await(ident("task")));
    for (at, statement) in places(&counting).into_iter().enumerate() {
        assert!(detect_list_helpers_usage(&function(vec![statement])), "place {at}");
    }
    for (at, statement) in places(&waiting).into_iter().enumerate() {
        assert!(detect_async_usage(&function(vec![statement])), "place {at}");
    }
    for (at, statement) in places(&|| ident("z")).into_iter().enumerate() {
        let quiet = function(vec![statement]);
        assert!(!detect_list_helpers_usage(&quiet) && !detect_async_usage(&quiet), "place {at}");
    }
    assert!(detect_list_helpers_usage(&function(vec![Statement::Expr(expr(
        Expr::Await(counting())
    ))])));
}

#[test]
fn a_helper_in_the_condition_of_an_if_is_found() {
    let condition = expr(Expr::Binary(
        expr(Expr::MethodCall(
            ident("xs"),
            "count".to_string(),
            vec![CallArg::Positional(expr(Expr::Literal(Literal::Int(1))))],
        )),
        BinaryOp::Gt,
        expr(Expr::Literal(Literal::Int(0))),
    ));
    assert!(detect_list_helpers_usage(&function(vec![Statement::If(IfStmt {
        condition,
        then_body: vec![spanned(Statement::Pass)],
        elif_branches: Vec::new(),
        else_body: None,
    })])));
}

#[test]
fn every_kind_of_declaration_is_scanned() {
    let counting = || expr(Expr::MethodCall(ident("xs"), "index".to_string(), Vec::new()));
    assert!(detect_list_helpers_usage(&program(vec![Declaration::Const(ConstDecl {
        name: "N".to_string(),
        ty: None,
        value: counting(),
    })])));
    assert!(detect_list_helpers_usage(&program(vec![Declaration::Trait(TraitDecl {
        name: "Finds".to_string(),
        methods: vec![Rc::new(spanned(MethodDecl {
            name: "find".to_string(),
            is_async: false,
            params: Vec::new(),
            return_type: spanned(Type::Unit),
            body: Some(vec![spanned(Statement::Expr(counting()))]),
        }))],
    })])));
}

#[test]
fn routes_are_collected() {
    let route = |args: Vec<DecoratorArg>| Decorator {
        name: "route".to_string(),
        args,
    };
    let served = program(vec![
        decorated(
            "index",
            true,
            vec![route(vec![DecoratorArg::Positional(text("/"))])],
            Vec::new(),
        ),
        decorated(
            "save",
            false,
            vec![route(vec![
                DecoratorArg::Positional(text("/save")),
                DecoratorArg::Named(
                    "methods".to_string(),
                    DecoratorArgValue::Expr(expr(Expr::List(vec![text("POST"), ident("x"), text("PUT")]))),
                ),
            ])],
            Vec::new(),
        ),
        decorated("nowhere", false, vec![route(Vec::new())], Vec::new()),
    ]);
    assert!(detect_web_usage(&served));
    assert_eq!(
        collect_routes(&served),
        vec![
            ("index".to_string(), "/".to_string(), vec!["GET".to_string()], true),
            (
                "save".to_string(),
                "/save".to_string(),
                vec!["POST".to_string(), "PUT".to_string()],
                false
            ),
        ]
    );
    assert!(!detect_web_usage(&program(Vec::new())));
}

#[test]
fn imported_crates_are_collected_without_std() {
    let imports = program(vec![
        import(ImportKind::RustCrate {
            crate_name: "rand".to_string(),
            path: Vec::new(),
        }),
        import(ImportKind::RustFrom {
            crate_name: "time".to_string(),
            path: Vec::new(),
            items: vec!["Instant".to_string()],
        }),
        import(ImportKind::RustCrate {
            crate_name: "std".to_string(),
            path: Vec::new(),
        }),
        import(ImportKind::RustCrate {
            crate_name: "rand".to_string(),
            path: Vec::new(),
        }),
    ]);
    let mut crates = collect_rust_crates(&imports);
    crates.sort();
    assert_eq!(crates, ["rand", "time"]);
}

#[test]
fn the_poem_is_imported_by_its_name_alone() {
    assert!(check_for_this_import(&program(vec![import(ImportKind::Module(path(&["this"])))])));
    assert!(!check_for_this_import(&program(vec![import(ImportKind::Module(path(&["this", "x"])))])));
    assert!(!check_for_this_import(&program(vec![import(ImportKind::From {
        module: path(&["this"]),
        items: Vec::new(),
    })])));
}
