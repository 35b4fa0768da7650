//! Lowering of programs, statements, classes and types.

use std::rc::Rc;

use incan_backend::ast::{
    AssignmentStmt, BinaryOp, BindingKind, CallArg, ClassDecl, CompoundOp, Declaration, ElifBranch, EnumDecl, Expr,
    FieldAnnotation, FieldDecl, FieldMetadata, FunctionDecl, IfStmt, Literal, MethodDecl, ModelDecl, Param, Program,
    Span, Spanned, Statement, Type, Visibility,
};
use incan_backend::ir::reference_shape::{expr_has_rust_reference_shape, type_has_rust_reference_shape};
use incan_backend::ir::{
    AssignTarget, BinOp, FunctionParam, IrDecl, IrDeclKind, IrEnum, IrExprKind, IrFunction, IrImpl, IrProgram, IrStmt,
    IrStmtKind, IrStruct, IrStructKind, IrType, Mutability, StructField, TypedExpr,
};
use incan_backend::lowering::classes::ClassSurface;
use incan_backend::lowering::program::{ProgramAnswers, ProgramInterruption, ProgramRequest};
use incan_backend::lowering::types::{PowExponentKind, ResolvedType};
use incan_backend::lowering::{
    AstLowering, ExprAnswer, Interruption, LoweredExpr, LoweringError, LoweringErrors, TypeCheckInfo,
};
use incan_backend::names::NameMap;

fn spanned<T>(node: T) -> Spanned<T> {
    Spanned {
        node,
        span: Span { start: 0, end: 0 },
    }
}

fn expr(node: Expr) -> Rc<Spanned<Expr>> {
    Rc::new(spanned(node))
}

fn ident(name: &str) -> Rc<Spanned<Expr>> {
    expr(Expr::Ident(name.to_string()))
}

fn number(value: i64) -> Rc<Spanned<Expr>> {
    expr(Expr::Literal(Literal::Int(value)))
}

fn text(value: &str) -> Rc<Spanned<Expr>> {
    expr(Expr::Literal(Literal::String(value.to_string())))
}

fn binary(left: Rc<Spanned<Expr>>, op: BinaryOp, right: Rc<Spanned<Expr>>) -> Rc<Spanned<Expr>> {
    expr(Expr::Binary(left, op, right))
}

fn call(name: &str, args: Vec<Rc<Spanned<Expr>>>) -> Rc<Spanned<Expr>> {
    expr(Expr::Call(
        ident(name),
        args.into_iter().map(CallArg::Positional).collect(),
    ))
}

fn simple(name: &str) -> Type {
    Type::Simple(name.to_string())
}

fn generic(name: &str, args: Vec<Type>) -> Type {
    Type::Generic(name.to_string(), args.into_iter().map(spanned).collect())
}

fn give_back(value: Rc<Spanned<Expr>>) -> Spanned<Statement> {
    spanned(Statement::Return(Some(value)))
}

fn assign(binding: BindingKind, name: &str, value: Rc<Spanned<Expr>>) -> Spanned<Statement> {
    spanned(Statement::Assignment(AssignmentStmt {
        binding,
        name: name.to_string(),
        ty: None,
        value,
    }))
}

fn function(
    name: &str,
    params: &[(&str, &str)],
    return_type: Type,
    body: Vec<Spanned<Statement>>,
) -> Spanned<Declaration> {
    spanned(Declaration::Function(Rc::new(FunctionDecl {
        name: name.to_string(),
        is_async: false,
        decorators: Vec::new(),
        params: params
            .iter()
            .map(|(name, ty)| {
                spanned(Param {
                    name: name.to_string(),
                    ty: spanned(simple(ty)),
                    is_mut: false,
                })
            })
            .collect(),
        return_type: spanned(return_type),
        body,
    })))
}

fn field(name: &str, ty: &str) -> Spanned<FieldDecl> {
    spanned(FieldDecl {
        name: name.to_string(),
        ty: spanned(simple(ty)),
        annotation: None,
        visibility: Visibility::Public,
        default: None,
        metadata: FieldMetadata {
            alias: None,
            description: None,
        },
    })
}

fn method(name: &str, result: &str) -> Rc<Spanned<MethodDecl>> {
    Rc::new(spanned(MethodDecl {
        name: name.to_string(),
        is_async: false,
        params: Vec::new(),
        return_type: spanned(simple(result)),
        body: Some(Vec::new()),
    }))
}

fn class(
    name: &str,
    extends: Option<&str>,
    fields: Vec<Spanned<FieldDecl>>,
    methods: Vec<Rc<Spanned<MethodDecl>>>,
) -> Rc<ClassDecl> {
    Rc::new(ClassDecl {
        name: name.to_string(),
        docstring: None,
        decorators: Vec::new(),
        extends: extends.map(str::to_string),
        traits: Vec::new(),
        fields,
        methods,
        properties: Vec::new(),
    })
}

fn surface() -> ClassSurface {
    ClassSurface {
        derives: vec!["Eq".to_string()],
        derive_rust_modules: Vec::new(),
        visibility: Visibility::Public,
        type_params: Vec::new(),
        lint_allows: Vec::new(),
    }
}

/// A lowered expression that stands for any other.
fn entry(number: u64) -> ExprAnswer {
    Ok(LoweredExpr {
        expr: TypedExpr {
            kind: IrExprKind::Entry(number),
            ty: IrType::Int,
        },
        is_copy: true,
    })
}

fn entries(count: u64) -> Vec<ExprAnswer> {
    (0..count).map(entry).collect()
}

/// Lowers statements, answering every expression that is asked for.
fn lower_body(
    params: &[FunctionParam],
    stmts: &Vec<Spanned<Statement>>,
) -> Result<Vec<IrStmt>, LoweringError> {
    let mut count = 0;
    loop {
        let mut lowering = AstLowering::new();
        let mut scope = NameMap::new();
        for param in params {
            scope.insert(param.name.clone(), param.ty.clone());
        }
        lowering.scopes.push(scope);
        let mut answers = entries(count);
        match lowering.lower_statements(stmts, &mut answers) {
            Ok(body) => return Ok(body),
            Err(Interruption::Error(error)) => return Err(error),
            Err(Interruption::Expression(_)) => count += 1,
        }
    }
}

fn lower_function(f: &FunctionDecl) -> Result<IrDecl, LoweringError> {
    let lowering = AstLowering::new();
    let params: Vec<FunctionParam> = f
        .params
        .iter()
        .map(|param| FunctionParam {
            name: param.node.name.clone(),
            ty: lowering.lower_type(&param.node.ty.node),
            mutability: Mutability::Immutable,
            is_self: false,
        })
        .collect();
    let body = lower_body(&params, &f.body)?;
    Ok(IrDecl::new(IrDeclKind::Function(IrFunction {
        name: f.name.clone(),
        params,
        return_type: lowering.lower_type(&f.return_type.node),
        body,
        is_async: f.is_async,
    })))
}

fn lower_model(model: &ModelDecl) -> IrStruct {
    let lowering = AstLowering::new();
    IrStruct {
        kind: IrStructKind::Model,
        name: model.name.clone(),
        docstring: None,
        fields: model
            .fields
            .iter()
            .map(|field| StructField {
                name: field.node.name.clone(),
                ty: lowering.lower_type(&field.node.ty.node),
                surface_type_name: None,
                visibility: Visibility::Public,
                default: None,
                alias: None,
                description: None,
            })
            .collect(),
        derives: Vec::new(),
        visibility: Visibility::Public,
        type_params: Vec::new(),
        derive_rust_modules: Vec::new(),
        lint_allows: Vec::new(),
    }
}

fn block(target: &str, trait_name: Option<&str>) -> IrImpl {
    IrImpl {
        target_type: target.to_string(),
        trait_name: trait_name.map(str::to_string),
        methods: Vec::new(),
    }
}

fn answer(request: &ProgramRequest, program: &Program, answers: &mut ProgramAnswers) {
    match request {
        ProgramRequest::Expression(_) => answers.exprs.push(entry(0)),
        ProgramRequest::Model(model) => answers.models.push(Ok(lower_model(model))),
        ProgramRequest::ModelMethods(name, _) => answers.impls.push(Ok(block(name, None))),
        ProgramRequest::Surface(_) => answers.surfaces.push(surface()),
        ProgramRequest::ClassMethods(name, _) => answers.impls.push(Ok(block(name, None))),
        ProgramRequest::TraitImpl(name, adopted, _) => answers.impls.push(Ok(block(name, Some(adopted)))),
        ProgramRequest::Declaration(at) => answers.declarations.push(match &program.declarations[*at].node {
            Declaration::Function(f) => lower_function(f),
            Declaration::Enum(e) => Ok(IrDecl::new(IrDeclKind::Enum(IrEnum {
                name: e.name.clone(),
                variants: e.variants.clone(),
            }))),
            other => panic!("unexpected declaration {other:?}"),
        }),
    }
}

/// Lowers a program, answering every request in turn. The requests that were made come back too.
fn lower_with_requests(program: &Program) -> (Result<IrProgram, LoweringErrors>, Vec<ProgramRequest>) {
    let mut requests: Vec<ProgramRequest> = Vec::new();
    loop {
        let mut lowering = AstLowering::new();
        let mut answers = ProgramAnswers::new();
        for request in &requests {
            answer(request, program, &mut answers);
        }
        match lowering.lower_program(program, &mut answers) {
            Ok(lowered) => return (Ok(lowered), requests),
            Err(ProgramInterruption::Errors(errors)) => return (Err(errors), requests),
            Err(ProgramInterruption::Awaiting(request)) => requests.push(request),
        }
    }
}

fn lower_source(declarations: Vec<Spanned<Declaration>>) -> Result<IrProgram, LoweringErrors> {
    lower_with_requests(&Program { declarations }).0
}

#[test]
fn test_lower_simple_function() {
    let ir = lower_source(vec![function(
        "add",
        &[("a", "int"), ("b", "int")],
        simple("int"),
        vec![give_back(binary(ident("a"), BinaryOp::Add, ident("b")))],
    )])
    .unwrap();
    assert_eq!(ir.declarations.len(), 1);
    if let IrDeclKind::Function(f) = &ir.declarations[0].kind {
        assert_eq!(f.name, "add");
        assert_eq!(f.params.len(), 2);
    } else {
        panic!("Expected function declaration");
    }
}

#[test]
fn test_lower_model() {
    let ir = lower_source(vec![spanned(Declaration::Model(Rc::new(ModelDecl {
        name: "User".to_string(),
        decorators: Vec::new(),
        fields: vec![field("name", "str"), field("age", "int")],
        methods: Vec::new(),
    })))])
    .unwrap();
    assert_eq!(ir.declarations.len(), 2);
    if let IrDeclKind::Struct(s) = &ir.declarations[0].kind {
        assert_eq!(s.name, "User");
        assert_eq!(s.fields.len(), 2);
    } else {
        panic!("Expected struct declaration");
    }
}

#[test]
fn test_lower_main_entry() {
    let ir = lower_source(vec![function(
        "main",
        &[],
        simple("None"),
        vec![spanned(Statement::Pass)],
    )])
    .unwrap();
    assert_eq!(ir.entry_point, Some("main".to_string()));
}

#[test]
fn test_lower_if_statement() {
    let ir = lower_source(vec![function(
        "check",
        &[("x", "int")],
        simple("str"),
        vec![spanned(Statement::If(IfStmt {
            condition: binary(ident("x"), BinaryOp::Gt, number(0)),
            then_body: vec![give_back(text("positive"))],
            elif_branches: vec![ElifBranch {
                condition: binary(ident("x"), BinaryOp::Lt, number(0)),
                body: vec![give_back(text("negative"))],
            }],
            else_body: Some(vec![give_back(text("zero"))]),
        }))],
    )])
    .unwrap();
    assert_eq!(ir.declarations.len(), 1);
    if let IrDeclKind::Function(f) = &ir.declarations[0].kind {
        assert!(!f.body.is_empty());
        let IrStmtKind::If { else_branch, .. } = &f.body[0].kind else {
            panic!("Expected an if statement");
        };
        let nested = else_branch.as_ref().unwrap();
        assert_eq!(nested.len(), 1);
        assert!(matches!(&nested[0].kind, IrStmtKind::If { else_branch: Some(_), .. }));
    } else {
        panic!("Expected function declaration");
    }
}

#[test]
fn test_lower_for_loop() {
    let ir = lower_source(vec![function(
        "count",
        &[],
        simple("None"),
        vec![spanned(Statement::For {
            var: "i".to_string(),
            iter: call("range", vec![number(10)]),
            body: vec![spanned(Statement::Expr(call("print", vec![ident("i")])))],
        })],
    )])
    .unwrap();
    assert_eq!(ir.declarations.len(), 1);
}

#[test]
fn test_lower_binary_expressions() {
    let ir = lower_source(vec![function(
        "math",
        &[("a", "int"), ("b", "int")],
        simple("int"),
        vec![
            assign(BindingKind::Inferred, "x", binary(ident("a"), BinaryOp::Add, ident("b"))),
            assign(BindingKind::Inferred, "y", binary(ident("a"), BinaryOp::Mul, ident("b"))),
            assign(BindingKind::Inferred, "z", binary(ident("a"), BinaryOp::Sub, ident("b"))),
            give_back(binary(
                binary(ident("x"), BinaryOp::Add, ident("y")),
                BinaryOp::Add,
                ident("z"),
            )),
        ],
    )])
    .unwrap();
    assert_eq!(ir.declarations.len(), 1);
}

#[test]
fn test_lower_list_literal() {
    let ir = lower_source(vec![function(
        "get_list",
        &[],
        generic("List", vec![simple("int")]),
        vec![give_back(expr(Expr::List(vec![number(1), number(2), number(3)])))],
    )])
    .unwrap();
    assert_eq!(ir.declarations.len(), 1);
    let IrDeclKind::Function(f) = &ir.declarations[0].kind else {
        panic!("Expected function declaration");
    };
    assert_eq!(f.return_type, IrType::List(Rc::new(IrType::Int)));
}

#[test]
fn test_lower_enum() {
    let ir = lower_source(vec![spanned(Declaration::Enum(EnumDecl {
        name: "Color".to_string(),
        variants: vec!["Red".to_string(), "Green".to_string(), "Blue".to_string()],
    }))])
    .unwrap();
    assert_eq!(ir.declarations.len(), 1);
    if let IrDeclKind::Enum(e) = &ir.declarations[0].kind {
        assert_eq!(e.name, "Color");
        assert_eq!(e.variants.len(), 3);
    } else {
        panic!("Expected enum declaration");
    }
}

#[test]
fn test_inferred_reassign_mutable() {
    let ir = lower_source(vec![function(
        "test",
        &[],
        simple("int"),
        vec![
            assign(BindingKind::Mutable, "x", number(1)),
            assign(BindingKind::Inferred, "x", number(2)),
            give_back(ident("x")),
        ],
    )])
    .unwrap();
    assert_eq!(ir.declarations.len(), 1);
    if let IrDeclKind::Function(f) = &ir.declarations[0].kind {
        assert_eq!(f.body.len(), 3, "Expected 3 statements");
        assert!(matches!(
            &f.body[0].kind,
            IrStmtKind::Let {
                mutability: Mutability::Mutable,
                ..
            }
        ));
        assert!(matches!(
            &f.body[1].kind,
            IrStmtKind::Assign {
                target: AssignTarget::Var(_),
                ..
            }
        ));
    } else {
        panic!("Expected function declaration");
    }
}

#[test]
fn test_inferred_reassign_immutable_error() {
    let result = lower_source(vec![function(
        "test",
        &[],
        simple("int"),
        vec![
            assign(BindingKind::Inferred, "x", number(1)),
            assign(BindingKind::Inferred, "x", number(2)),
            give_back(ident("x")),
        ],
    )]);
    assert!(result.is_err(), "Expected error for immutable reassignment");
    let errors = result.unwrap_err();
    assert!(
        errors.0[0].message.contains("immutable"),
        "Error should mention immutable"
    );
}

#[test]
fn a_requested_expression_keeps_its_scopes_open() {
    let conditional = |then_body: Vec<Spanned<Statement>>, else_body: Option<Vec<Spanned<Statement>>>| {
        Statement::If(IfStmt {
            condition: ident("c"),
            then_body,
            elif_branches: Vec::new(),
            else_body,
        })
    };
    let depth = |statement: Statement, count: u64| {
        let mut lowering = AstLowering::new();
        let mut answers = entries(count);
        let outcome = lowering.lower_statement(&statement, &mut answers);
        (lowering.scopes.len(), outcome.is_ok())
    };
    let in_else = || conditional(vec![spanned(Statement::Pass)], Some(vec![give_back(number(1))]));
    assert_eq!(depth(in_else(), 0), (2, false));
    assert_eq!(depth(conditional(vec![give_back(number(1))], None), 1), (2, false));
    assert_eq!(depth(in_else(), 2), (1, true));
    let failing = conditional(
        Vec::new(),
        Some(vec![spanned(Statement::TupleAssign {
            targets: Vec::new(),
            value: ident("x"),
        })]),
    );
    assert_eq!(depth(failing, 0), (1, false));
}

#[test]
fn built_in_functions_can_be_named_explicitly() {
    let member = |root: &str, namespace: &str| {
        let space = expr(Expr::Field(ident(root), namespace.to_string()));
        expr(Expr::Field(space, "len".to_string()))
    };
    assert_eq!(AstLowering::explicit_builtin_member_name(&member("std", "builtins")), Some("len"));
    assert_eq!(AstLowering::explicit_builtin_member_name(&member("std", "math")), None);
    assert_eq!(AstLowering::explicit_builtin_member_name(&member("mine", "builtins")), None);
    assert_eq!(AstLowering::explicit_builtin_member_name(&ident("len")), None);
}

#[test]
fn borrowed_callback_display_preserves_reference_shape() {
    assert!(type_has_rust_reference_shape(&IrType::RustDisplay(
        "&mut egui::Ui".to_string()
    )));
    assert!(type_has_rust_reference_shape(&IrType::RustDisplay(
        "&eframe::CreationContext".to_string()
    )));
    assert!(!type_has_rust_reference_shape(&IrType::RustDisplay(
        "egui::Ui".to_string()
    )));
}

#[test]
fn displayed_references_may_be_indented() {
    assert!(type_has_rust_reference_shape(&IrType::RustDisplay("  &str".to_string())));
    assert!(type_has_rust_reference_shape(&IrType::RustDisplay("\u{2003}&str".to_string())));
    assert!(!type_has_rust_reference_shape(&IrType::Int));
    assert!(type_has_rust_reference_shape(&IrType::Ref(Rc::new(IrType::Int))));
    assert!(!expr_has_rust_reference_shape(&TypedExpr {
        kind: IrExprKind::Unit,
        ty: IrType::Unit,
    }));
}

#[test]
fn all_failures_of_a_program_are_reported() {
    let broken = |name: &str| {
        function(
            name,
            &[],
            simple("int"),
            vec![
                assign(BindingKind::Inferred, "x", number(1)),
                assign(BindingKind::Inferred, "x", number(2)),
            ],
        )
    };
    let errors = lower_source(vec![broken("first"), broken("second")]).unwrap_err();
    assert_eq!(errors.0.len(), 2);
}

#[test]
fn functions_are_registered_with_their_types() {
    let ir = lower_source(vec![function(
        "add",
        &[("a", "int"), ("b", "float")],
        simple("str"),
        vec![spanned(Statement::Pass)],
    )])
    .unwrap();
    let signature = ir.function_registry.signatures.get("add").unwrap();
    assert_eq!(signature.params.len(), 2);
    assert_eq!(signature.params[1].ty, IrType::Float);
    assert_eq!(signature.return_type, IrType::String);
    assert!(ir.function_registry.signatures.get("missing").is_none());
}

#[test]
fn classes_ask_for_their_surface_and_methods() {
    let program = Program {
        declarations: vec![
            spanned(Declaration::Class(class(
                "Base",
                None,
                vec![field("id", "int")],
                vec![method("show", "str"), method("id_of", "int")],
            ))),
            spanned(Declaration::Class(class(
                "Child",
                Some("Base"),
                vec![field("name", "str")],
                vec![method("show", "str")],
            ))),
        ],
    };
    let (lowered, requests) = lower_with_requests(&program);
    let ir = lowered.unwrap();
    let structs: Vec<&IrStruct> = ir
        .declarations
        .iter()
        .filter_map(|decl| match &decl.kind {
            IrDeclKind::Struct(lowered) => Some(lowered),
            _ => None,
        })
        .collect();
    assert_eq!(structs.len(), 2);
    let names: Vec<&str> = structs[1].fields.iter().map(|field| field.name.as_str()).collect();
    assert_eq!(names, ["id", "name"], "inherited fields come first");
    assert_eq!(structs[1].derives, ["Eq", "Debug", "Clone", "FieldInfo", "IncanClass"]);
    let methods: Vec<Vec<&str>> = requests
        .iter()
        .filter_map(|request| match request {
            ProgramRequest::ClassMethods(_, methods) => {
                Some(methods.iter().map(|method| method.node.name.as_str()).collect())
            }
            _ => None,
        })
        .collect();
    assert_eq!(methods.len(), 2);
    assert_eq!(methods[0], ["show", "id_of"]);
    assert_eq!(methods[1].len(), 2);
    assert!(methods[1].contains(&"show") && methods[1].contains(&"id_of"));
}

#[test]
fn a_class_that_extends_itself_has_no_end() {
    let program = Program {
        declarations: vec![spanned(Declaration::Class(class(
            "Loop",
            Some("Loop"),
            Vec::new(),
            Vec::new(),
        )))],
    };
    let surfaces = || {
        let mut answers = ProgramAnswers::new();
        answers.surfaces.push(surface());
        answers
    };
    assert!(AstLowering::new().attempt_program(&program, &mut surfaces()).is_none());
    let waiting = AstLowering::new().attempt_program(&program, &mut ProgramAnswers::new());
    assert!(matches!(
        waiting,
        Some(Err(ProgramInterruption::Awaiting(ProgramRequest::Surface(_))))
    ));
}

#[test]
fn a_missing_layout_is_reported_before_any_parent_is_looked_at() {
    let program = Program {
        declarations: vec![spanned(Declaration::Class(class(
            "Loop",
            Some("Loop"),
            Vec::new(),
            Vec::new(),
        )))],
    };
    let mut answers = ProgramAnswers::new();
    answers.surfaces.push(surface());
    let mut lowering = AstLowering::new_with_type_info(TypeCheckInfo {
        class_layouts: NameMap::new(),
    });
    match lowering.lower_program(&program, &mut answers) {
        Err(ProgramInterruption::Errors(errors)) => {
            assert_eq!(errors.0.len(), 1);
            assert_eq!(errors.0[0].message, "checked class `Loop` has no lowering layout artifact");
        }
        other => panic!("unexpected result {other:?}"),
    }
}

#[test]
fn fields_name_the_enums_that_are_declared_before_them() {
    let ir = lower_source(vec![
        spanned(Declaration::Class(class("Early", None, vec![field("color", "Color")], vec![]))),
        spanned(Declaration::Enum(EnumDecl {
            name: "Color".to_string(),
            variants: vec!["Red".to_string()],
        })),
        spanned(Declaration::Class(class("Late", None, vec![field("color", "Color")], vec![]))),
    ])
    .unwrap();
    let types: Vec<&IrType> = ir
        .declarations
        .iter()
        .filter_map(|decl| match &decl.kind {
            IrDeclKind::Struct(lowered) => Some(&lowered.fields[0].ty),
            _ => None,
        })
        .collect();
    assert_eq!(
        types,
        [
            &IrType::Struct("Color".to_string()),
            &IrType::Enum("Color".to_string())
        ]
    );
}

#[test]
fn own_methods_win_over_inherited_ones() {
    let mut lowering = AstLowering::new();
    lowering
        .class_decls
        .insert("Base".to_string(), class("Base", None, vec![], vec![method("show", "str")]));
    lowering.class_decls.insert(
        "Child".to_string(),
        class("Child", Some("Base"), vec![], vec![method("show", "int")]),
    );
    let methods = lowering.collect_inherited_methods("Child");
    assert_eq!(methods.len(), 1);
    assert!(matches!(&methods[0].node.return_type.node, Type::Simple(name) if name == "int"));
}

#[test]
fn annotations_give_their_types() {
    let mut lowering = AstLowering::new();
    lowering
        .enum_names
        .insert("Color".to_string(), IrType::Enum("Color".to_string()));
    assert_eq!(lowering.lower_type(&simple("int")), IrType::Int);
    assert_eq!(lowering.lower_type(&simple("None")), IrType::Unit);
    assert_eq!(lowering.lower_type(&simple("Color")), IrType::Enum("Color".to_string()));
    assert_eq!(lowering.lower_type(&simple("User")), IrType::Struct("User".to_string()));
    assert_eq!(lowering.lower_type(&Type::SelfType), IrType::Unknown);
    assert_eq!(
        lowering.lower_type(&generic("Dict", vec![simple("str"), simple("int")])),
        IrType::Dict(Rc::new(IrType::String), Rc::new(IrType::Int))
    );
    assert_eq!(
        lowering.lower_type(&generic("Dict", vec![simple("str")])),
        IrType::Dict(Rc::new(IrType::String), Rc::new(IrType::Unknown))
    );
    assert_eq!(
        lowering.lower_type(&generic("Box", vec![simple("int")])),
        IrType::NamedGeneric("Box".to_string(), Rc::new(vec![IrType::Int]))
    );
}

#[test]
fn constants_are_frozen() {
    let lowering = AstLowering::new();
    assert_eq!(lowering.lower_const_annotation_type(&simple("str")), IrType::StaticStr);
    assert_eq!(lowering.lower_const_annotation_type(&simple("bytes")), IrType::StaticBytes);
    assert_eq!(
        lowering.lower_const_annotation_type(&generic("List", vec![simple("str")])),
        IrType::NamedGeneric("FrozenList".to_string(), Rc::new(vec![IrType::StaticStr]))
    );
}

#[test]
fn resolved_types_are_lowered() {
    let lowering = AstLowering::new();
    assert_eq!(lowering.lower_resolved_type(&ResolvedType::Str), IrType::String);
    assert_eq!(
        lowering.lower_resolved_type(&ResolvedType::Generic(
            "Result".to_string(),
            vec![ResolvedType::Int, ResolvedType::Str]
        )),
        IrType::Result(Rc::new(IrType::Int), Rc::new(IrType::String))
    );
    assert_eq!(
        lowering.lower_resolved_type(&ResolvedType::TypeVar("T".to_string())),
        IrType::Generic("T".to_string())
    );
}

#[test]
fn operators_are_lowered() {
    let lowering = AstLowering::new();
    assert_eq!(lowering.lower_binop(&BinaryOp::NotEq), BinOp::Ne);
    assert_eq!(lowering.lower_binop(&BinaryOp::Pow), BinOp::Pow);
    assert_eq!(lowering.lower_compound_op(&CompoundOp::FloorDiv), BinOp::FloorDiv);
}

#[test]
fn arithmetic_promotes_to_float() {
    let lowering = AstLowering::new();
    let result = |left, right, op, exponent| lowering.binary_result_type(&left, &right, &op, exponent);
    assert_eq!(result(IrType::Int, IrType::Int, BinaryOp::Add, None), IrType::Int);
    assert_eq!(result(IrType::Int, IrType::Int, BinaryOp::Div, None), IrType::Float);
    assert_eq!(result(IrType::Int, IrType::Float, BinaryOp::Mul, None), IrType::Float);
    assert_eq!(result(IrType::Int, IrType::Int, BinaryOp::Lt, None), IrType::Bool);
    assert_eq!(
        result(
            IrType::Int,
            IrType::Int,
            BinaryOp::Pow,
            Some(PowExponentKind::NonNegativeIntLiteral)
        ),
        IrType::Int
    );
    assert_eq!(result(IrType::Int, IrType::Int, BinaryOp::Pow, None), IrType::Float);
    assert_eq!(result(IrType::String, IrType::String, BinaryOp::Add, None), IrType::String);
}

#[test]
fn inner_scopes_win_and_are_left_again() {
    let mut lowering = AstLowering::new();
    lowering.scopes[0].insert("x".to_string(), IrType::Int);
    assert_eq!(lowering.lookup_var("x"), IrType::Int);
    assert_eq!(lowering.lookup_var("y"), IrType::Unknown);
    let depth = lowering.scopes.len();
    let stmts = vec![spanned(Statement::While {
        condition: ident("x"),
        body: vec![assign(BindingKind::Let, "y", number(1))],
    })];
    let mut answers = entries(2);
    let lowered = lowering.lower_statements(&stmts, &mut answers);
    assert!(lowered.is_ok());
    assert!(answers.is_empty());
    assert_eq!(lowering.scopes.len(), depth);
    assert_eq!(lowering.lookup_var("y"), IrType::Unknown);
}

#[test]
fn expressions_are_asked_for_in_order() {
    let mut lowering = AstLowering::new();
    let stmts = vec![give_back(number(7))];
    let mut answers = Vec::new();
    let Err(Interruption::Expression(asked)) = lowering.lower_statements(&stmts, &mut answers) else {
        panic!("the returned expression must be asked for");
    };
    assert!(matches!(&asked.node, Expr::Literal(Literal::Int(7))));
}

#[test]
fn errors_of_expressions_are_passed_on() {
    let mut lowering = AstLowering::new();
    let stmts = vec![give_back(number(7))];
    let mut answers: Vec<ExprAnswer> = vec![Err(LoweringError {
        message: "no such name".to_string(),
        span: incan_backend::ir::IrSpan { start: 3, end: 4 },
    })];
    let Err(Interruption::Error(error)) = lowering.lower_statements(&stmts, &mut answers) else {
        panic!("the error must be passed on");
    };
    assert_eq!(error.message, "no such name");
    assert_eq!(error.span.start, 3);
}

#[test]
fn imported_rust_types_are_found_in_annotations() {
    let mut lowering = AstLowering::new();
    lowering.rust_import_aliases.insert("Ui".to_string(), ());
    let nested = FieldAnnotation::Generic(
        "List".to_string(),
        vec![FieldAnnotation::Ref(Box::new(FieldAnnotation::Simple("Ui".to_string())))],
    );
    assert!(lowering.field_uses_direct_rust_import(&nested));
    assert!(!lowering.field_uses_direct_rust_import(&FieldAnnotation::Simple("str".to_string())));
    assert!(lowering.type_uses_direct_rust_import(&generic("List", vec![simple("Ui")])));
    assert!(!lowering.type_uses_direct_rust_import(&generic("List", vec![simple("str")])));
}
