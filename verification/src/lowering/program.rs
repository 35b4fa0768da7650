//! Lowering of whole programs.
//!
//! A program is lowered in passes: class declarations and trait methods are collected, constants are entered into
//! the root scope, function signatures are registered, and then every declaration is lowered. Failures are collected,
//! so one run reports all of them.

use crate::ast::{ClassDecl, Declaration, Expr, FunctionDecl, MethodDecl, ModelDecl, Param, Program, Spanned};
use crate::ir::{
    FunctionParam, FunctionRegistry, FunctionSignature, IrDecl, IrDeclKind, IrImpl, IrProgram, IrStruct, IrType,
    Mutability, StructModel, TypeModel,
};
use crate::lowering::classes::{ancestry_ends, class_ancestry_ends, class_run, lineage, methods_over, ClassSurface};
use crate::lowering::types::{lowered, scope_model};
use crate::lowering::{
    AstLowering, ErrorModel, ExprAnswer, Interruption, LoweringError, LoweringErrors, LoweringModel, Scope, Stop,
};
use crate::names::NameMap;
use crate::sharing::share;
use crate::text::{same_text, texts};
use std::rc::Rc;
use vstd::prelude::*;

verus! {

broadcast use vstd::string::group_string_axioms;

// ---------------------------------------------------------------------------
// Answers and requests
// ---------------------------------------------------------------------------

/// What the other passes gave, each in the order in which it is needed.
#[derive(Debug)]
pub struct ProgramAnswers {
    /// Lowered expressions.
    pub exprs: Vec<ExprAnswer>,
    /// Lowered models.
    pub models: Vec<Result<IrStruct, LoweringError>>,
    /// Lowered methods and trait implementations.
    pub impls: Vec<Result<IrImpl, LoweringError>>,
    /// What the headers of classes say.
    pub surfaces: Vec<ClassSurface>,
    /// Other lowered declarations.
    pub declarations: Vec<Result<IrDecl, LoweringError>>,
}

/// What lowering a program needs from another pass.
#[derive(Debug)]
#[allow(inconsistent_fields)]
pub enum ProgramRequest {
    /// A lowered expression.
    Expression(Rc<Spanned<Expr>>),
    /// A lowered model.
    Model(Rc<ModelDecl>),
    /// The impl block of a lowered model's methods.
    ModelMethods(String, Rc<ModelDecl>),
    /// What the header of a class says.
    Surface(Rc<ClassDecl>),
    /// The impl block of a lowered class's methods, inherited ones included.
    ClassMethods(String, Vec<Rc<Spanned<MethodDecl>>>),
    /// The impl block of a trait that a lowered class adopts.
    TraitImpl(String, String, Rc<ClassDecl>),
    /// The lowered form of the declaration at a place.
    Declaration(usize),
}

/// Why a program was not lowered.
#[derive(Debug)]
#[allow(inconsistent_fields)]
pub enum ProgramInterruption {
    /// It has errors.
    Errors(LoweringErrors),
    /// Another pass has to answer first.
    Awaiting(ProgramRequest),
}

/// The answers that are left.
#[verifier::ext_equal]
pub ghost struct Given {
    /// Lowered expressions.
    pub exprs: Seq<ExprAnswer>,
    /// Lowered models.
    pub models: Seq<Result<IrStruct, LoweringError>>,
    /// Lowered methods and trait implementations.
    pub impls: Seq<Result<IrImpl, LoweringError>>,
    /// What the headers of classes say.
    pub surfaces: Seq<ClassSurface>,
    /// Other lowered declarations.
    pub declarations: Seq<Result<IrDecl, LoweringError>>,
}

/// What lowering a program needs from another pass.
#[allow(inconsistent_fields)]
pub ghost enum Request {
    /// A lowered expression.
    Expression(Rc<Spanned<Expr>>),
    /// A lowered model.
    Model(Rc<ModelDecl>),
    /// The impl block of a lowered model's methods.
    ModelMethods(Seq<char>, Rc<ModelDecl>),
    /// What the header of a class says.
    Surface(Rc<ClassDecl>),
    /// The impl block of a lowered class's methods.
    ClassMethods(Seq<char>, Seq<Rc<Spanned<MethodDecl>>>),
    /// The impl block of a trait that a lowered class adopts.
    TraitImpl(Seq<char>, Seq<char>, Rc<ClassDecl>),
    /// The lowered form of the declaration at a place.
    Declaration(int),
}

impl ProgramAnswers {
    /// The answers that are left.
    pub open spec fn model(self) -> Given {
        Given {
            exprs: self.exprs@,
            models: self.models@,
            impls: self.impls@,
            surfaces: self.surfaces@,
            declarations: self.declarations@,
        }
    }

    /// No answers.
    pub fn new() -> (answers: Self)
        ensures
            answers.model() == (Given {
                exprs: Seq::empty(),
                models: Seq::empty(),
                impls: Seq::empty(),
                surfaces: Seq::empty(),
                declarations: Seq::empty(),
            }),
    {
        ProgramAnswers {
            exprs: Vec::new(),
            models: Vec::new(),
            impls: Vec::new(),
            surfaces: Vec::new(),
            declarations: Vec::new(),
        }
    }
}

impl ProgramRequest {
    /// What is needed.
    pub open spec fn model(self) -> Request {
        match self {
            ProgramRequest::Expression(expr) => Request::Expression(expr),
            ProgramRequest::Model(model) => Request::Model(model),
            ProgramRequest::ModelMethods(name, model) => Request::ModelMethods(name@, model),
            ProgramRequest::Surface(class) => Request::Surface(class),
            ProgramRequest::ClassMethods(name, methods) => Request::ClassMethods(name@, methods@),
            ProgramRequest::TraitImpl(name, adopted, class) => Request::TraitImpl(name@, adopted@, class),
            ProgramRequest::Declaration(at) => Request::Declaration(at as int),
        }
    }
}

/// The request that stopped a step, where there is one.
pub open spec fn request_of(stop: Option<ProgramRequest>) -> Option<Request> {
    match stop {
        Some(request) => Some(request.model()),
        None => None,
    }
}

// ---------------------------------------------------------------------------
// The first passes
// ---------------------------------------------------------------------------

/// The class that a declaration declares.
pub open spec fn class_of(decl: Declaration) -> Option<Rc<ClassDecl>> {
    match decl {
        Declaration::Class(class) => Some(class),
        _ => None,
    }
}

/// The classes that are known once the declarations from one on were read.
pub open spec fn classes_with(
    known: Map<Seq<char>, Rc<ClassDecl>>,
    decls: Seq<Spanned<Declaration>>,
    from: int,
) -> Map<Seq<char>, Rc<ClassDecl>>
    decreases decls.len() - from,
{
    if from < 0 || from >= decls.len() {
        known
    } else {
        match class_of(decls[from].node) {
            Some(class) => classes_with(known.insert(class.name@, class), decls, from + 1),
            None => classes_with(known, decls, from + 1),
        }
    }
}

/// How many classes are known once the declarations from one on were read.
pub open spec fn class_count_with(
    known: Map<Seq<char>, Rc<ClassDecl>>,
    count: nat,
    decls: Seq<Spanned<Declaration>>,
    from: int,
) -> nat
    decreases decls.len() - from,
{
    if from < 0 || from >= decls.len() {
        count
    } else {
        match class_of(decls[from].node) {
            Some(class) => class_count_with(
                known.insert(class.name@, class),
                if known.contains_key(class.name@) {
                    count
                } else {
                    count + 1
                },
                decls,
                from + 1,
            ),
            None => class_count_with(known, count, decls, from + 1),
        }
    }
}

/// The names of a run of methods.
pub open spec fn method_names(methods: Seq<Rc<Spanned<MethodDecl>>>) -> Seq<Seq<char>> {
    Seq::new(methods.len(), |i: int| methods[i].node.name@)
}

/// The trait methods that are known once the declarations from one on were read.
pub open spec fn traits_with(
    known: Map<Seq<char>, Seq<Seq<char>>>,
    decls: Seq<Spanned<Declaration>>,
    from: int,
) -> Map<Seq<char>, Seq<Seq<char>>>
    decreases decls.len() - from,
{
    if from < 0 || from >= decls.len() {
        known
    } else {
        match decls[from].node {
            Declaration::Trait(t) => traits_with(
                known.insert(t.name@, method_names(t.methods@)),
                decls,
                from + 1,
            ),
            _ => traits_with(known, decls, from + 1),
        }
    }
}

/// The scope chain with a name in its outermost scope.
pub open spec fn rooted(scopes: Seq<Scope>, name: Seq<char>, ty: TypeModel) -> Seq<Scope> {
    if scopes.len() == 0 {
        scopes
    } else {
        scopes.update(0, scopes[0].insert(name, ty))
    }
}

/// The scope chain once the constants from one declaration on were entered.
pub open spec fn constants_with(
    enums: Scope,
    scopes: Seq<Scope>,
    decls: Seq<Spanned<Declaration>>,
    from: int,
) -> Seq<Scope>
    decreases decls.len() - from,
{
    if from < 0 || from >= decls.len() {
        scopes
    } else {
        match decls[from].node {
            Declaration::Const(c) => constants_with(
                enums,
                rooted(
                    scopes,
                    c.name@,
                    match c.ty {
                        Some(annotation) => lowered(enums, annotation.node),
                        None => TypeModel::Unknown,
                    },
                ),
                decls,
                from + 1,
            ),
            _ => constants_with(enums, scopes, decls, from + 1),
        }
    }
}

/// The context once the first passes are through.
pub open spec fn prepared(context: LoweringModel, decls: Seq<Spanned<Declaration>>) -> LoweringModel {
    LoweringModel {
        classes: classes_with(context.classes, decls, 0),
        class_count: class_count_with(context.classes, context.class_count, decls, 0),
        traits: traits_with(context.traits, decls, 0),
        scopes: constants_with(context.enums, context.scopes, decls, 0),
        ..context
    }
}

/// What a parameter is.
pub ghost struct ParamModel {
    /// The name.
    pub name: Seq<char>,
    /// The type.
    pub ty: TypeModel,
    /// Whether it can be assigned.
    pub mutability: Mutability,
    /// Whether it is the receiver.
    pub is_self: bool,
}

impl FunctionParam {
    /// What the parameter is.
    pub open spec fn model(self) -> ParamModel {
        ParamModel { name: self.name@, ty: self.ty.model(), mutability: self.mutability, is_self: self.is_self }
    }
}

/// What a signature is.
pub ghost struct SignatureModel {
    /// The parameters.
    pub params: Seq<ParamModel>,
    /// The return type.
    pub return_type: TypeModel,
}

impl FunctionSignature {
    /// What the signature is.
    pub open spec fn model(self) -> SignatureModel {
        SignatureModel { params: param_models(self.params@), return_type: self.return_type.model() }
    }
}

/// What a run of parameters is.
pub open spec fn param_models(params: Seq<FunctionParam>) -> Seq<ParamModel> {
    Seq::new(params.len(), |i: int| params[i].model())
}

/// What a parameter is lowered to.
pub open spec fn param_lowered(enums: Scope, param: Param) -> ParamModel {
    ParamModel {
        name: param.name@,
        ty: lowered(enums, param.ty.node),
        mutability: if param.is_mut {
            Mutability::Mutable
        } else {
            Mutability::Immutable
        },
        is_self: false,
    }
}

/// The signature of a function.
pub open spec fn signature_of(enums: Scope, f: FunctionDecl) -> SignatureModel {
    SignatureModel {
        params: Seq::new(f.params@.len(), |i: int| param_lowered(enums, f.params@[i].node)),
        return_type: lowered(enums, f.return_type.node),
    }
}

/// The signatures once the functions from one declaration on were registered.
pub open spec fn signatures_with(
    enums: Scope,
    known: Map<Seq<char>, SignatureModel>,
    decls: Seq<Spanned<Declaration>>,
    from: int,
) -> Map<Seq<char>, SignatureModel>
    decreases decls.len() - from,
{
    if from < 0 || from >= decls.len() {
        known
    } else {
        match decls[from].node {
            Declaration::Function(f) => signatures_with(
                enums,
                known.insert(f.name@, signature_of(enums, *f)),
                decls,
                from + 1,
            ),
            _ => signatures_with(enums, known, decls, from + 1),
        }
    }
}

/// What a registry holds.
pub open spec fn registry_model(registry: FunctionRegistry) -> Map<Seq<char>, SignatureModel> {
    registry.signatures@.map_values(|signature: FunctionSignature| signature.model())
}

// ---------------------------------------------------------------------------
// The last pass
// ---------------------------------------------------------------------------

/// What a lowered declaration is.
#[allow(inconsistent_fields)]
pub ghost enum DeclModel {
    /// A struct.
    Struct(StructModel),
    /// An impl block.
    Impl(IrImpl),
    /// Any other declaration.
    Other(IrDecl),
}

/// What a lowered declaration is.
pub open spec fn decl_model(decl: IrDecl) -> DeclModel {
    match decl.kind {
        IrDeclKind::Struct(s) => DeclModel::Struct(s.model()),
        IrDeclKind::Impl(block) => DeclModel::Impl(block),
        _ => DeclModel::Other(decl),
    }
}

/// What a run of lowered declarations is.
pub open spec fn decl_models(decls: Seq<IrDecl>) -> Seq<DeclModel> {
    Seq::new(decls.len(), |i: int| decl_model(decls[i]))
}

/// What a run of failures is.
pub open spec fn error_models(errors: Seq<LoweringError>) -> Seq<ErrorModel> {
    Seq::new(errors.len(), |i: int| errors[i].model())
}

/// How far the last pass has come.
#[verifier::ext_equal]
pub ghost struct Progress {
    /// The declared structs.
    pub structs: Scope,
    /// The declared enums.
    pub enums: Scope,
    /// The answers that are left.
    pub given: Given,
    /// The lowered declarations.
    pub declarations: Seq<DeclModel>,
    /// The failures.
    pub errors: Seq<ErrorModel>,
    /// The function that the program starts with.
    pub entry_point: Option<Seq<char>>,
}

/// The progress behind a step, and the request that stopped it.
pub type Step = (Progress, Option<Request>);

/// The progress with one more declaration.
pub open spec fn declared(p: Progress, decl: DeclModel) -> Progress {
    Progress { declarations: p.declarations.push(decl), ..p }
}

/// The progress with one more failure.
pub open spec fn failed(p: Progress, error: ErrorModel) -> Progress {
    Progress { errors: p.errors.push(error), ..p }
}

/// The progress with one more struct, which is known by its name from then on.
pub open spec fn struct_declared(p: Progress, lowered: StructModel) -> Progress {
    declared(
        Progress { structs: p.structs.insert(lowered.name, TypeModel::Struct(lowered.name)), ..p },
        DeclModel::Struct(lowered),
    )
}

/// The step that takes an impl block off the answers.
pub open spec fn impl_step(p: Progress, request: Request) -> Step {
    if p.given.impls.len() == 0 {
        (p, Some(request))
    } else {
        let rest = Progress { given: Given { impls: p.given.impls.remove(0), ..p.given }, ..p };
        match p.given.impls[0] {
            Ok(block) => (declared(rest, DeclModel::Impl(block)), None),
            Err(error) => (failed(rest, error.model()), None),
        }
    }
}

/// The step that lowers a model: a struct, and an impl block for its methods even where it has none.
pub open spec fn model_step(p: Progress, m: Rc<ModelDecl>) -> Step {
    if p.given.models.len() == 0 {
        (p, Some(Request::Model(m)))
    } else {
        let rest = Progress { given: Given { models: p.given.models.remove(0), ..p.given }, ..p };
        match p.given.models[0] {
            Err(error) => (failed(rest, error.model()), None),
            Ok(lowered) => impl_step(
                struct_declared(rest, lowered.model()),
                Request::ModelMethods(lowered.name@, m),
            ),
        }
    }
}

/// The step that lowers the traits a class adopts, from one of them on.
pub open spec fn adopted_step(p: Progress, name: Seq<char>, class: Rc<ClassDecl>, from: int) -> Step
    decreases class.traits@.len() - from,
{
    if from < 0 || from >= class.traits@.len() {
        (p, None)
    } else {
        match impl_step(p, Request::TraitImpl(name, class.traits@[from]@, class)) {
            (p, Some(request)) => (p, Some(request)),
            (p, None) => adopted_step(p, name, class, from + 1),
        }
    }
}

/// The methods of a class, inherited ones included.
pub open spec fn class_methods(context: LoweringModel, class: Rc<ClassDecl>) -> Seq<Rc<Spanned<MethodDecl>>> {
    methods_over(lineage(context.classes, class.name@, context.class_count), 0, Seq::empty())
}

/// The step that lowers the methods of a class and the traits it adopts.
pub open spec fn behaviour_step(context: LoweringModel, p: Progress, class: Rc<ClassDecl>) -> Step {
    let methods = class_methods(context, class);
    if methods.len() == 0 {
        adopted_step(p, class.name@, class, 0)
    } else {
        match impl_step(p, Request::ClassMethods(class.name@, methods)) {
            (p, Some(request)) => (p, Some(request)),
            (p, None) => adopted_step(p, class.name@, class, 0),
        }
    }
}

/// The context of a step: the enums that are declared by then are known in it.
pub open spec fn context_at(context: LoweringModel, p: Progress) -> LoweringModel {
    LoweringModel { enums: p.enums, ..context }
}

/// The step that lowers a class: a struct, an impl block where it has methods, and one for each adopted trait.
pub open spec fn class_step(context: LoweringModel, p: Progress, class: Rc<ClassDecl>) -> Step {
    if p.given.surfaces.len() == 0 {
        (p, Some(Request::Surface(class)))
    } else {
        let (exprs, result) = class_run(context_at(context, p), p.given.exprs, *class, p.given.surfaces[0]);
        let rest = Progress { given: Given { surfaces: p.given.surfaces.remove(0), exprs, ..p.given }, ..p };
        match result {
            Err(Stop::Expression(expr)) => (rest, Some(Request::Expression(expr))),
            Err(Stop::Error(error)) => (failed(rest, error), None),
            Ok(lowered) => behaviour_step(context, struct_declared(rest, lowered), class),
        }
    }
}

/// Whether a lowered declaration is the function that a program starts with.
pub open spec fn is_entry(decl: IrDecl) -> bool {
    decl.kind matches IrDeclKind::Function(f) && f.name@ == "main"@
}

/// The enums that are known behind a declaration: an enum is known by its name from then on.
pub open spec fn enums_behind(enums: Scope, decl: IrDecl) -> Scope {
    match decl.kind {
        IrDeclKind::Enum(e) => enums.insert(e.name@, TypeModel::Enum(e.name@)),
        _ => enums,
    }
}

/// The step that lowers any other declaration.
pub open spec fn other_step(p: Progress, at: int) -> Step {
    if p.given.declarations.len() == 0 {
        (p, Some(Request::Declaration(at)))
    } else {
        let rest = Progress { given: Given { declarations: p.given.declarations.remove(0), ..p.given }, ..p };
        match p.given.declarations[0] {
            Err(error) => (failed(rest, error.model()), None),
            Ok(decl) => (
                declared(
                    Progress {
                        enums: enums_behind(p.enums, decl),
                        entry_point: if is_entry(decl) {
                            Some("main"@)
                        } else {
                            p.entry_point
                        },
                        ..rest
                    },
                    decl_model(decl),
                ),
                None,
            ),
        }
    }
}

/// The step that lowers one declaration.
pub open spec fn decl_step(context: LoweringModel, p: Progress, decl: Declaration, at: int) -> Step {
    match decl {
        Declaration::Model(m) => model_step(p, m),
        Declaration::Docstring(_) => (p, None),
        Declaration::Class(class) => class_step(context, p, class),
        _ => other_step(p, at),
    }
}

/// The steps that lower the declarations from one on.
pub open spec fn decls_step(
    context: LoweringModel,
    p: Progress,
    decls: Seq<Spanned<Declaration>>,
    from: int,
) -> Step
    decreases decls.len() - from,
{
    if from < 0 || from >= decls.len() {
        (p, None)
    } else {
        match decl_step(context, p, decls[from].node, from) {
            (p, Some(request)) => (p, Some(request)),
            (p, None) => decls_step(context, p, decls, from + 1),
        }
    }
}

/// The last pass over a program, in a context that went through the first ones.
pub open spec fn program_run(context: LoweringModel, given: Given, decls: Seq<Spanned<Declaration>>) -> Step {
    decls_step(context, program_start(context, given), decls, 0)
}

/// Whether every chain of parents that the step of a class walks ends: that of its parent for its fields, where the
/// type checker did not run, and its own for its methods, where its struct is lowered.
pub open spec fn class_walks_end(context: LoweringModel, p: Progress, class: Rc<ClassDecl>) -> bool {
    p.given.surfaces.len() == 0 || {
        &&& context.type_info is None ==> (class.extends matches Some(parent) ==> ancestry_ends(
            context.classes,
            parent@,
            context.class_count,
        ))
        &&& class_run(context_at(context, p), p.given.exprs, *class, p.given.surfaces[0]).1 is Ok ==> ancestry_ends(
            context.classes,
            class.name@,
            context.class_count,
        )
    }
}

/// Whether every chain of parents that the steps from one declaration on walk ends.
pub open spec fn walks_end(
    context: LoweringModel,
    p: Progress,
    decls: Seq<Spanned<Declaration>>,
    from: int,
) -> bool
    decreases decls.len() - from,
{
    if from < 0 || from >= decls.len() {
        true
    } else {
        &&& class_of(decls[from].node) matches Some(class) ==> class_walks_end(context, p, class)
        &&& match decl_step(context, p, decls[from].node, from) {
            (_, Some(_)) => true,
            (next, None) => walks_end(context, next, decls, from + 1),
        }
    }
}

/// The progress with which the last pass over a program starts.
pub open spec fn program_start(context: LoweringModel, given: Given) -> Progress {
    Progress {
        structs: context.structs,
        enums: context.enums,
        given,
        declarations: Seq::empty(),
        errors: Seq::empty(),
        entry_point: None,
    }
}

/// The lowered declarations and the failures so far.
#[derive(Debug)]
struct Draft {
    declarations: Vec<IrDecl>,
    errors: Vec<LoweringError>,
    entry_point: Option<String>,
}

/// How far a draft has come.
spec fn progress_of(context: LoweringModel, given: Given, draft: Draft) -> Progress {
    Progress {
        structs: context.structs,
        enums: context.enums,
        given,
        declarations: decl_models(draft.declarations@),
        errors: error_models(draft.errors@),
        entry_point: match draft.entry_point {
            Some(name) => Some(name@),
            None => None,
        },
    }
}

impl Draft {
    /// Adds a declaration.
    fn declare(&mut self, decl: IrDecl)
        ensures
            decl_models(final(self).declarations@) == decl_models(old(self).declarations@).push(decl_model(decl)),
            final(self).errors == old(self).errors,
            final(self).entry_point == old(self).entry_point,
    {
        self.declarations.push(decl);
        proof {
            assert(decl_models(self.declarations@) =~= decl_models(old(self).declarations@).push(decl_model(decl)));
        }
    }

    /// Adds a failure.
    fn fail(&mut self, error: LoweringError)
        ensures
            error_models(final(self).errors@) == error_models(old(self).errors@).push(error.model()),
            final(self).declarations == old(self).declarations,
            final(self).entry_point == old(self).entry_point,
    {
        self.errors.push(error);
        proof {
            assert(error_models(self.errors@) =~= error_models(old(self).errors@).push(error.model()));
        }
    }

    /// Adds the next impl block of the answers; `false` where there is none.
    fn declare_impl(&mut self, answers: &mut ProgramAnswers) -> (answered: bool)
        ensures
            answered == (old(answers).impls@.len() > 0),
            answered ==> (forall|context: LoweringModel, request: Request|
                #[trigger]
                impl_step(progress_of(context, old(answers).model(), *old(self)), request) == (
                    progress_of(context, final(answers).model(), *final(self)),
                    None::<Request>,
                )),
            !answered ==> *final(self) == *old(self) && *final(answers) == *old(answers),
    {
        if answers.impls.len() == 0 {
            return false;
        }
        match answers.impls.remove(0) {
            Ok(block) => self.declare(IrDecl::new(IrDeclKind::Impl(block))),
            Err(error) => self.fail(error),
        }
        true
    }
}

/// Copies the names of a run of methods.
fn names_of(methods: &Vec<Rc<Spanned<MethodDecl>>>) -> (names: Vec<String>)
    ensures
        texts(names@) == method_names(methods@),
{
    let mut names: Vec<String> = Vec::new();
    let mut i: usize = 0;
    while i < methods.len()
        invariant
            i <= methods@.len(),
            names@.len() == i,
            forall|j: int| 0 <= j < i ==> (#[trigger] names@[j])@ == methods@[j].node.name@,
        decreases methods@.len() - i,
    {
        names.push(methods[i].node.name.clone());
        i += 1;
    }
    proof {
        assert(texts(names@) =~= method_names(methods@));
    }
    names
}

/// Whether a context differs from another only in the structs and enums that are declared.
pub open spec fn names_only(before: LoweringModel, after: LoweringModel) -> bool {
    after == LoweringModel { structs: after.structs, enums: after.enums, ..before }
}

/// How the step of a declaration ended.
enum Ending {
    /// The step is through.
    Through,
    /// Another pass has to answer first.
    Awaiting(ProgramRequest),
    /// A chain of parents that the step has to walk does not end.
    Endless,
}

impl AstLowering {
    /// Collects class declarations and trait methods.
    fn collect_declarations(&mut self, program: &Program)
        ensures
            final(self).model() == (LoweringModel {
                classes: classes_with(old(self).model().classes, program.declarations@, 0),
                class_count: class_count_with(
                    old(self).model().classes,
                    old(self).model().class_count,
                    program.declarations@,
                    0,
                ),
                traits: traits_with(old(self).model().traits, program.declarations@, 0),
                ..old(self).model()
            }),
    {
        register_classes(&mut self.class_decls, program);
        let ghost start = self.model();
        let decls: &Vec<Spanned<Declaration>> = &program.declarations;
        let mut i: usize = 0;
        while i < decls.len()
            invariant
                i <= decls@.len(),
                self.model() == (LoweringModel { traits: self.model().traits, ..start }),
                traits_with(start.traits, decls@, 0) == traits_with(self.model().traits, decls@, i as int),
            decreases decls@.len() - i,
        {
            match &decls[i].node {
                Declaration::Trait(t) => {
                    let names: Vec<String> = names_of(&t.methods);
                    let ghost before = self.model().traits;
                    self.trait_methods.insert(t.name.clone(), names);
                    proof {
                        assert(self.model().traits =~= before.insert(t.name@, method_names(t.methods@)));
                    }
                },
                _ => {},
            }
            i += 1;
        }
    }

    /// Enters the constants of a program into the root scope.
    fn register_constants(&mut self, program: &Program)
        ensures
            final(self).model() == (LoweringModel {
                scopes: constants_with(
                    old(self).model().enums,
                    old(self).model().scopes,
                    program.declarations@,
                    0,
                ),
                ..old(self).model()
            }),
    {
        let ghost start = self.model();
        let decls: &Vec<Spanned<Declaration>> = &program.declarations;
        let mut i: usize = 0;
        while i < decls.len()
            invariant
                i <= decls@.len(),
                start == old(self).model(),
                self.model() == (LoweringModel { scopes: self.model().scopes, ..start }),
                constants_with(start.enums, start.scopes, decls@, 0) == constants_with(
                    start.enums,
                    self.model().scopes,
                    decls@,
                    i as int,
                ),
            decreases decls@.len() - i,
        {
            match &decls[i].node {
                Declaration::Const(c) => {
                    let ty: IrType = match &c.ty {
                        Some(annotation) => self.lower_type(&annotation.node),
                        None => IrType::Unknown,
                    };
                    let ghost before = self.model().scopes;
                    let ghost model = ty.model();
                    if self.scopes.len() > 0 {
                        let ghost root = self.scopes@[0]@;
                        self.scopes[0].insert(c.name.clone(), ty);
                        proof {
                            assert(scope_model(self.scopes@[0]@) =~= scope_model(root).insert(c.name@, model));
                        }
                    }
                    proof {
                        assert(self.model().scopes =~= rooted(before, c.name@, model));
                    }
                },
                _ => {},
            }
            i += 1;
        }
    }

    /// Lowers the parameters of a function.
    fn lower_params(&self, params: &Vec<Spanned<Param>>) -> (result: Vec<FunctionParam>)
        ensures
            param_models(result@) == Seq::new(
                params@.len(),
                |i: int| param_lowered(self.model().enums, params@[i].node),
            ),
    {
        let mut result: Vec<FunctionParam> = Vec::new();
        let mut i: usize = 0;
        while i < params.len()
            invariant
                i <= params@.len(),
                result@.len() == i,
                forall|j: int|
                    0 <= j < i ==> (#[trigger] result@[j]).model() == param_lowered(
                        self.model().enums,
                        params@[j].node,
                    ),
            decreases params@.len() - i,
        {
            let param: &Param = &params[i].node;
            result.push(
                FunctionParam {
                    name: param.name.clone(),
                    ty: self.lower_type(&param.ty.node),
                    mutability: if param.is_mut {
                        Mutability::Mutable
                    } else {
                        Mutability::Immutable
                    },
                    is_self: false,
                },
            );
            i += 1;
        }
        proof {
            assert(param_models(result@) =~= Seq::new(
                params@.len(),
                |i: int| param_lowered(self.model().enums, params@[i].node),
            ));
        }
        result
    }

    /// Registers the signatures of the functions of a program.
    fn register_functions(&self, program: &Program) -> (registry: FunctionRegistry)
        ensures
            registry_model(registry) == signatures_with(
                self.model().enums,
                Map::empty(),
                program.declarations@,
                0,
            ),
    {
        let decls: &Vec<Spanned<Declaration>> = &program.declarations;
        let mut registry = FunctionRegistry { signatures: NameMap::new() };
        let mut i: usize = 0;
        proof {
            assert(registry_model(registry) =~= Map::empty());
        }
        while i < decls.len()
            invariant
                i <= decls@.len(),
                signatures_with(self.model().enums, Map::empty(), decls@, 0) == signatures_with(
                    self.model().enums,
                    registry_model(registry),
                    decls@,
                    i as int,
                ),
            decreases decls@.len() - i,
        {
            match &decls[i].node {
                Declaration::Function(f) => {
                    let params: Vec<FunctionParam> = self.lower_params(&f.params);
                    let return_type: IrType = self.lower_type(&f.return_type.node);
                    let ghost before = registry_model(registry);
                    let ghost signature = FunctionSignature { params, return_type };
                    registry.register(f.name.clone(), params, return_type);
                    proof {
                        assert(signature.model() == signature_of(self.model().enums, **f));
                        assert(registry_model(registry) =~= before.insert(f.name@, signature.model()));
                    }
                },
                _ => {},
            }
            i += 1;
        }
        registry
    }

    /// Makes a struct known by its name and declares it.
    fn declare_struct(&mut self, lowered: IrStruct, draft: &mut Draft)
        ensures
            forall|given: Given| #[trigger]
                struct_declared(progress_of(old(self).model(), given, *old(draft)), lowered.model()) == progress_of(
                    final(self).model(),
                    given,
                    *final(draft),
                ),
            names_only(old(self).model(), final(self).model()),
    {
        self.struct_names.insert(lowered.name.clone(), IrType::Struct(lowered.name.clone()));
        proof {
            assert(self.model().structs =~= old(self).model().structs.insert(
                lowered.name@,
                TypeModel::Struct(lowered.name@),
            ));
        }
        draft.declare(IrDecl::new(IrDeclKind::Struct(lowered)));
    }

    /// Lowers a model.
    fn lower_model_declaration(&mut self, m: &Rc<ModelDecl>, draft: &mut Draft, answers: &mut ProgramAnswers) -> (stop:
        Option<ProgramRequest>)
        ensures
            model_step(progress_of(old(self).model(), old(answers).model(), *old(draft)), *m) == (
                progress_of(final(self).model(), final(answers).model(), *final(draft)),
                request_of(stop),
            ),
            names_only(old(self).model(), final(self).model()),
    {
        if answers.models.len() == 0 {
            return Some(ProgramRequest::Model(share(m)));
        }
        match answers.models.remove(0) {
            Err(error) => {
                draft.fail(error);
                None
            },
            Ok(lowered) => {
                let name: String = lowered.name.clone();
                let ghost rest = Given { models: old(answers).models@.remove(0), ..old(answers).model() };
                proof {
                    assert(answers.model() == rest);
                }
                self.declare_struct(lowered, draft);
                proof {
                    assert(struct_declared(progress_of(old(self).model(), rest, *old(draft)), lowered.model())
                        == progress_of(self.model(), rest, *draft));
                }
                let ghost known = progress_of(self.model(), answers.model(), *draft);
                let ghost request = Request::ModelMethods(name@, *m);
                proof {
                    assert(impl_step(known, request) == impl_step(known, request));
                }
                if draft.declare_impl(answers) {
                    None
                } else {
                    Some(ProgramRequest::ModelMethods(name, share(m)))
                }
            },
        }
    }

    /// Lowers the methods of a class and the traits it adopts.
    fn lower_class_behaviour(&self, c: &Rc<ClassDecl>, draft: &mut Draft, answers: &mut ProgramAnswers) -> (stop: Option<
        ProgramRequest,
    >)
        requires
            ancestry_ends(self.model().classes, c.name@, self.model().class_count),
        ensures
            behaviour_step(self.model(), progress_of(self.model(), old(answers).model(), *old(draft)), *c) == (
                progress_of(self.model(), final(answers).model(), *final(draft)),
                request_of(stop),
            ),
    {
        let ghost context = self.model();
        let methods: Vec<Rc<Spanned<MethodDecl>>> = self.collect_inherited_methods(c.name.as_str());
        if methods.len() > 0 {
            let ghost request = Request::ClassMethods(c.name@, methods@);
            proof {
                let p = progress_of(context, answers.model(), *draft);
                assert(impl_step(p, request) == impl_step(p, request));
            }
            if !draft.declare_impl(answers) {
                return Some(ProgramRequest::ClassMethods(c.name.clone(), methods));
            }
        }
        let ghost start = progress_of(context, answers.model(), *draft);
        let mut i: usize = 0;
        while i < c.traits.len()
            invariant
                i <= c.traits@.len(),
                context == self.model(),
                adopted_step(start, c.name@, *c, 0) == adopted_step(
                    progress_of(context, answers.model(), *draft),
                    c.name@,
                    *c,
                    i as int,
                ),
                behaviour_step(
                    context,
                    progress_of(context, old(answers).model(), *old(draft)),
                    *c,
                ) == adopted_step(start, c.name@, *c, 0),
            decreases c.traits@.len() - i,
        {
            let ghost request = Request::TraitImpl(c.name@, c.traits@[i as int]@, *c);
            proof {
                let p = progress_of(context, answers.model(), *draft);
                assert(impl_step(p, request) == impl_step(p, request));
            }
            if !draft.declare_impl(answers) {
                return Some(ProgramRequest::TraitImpl(c.name.clone(), c.traits[i].clone(), share(c)));
            }
            i += 1;
        }
        None
    }

    /// Lowers a class.
    fn lower_class_declaration(&mut self, c: &Rc<ClassDecl>, draft: &mut Draft, answers: &mut ProgramAnswers) -> (ending:
        Ending)
        ensures
            ({
                let p = progress_of(old(self).model(), old(answers).model(), *old(draft));
                match ending {
                    Ending::Endless => !class_walks_end(old(self).model(), p, *c),
                    Ending::Through => class_walks_end(old(self).model(), p, *c) && class_step(
                        old(self).model(),
                        p,
                        *c,
                    ) == (progress_of(final(self).model(), final(answers).model(), *final(draft)), None::<Request>),
                    Ending::Awaiting(request) => class_walks_end(old(self).model(), p, *c) && class_step(
                        old(self).model(),
                        p,
                        *c,
                    ) == (
                        progress_of(final(self).model(), final(answers).model(), *final(draft)),
                        Some(request.model()),
                    ),
                }
            }),
            names_only(old(self).model(), final(self).model()),
    {
        if answers.surfaces.len() == 0 {
            return Ending::Awaiting(ProgramRequest::Surface(share(c)));
        }
        if self.type_info.is_none() {
            match &c.extends {
                Some(parent) => {
                    if !class_ancestry_ends(&self.class_decls, parent.as_str()) {
                        return Ending::Endless;
                    }
                },
                None => {},
            }
        }
        proof {
            let p = progress_of(old(self).model(), old(answers).model(), *old(draft));
            assert(context_at(old(self).model(), p) == old(self).model());
        }
        let surface: ClassSurface = answers.surfaces.remove(0);
        let result: Result<IrStruct, Interruption> = self.lower_class(c, surface, &mut answers.exprs);
        match result {
            Err(Interruption::Expression(expr)) => Ending::Awaiting(ProgramRequest::Expression(expr)),
            Err(Interruption::Error(error)) => {
                draft.fail(error);
                Ending::Through
            },
            Ok(lowered) => {
                if !class_ancestry_ends(&self.class_decls, c.name.as_str()) {
                    return Ending::Endless;
                }
                let ghost before = progress_of(self.model(), answers.model(), *draft);
                let ghost model = lowered.model();
                proof {
                    assert(struct_declared(before, model) == struct_declared(before, model));
                }
                self.declare_struct(lowered, draft);
                proof {
                    assert(progress_of(self.model(), answers.model(), *draft) == struct_declared(before, model));
                }
                let stop: Option<ProgramRequest> = self.lower_class_behaviour(c, draft, answers);
                proof {
                    lemma_behaviour_ignores_names(
                        old(self).model(),
                        self.model(),
                        struct_declared(before, model),
                        *c,
                    );
                }
                match stop {
                    Some(request) => Ending::Awaiting(request),
                    None => Ending::Through,
                }
            },
        }
    }

    /// Lowers any other declaration.
    fn lower_other_declaration(&mut self, at: usize, draft: &mut Draft, answers: &mut ProgramAnswers) -> (stop: Option<
        ProgramRequest,
    >)
        ensures
            other_step(progress_of(old(self).model(), old(answers).model(), *old(draft)), at as int) == (
                progress_of(final(self).model(), final(answers).model(), *final(draft)),
                request_of(stop),
            ),
            names_only(old(self).model(), final(self).model()),
    {
        if answers.declarations.len() == 0 {
            return Some(ProgramRequest::Declaration(at));
        }
        match answers.declarations.remove(0) {
            Err(error) => {
                draft.fail(error);
                None
            },
            Ok(decl) => {
                match &decl.kind {
                    IrDeclKind::Function(f) => {
                        if same_text(f.name.as_str(), "main") {
                            draft.entry_point = Some("main".to_owned());
                        }
                    },
                    IrDeclKind::Enum(e) => {
                        self.enum_names.insert(e.name.clone(), IrType::Enum(e.name.clone()));
                        proof {
                            assert(self.model().enums =~= old(self).model().enums.insert(
                                e.name@,
                                TypeModel::Enum(e.name@),
                            ));
                        }
                    },
                    _ => {},
                }
                draft.declare(decl);
                None
            },
        }
    }

    /// Lowers a program.
    ///
    /// All failures of its declarations are collected. Where another pass has to answer first, its request is handed
    /// back.
    pub fn lower_program(&mut self, program: &Program, answers: &mut ProgramAnswers) -> (result: Result<
        IrProgram,
        ProgramInterruption,
    >)
        requires
            program_walks_end(old(self).model(), old(answers).model(), program.declarations@),
        ensures
            program_lowered(
                old(self).model(),
                old(answers).model(),
                program.declarations@,
                final(self).model(),
                final(answers).model(),
                result,
            ),
    {
        self.attempt_program(program, answers).unwrap()
    }

    /// Lowers a program; `None` where a chain of parents that has to be walked does not end.
    pub fn attempt_program(&mut self, program: &Program, answers: &mut ProgramAnswers) -> (outcome: Option<
        Result<IrProgram, ProgramInterruption>,
    >)
        ensures
            match outcome {
                Some(result) => program_walks_end(
                    old(self).model(),
                    old(answers).model(),
                    program.declarations@,
                ) && program_lowered(
                    old(self).model(),
                    old(answers).model(),
                    program.declarations@,
                    final(self).model(),
                    final(answers).model(),
                    result,
                ),
                None => !program_walks_end(old(self).model(), old(answers).model(), program.declarations@),
            },
            names_only(prepared(old(self).model(), program.declarations@), final(self).model()),
    {
        self.collect_declarations(program);
        self.register_constants(program);
        let ghost context = prepared(old(self).model(), program.declarations@);
        proof {
            assert(self.model() =~= context);
        }
        let registry: FunctionRegistry = self.register_functions(program);
        let mut draft = Draft { declarations: Vec::new(), errors: Vec::new(), entry_point: None };
        let decls: &Vec<Spanned<Declaration>> = &program.declarations;
        let ghost start = progress_of(self.model(), answers.model(), draft);
        proof {
            assert(start.declarations =~= Seq::empty());
            assert(start.errors =~= Seq::empty());
            assert(start == program_start(context, old(answers).model()));
        }
        let mut i: usize = 0;
        while i < decls.len()
            invariant
                i <= decls@.len(),
                decls@ == program.declarations@,
                context == prepared(old(self).model(), program.declarations@),
                names_only(context, self.model()),
                registry_model(registry) == signatures_with(context.enums, Map::empty(), decls@, 0),
                program_run(context, old(answers).model(), decls@) == decls_step(
                    context,
                    progress_of(self.model(), answers.model(), draft),
                    decls@,
                    i as int,
                ),
                program_walks_end(old(self).model(), old(answers).model(), decls@) == walks_end(
                    context,
                    progress_of(self.model(), answers.model(), draft),
                    decls@,
                    i as int,
                ),
            decreases decls@.len() - i,
        {
            let ghost p = progress_of(self.model(), answers.model(), draft);
            let stop: Option<ProgramRequest> = match &decls[i].node {
                Declaration::Model(m) => self.lower_model_declaration(m, &mut draft, answers),
                Declaration::Docstring(_) => None,
                Declaration::Class(c) => {
                    proof {
                        assert(class_of(decls@[i as int].node) == Some(*c));
                        lemma_class_ignores_names(context, self.model(), p, *c);
                    }
                    match self.lower_class_declaration(c, &mut draft, answers) {
                        Ending::Through => None,
                        Ending::Awaiting(request) => Some(request),
                        Ending::Endless => {
                            return None;
                        },
                    }
                },
                _ => self.lower_other_declaration(i, &mut draft, answers),
            };
            match stop {
                Some(request) => {
                    return Some(Err(ProgramInterruption::Awaiting(request)));
                },
                None => {},
            }
            i += 1;
        }
        if draft.errors.len() == 0 {
            Some(
                Ok(
                    IrProgram {
                        declarations: draft.declarations,
                        entry_point: draft.entry_point,
                        function_registry: registry,
                    },
                ),
            )
        } else {
            Some(Err(ProgramInterruption::Errors(LoweringErrors(draft.errors))))
        }
    }
}

/// Whether every chain of parents that lowering a program walks ends.
pub open spec fn program_walks_end(
    before: LoweringModel,
    given: Given,
    decls: Seq<Spanned<Declaration>>,
) -> bool {
    let context = prepared(before, decls);
    walks_end(context, program_start(context, given), decls, 0)
}

/// Whether this is what lowering a program gives: the context and the answers that are left behind it, and its result.
pub open spec fn program_lowered(
    before: LoweringModel,
    given: Given,
    decls: Seq<Spanned<Declaration>>,
    after: LoweringModel,
    left: Given,
    result: Result<IrProgram, ProgramInterruption>,
) -> bool {
    let context = prepared(before, decls);
    let (p, stop) = program_run(context, given, decls);
    &&& after == LoweringModel { structs: p.structs, enums: p.enums, ..context }
    &&& left == p.given
    &&& match (result, stop) {
        (Err(ProgramInterruption::Awaiting(request)), Some(expected)) => request.model() == expected,
        (Err(ProgramInterruption::Errors(errors)), None) => p.errors.len() > 0 && error_models(errors.0@) == p.errors,
        (Ok(lowered), None) => {
            &&& p.errors.len() == 0
            &&& decl_models(lowered.declarations@) == p.declarations
            &&& p.entry_point == match lowered.entry_point {
                Some(name) => Some(name@),
                None => None,
            }
            &&& registry_model(lowered.function_registry) == signatures_with(context.enums, Map::empty(), decls, 0)
        },
        _ => false,
    }
}

/// The names that are declared do not matter to what a class does.
proof fn lemma_behaviour_ignores_names(
    context: LoweringModel,
    other: LoweringModel,
    p: Progress,
    class: Rc<ClassDecl>,
)
    requires
        names_only(context, other),
    ensures
        behaviour_step(context, p, class) == behaviour_step(other, p, class),
{
}

/// The structs that are known do not matter to what a class is lowered to, and the enums are those of the progress.
proof fn lemma_class_ignores_names(context: LoweringModel, other: LoweringModel, p: Progress, class: Rc<ClassDecl>)
    requires
        names_only(context, other),
    ensures
        class_step(context, p, class) == class_step(other, p, class),
        class_walks_end(context, p, class) == class_walks_end(other, p, class),
{
    assert forall|q: Progress| #[trigger] behaviour_step(context, q, class) == behaviour_step(other, q, class) by {
        lemma_behaviour_ignores_names(context, other, q, class);
    }
}

/// Enters the classes of a program.
fn register_classes(classes: &mut NameMap<Rc<ClassDecl>>, program: &Program)
    ensures
        final(classes)@ == classes_with(old(classes)@, program.declarations@, 0),
        final(classes).entries@.len() == class_count_with(
            old(classes)@,
            old(classes).entries@.len(),
            program.declarations@,
            0,
        ),
{
    let decls: &Vec<Spanned<Declaration>> = &program.declarations;
    let mut i: usize = 0;
    while i < decls.len()
        invariant
            i <= decls@.len(),
            classes_with(old(classes)@, decls@, 0) == classes_with(classes@, decls@, i as int),
            class_count_with(old(classes)@, old(classes).entries@.len(), decls@, 0) == class_count_with(
                classes@,
                classes.entries@.len(),
                decls@,
                i as int,
            ),
        decreases decls@.len() - i,
    {
        match &decls[i].node {
            Declaration::Class(c) => {
                classes.insert(c.name.clone(), share(c));
            },
            _ => {},
        }
        i += 1;
    }
}

} // verus!
