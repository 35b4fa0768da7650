//! Lowering of the syntax tree to the typed intermediate representation.
//!
//! The pass resolves annotations, decides what is mutable, and turns declarations and statements into their typed
//! forms. Expressions are lowered by another pass: whenever one is needed, its result is taken from the answers that
//! came with the call, and lowering stops with a request when there is none left.

pub mod builtins;
pub mod classes;
pub mod control;
pub mod data;
pub mod declarations;
pub mod laws;
pub mod program;
pub mod statements;
pub mod type_laws;
pub mod types;

use crate::ast::{ClassDecl, Expr, Spanned, Visibility};
use crate::ir::{ExprModel, IrSpan, IrType, TypeModel, TypedExpr};
use crate::lowering::types::scope_model;
use crate::names::NameMap;
use crate::sharing::share;
use crate::text::texts;
use std::rc::Rc;
use vstd::prelude::*;

verus! {

broadcast use vstd::string::group_string_axioms;

/// The types of the names of one scope.
pub type Scope = Map<Seq<char>, TypeModel>;

/// What the type checker found out.
#[derive(Debug)]
pub struct TypeCheckInfo {
    /// The layouts of the checked classes.
    pub class_layouts: NameMap<Rc<ClassLayout>>,
}

/// The checked layout of a class, its parents' fields first.
#[derive(Debug)]
pub struct ClassLayout {
    /// Fields that the layout should order and does not have.
    pub missing_fields: Vec<String>,
    /// Inherited fields whose defaults cannot be materialized.
    pub unmaterializable_defaults: Vec<String>,
    /// The fields.
    pub fields: Vec<ClassLayoutField>,
}

/// One field of a checked class layout.
#[derive(Debug)]
pub struct ClassLayoutField {
    /// The name.
    pub name: String,
    /// The type that is emitted, or why it has no emitted form.
    pub ty: Result<IrType, String>,
    /// How the source spells the type, where that differs.
    pub surface_type_name: Option<String>,
    /// The visibility.
    pub visibility: Visibility,
    /// The default value.
    pub default: Option<ClassFieldDefaultInfo>,
    /// The name on the wire.
    pub alias: Option<String>,
    /// The description.
    pub description: Option<String>,
}

/// Where the default of a checked class field comes from.
#[derive(Debug)]
#[allow(inconsistent_fields)]
pub enum ClassFieldDefaultInfo {
    /// An expression of this source.
    Source(Rc<Spanned<Expr>>),
    /// A checked default of a published library.
    PublicDependency(PublicDefault),
}

/// What is left of a published default once it was materialized and lowered.
#[derive(Debug)]
#[allow(inconsistent_fields)]
pub enum PublicDefault {
    /// The checked value has no materialized form.
    NotMaterializable,
    /// The materialized value has no lowered form.
    NotLowerable,
    /// The lowered value.
    Lowered(Rc<TypedExpr>),
}

/// Why lowering failed.
#[derive(Debug)]
pub struct LoweringError {
    /// The message.
    pub message: String,
    /// Where the cause stands.
    pub span: IrSpan,
}

/// All failures of a program.
#[derive(Debug)]
pub struct LoweringErrors(pub Vec<LoweringError>);

/// What a failure is.
pub ghost struct ErrorModel {
    /// The message.
    pub message: Seq<char>,
    /// Where the cause stands.
    pub span: IrSpan,
}

impl LoweringError {
    /// What the failure is.
    pub open spec fn model(self) -> ErrorModel {
        ErrorModel { message: self.message@, span: self.span }
    }
}

/// A failure with a message and no known place.
pub open spec fn failure(message: Seq<char>) -> ErrorModel {
    ErrorModel { message, span: IrSpan { start: 0, end: 0 } }
}

/// A failure with a message and no known place.
pub(crate) fn lowering_failure(message: String) -> (error: LoweringError)
    ensures
        error.model() == failure(message@),
{
    LoweringError { message, span: IrSpan::default() }
}

/// A lowered expression.
#[derive(Debug)]
pub struct LoweredExpr {
    /// The expression.
    pub expr: TypedExpr,
    /// Whether values of its type are copied when they are read.
    pub is_copy: bool,
}

/// What lowering one expression gave.
pub type ExprAnswer = Result<LoweredExpr, LoweringError>;

/// Why lowering stopped before its end.
#[derive(Debug)]
#[allow(inconsistent_fields)]
pub enum Interruption {
    /// It failed.
    Error(LoweringError),
    /// It needs the lowered form of an expression.
    Expression(Rc<Spanned<Expr>>),
}

/// Why lowering stopped before its end.
#[allow(inconsistent_fields)]
pub ghost enum Stop {
    /// It failed.
    Error(ErrorModel),
    /// It needs the lowered form of an expression.
    Expression(Rc<Spanned<Expr>>),
}

impl Interruption {
    /// What stopped lowering.
    pub open spec fn model(self) -> Stop {
        match self {
            Interruption::Error(error) => Stop::Error(error.model()),
            Interruption::Expression(expr) => Stop::Expression(expr),
        }
    }
}

/// The next answer, taken off the front; a request for the expression where there is none.
pub open spec fn answered(answers: Seq<ExprAnswer>, expr: Rc<Spanned<Expr>>) -> (
    Seq<ExprAnswer>,
    Result<(ExprModel, bool), Stop>,
) {
    if answers.len() == 0 {
        (answers, Err(Stop::Expression(expr)))
    } else {
        (
            answers.remove(0),
            match answers[0] {
                Ok(lowered) => Ok((lowered.expr.model(), lowered.is_copy)),
                Err(error) => Err(Stop::Error(error.model())),
            },
        )
    }
}

/// Takes the lowered form of an expression off the front of the answers.
pub(crate) fn take_answer(answers: &mut Vec<ExprAnswer>, expr: &Rc<Spanned<Expr>>) -> (result: Result<
    LoweredExpr,
    Interruption,
>)
    ensures
        answered(old(answers)@, *expr) == (
            final(answers)@,
            match result {
                Ok(lowered) => Ok((lowered.expr.model(), lowered.is_copy)),
                Err(stop) => Err(stop.model()),
            },
        ),
{
    if answers.len() == 0 {
        return Err(Interruption::Expression(share(expr)));
    }
    match answers.remove(0) {
        Ok(lowered) => Ok(lowered),
        Err(error) => Err(Interruption::Error(error)),
    }
}

/// Context of the lowering pass.
#[derive(Debug)]
pub struct AstLowering {
    /// The scope chain, innermost last.
    pub scopes: Vec<NameMap<IrType>>,
    /// The declared structs, models and classes.
    pub struct_names: NameMap<IrType>,
    /// The declared enums.
    pub enum_names: NameMap<IrType>,
    /// The variables that can be assigned again.
    pub mutable_vars: NameMap<bool>,
    /// The declared classes.
    pub class_decls: NameMap<Rc<ClassDecl>>,
    /// The method names of the declared traits.
    pub trait_methods: NameMap<Vec<String>>,
    /// The names that Rust imports are bound to.
    pub rust_import_aliases: NameMap<()>,
    /// What the type checker found out, where it ran.
    pub type_info: Option<TypeCheckInfo>,
}

/// What the context of the lowering pass is.
#[verifier::ext_equal]
pub ghost struct LoweringModel {
    /// The scope chain, innermost last.
    pub scopes: Seq<Scope>,
    /// The declared structs, models and classes.
    pub structs: Scope,
    /// The declared enums.
    pub enums: Scope,
    /// The variables that can be assigned again.
    pub mutable_vars: Map<Seq<char>, bool>,
    /// The declared classes.
    pub classes: Map<Seq<char>, Rc<ClassDecl>>,
    /// How many classes are declared.
    pub class_count: nat,
    /// The method names of the declared traits.
    pub traits: Map<Seq<char>, Seq<Seq<char>>>,
    /// The names that Rust imports are bound to.
    pub imports: Map<Seq<char>, ()>,
    /// What the type checker found out, where it ran.
    pub type_info: Option<TypeCheckInfo>,
}

/// What a run of scopes is.
pub open spec fn scope_models(scopes: Seq<NameMap<IrType>>) -> Seq<Scope> {
    Seq::new(scopes.len(), |i: int| scope_model(scopes[i]@))
}

/// The scope chain with a name in its innermost scope.
pub open spec fn bound(scopes: Seq<Scope>, name: Seq<char>, ty: TypeModel) -> Seq<Scope> {
    if scopes.len() == 0 {
        scopes
    } else {
        scopes.update(scopes.len() - 1, scopes.last().insert(name, ty))
    }
}

/// The scope chain without its innermost scope.
pub open spec fn left(scopes: Seq<Scope>) -> Seq<Scope> {
    if scopes.len() == 0 {
        scopes
    } else {
        scopes.drop_last()
    }
}

/// Whether any scope has a name.
pub open spec fn in_scope(scopes: Seq<Scope>, name: Seq<char>) -> bool {
    exists|i: int| 0 <= i < scopes.len() && (#[trigger] scopes[i]).contains_key(name)
}

impl Default for AstLowering {
    fn default() -> (context: Self)
        ensures
            context.model() == fresh(None),
    {
        AstLowering::new()
    }
}

/// The context before anything is declared.
pub open spec fn fresh(type_info: Option<TypeCheckInfo>) -> LoweringModel {
    LoweringModel {
        scopes: seq![Map::empty()],
        structs: Map::empty(),
        enums: Map::empty(),
        mutable_vars: Map::empty(),
        classes: Map::empty(),
        class_count: 0,
        traits: Map::empty(),
        imports: Map::empty(),
        type_info,
    }
}

impl AstLowering {
    /// A context with one empty scope and nothing declared.
    pub fn new() -> (context: Self)
        ensures
            context.model() == fresh(None),
    {
        let root: NameMap<IrType> = NameMap::new();
        let context = AstLowering {
            scopes: vec![root],
            struct_names: NameMap::new(),
            enum_names: NameMap::new(),
            mutable_vars: NameMap::new(),
            class_decls: NameMap::new(),
            trait_methods: NameMap::new(),
            rust_import_aliases: NameMap::new(),
            type_info: None,
        };
        proof {
            assert(scope_model(root@) =~= Map::empty());
            assert(context.model().scopes =~= seq![Map::empty()]);
            assert(context.model() =~= fresh(None));
        }
        context
    }

    /// A context that goes by what the type checker found out.
    pub fn new_with_type_info(type_info: TypeCheckInfo) -> (context: Self)
        ensures
            context.model() == fresh(Some(type_info)),
    {
        let mut context: AstLowering = AstLowering::new();
        context.type_info = Some(type_info);
        context
    }

    /// What the context is.
    pub open spec fn model(&self) -> LoweringModel {
        LoweringModel {
            scopes: scope_models(self.scopes@),
            structs: scope_model(self.struct_names@),
            enums: scope_model(self.enum_names@),
            mutable_vars: self.mutable_vars@,
            classes: self.class_decls@,
            class_count: self.class_decls.entries@.len(),
            traits: self.trait_methods@.map_values(|names: Vec<String>| texts(names@)),
            imports: self.rust_import_aliases@,
            type_info: self.type_info,
        }
    }

    /// Opens a scope.
    pub(crate) fn enter_scope(&mut self)
        ensures
            final(self).model() == (LoweringModel {
                scopes: old(self).model().scopes.push(Map::empty()),
                ..old(self).model()
            }),
    {
        self.scopes.push(NameMap::new());
        proof {
            assert(scope_model(self.scopes@.last()@) =~= Map::empty());
            assert(self.model().scopes =~= old(self).model().scopes.push(Map::empty()));
        }
    }

    /// Closes the innermost scope.
    pub(crate) fn leave_scope(&mut self)
        ensures
            final(self).model() == (LoweringModel {
                scopes: left(old(self).model().scopes),
                ..old(self).model()
            }),
    {
        let _ = self.scopes.pop();
        proof {
            assert(self.model().scopes =~= left(old(self).model().scopes));
        }
    }

    /// Enters a name into the innermost scope.
    pub(crate) fn bind(&mut self, name: String, ty: IrType)
        ensures
            final(self).model() == (LoweringModel {
                scopes: bound(old(self).model().scopes, name@, ty.model()),
                ..old(self).model()
            }),
    {
        let count: usize = self.scopes.len();
        if count > 0 {
            self.scopes[count - 1].insert(name, ty);
            proof {
                assert(scope_model(self.scopes@[count - 1]@) =~= scope_model(old(self).scopes@[count - 1]@).insert(
                    name@,
                    ty.model(),
                ));
                assert(self.model().scopes =~= bound(old(self).model().scopes, name@, ty.model()));
            }
        }
    }

    /// Records that a name can be assigned again.
    pub(crate) fn mark_mutable(&mut self, name: String)
        ensures
            final(self).model() == (LoweringModel {
                mutable_vars: old(self).model().mutable_vars.insert(name@, true),
                ..old(self).model()
            }),
    {
        self.mutable_vars.insert(name, true);
    }

    /// Decides whether any scope has a name.
    pub(crate) fn is_bound(&self, name: &str) -> (found: bool)
        ensures
            found == in_scope(self.model().scopes, name@),
    {
        let mut i: usize = self.scopes.len();
        while i > 0
            invariant
                i <= self.scopes@.len(),
                forall|j: int| i <= j < self.scopes@.len() ==> !(#[trigger] self.model().scopes[j]).contains_key(name@),
            decreases i,
        {
            i -= 1;
            if self.scopes[i].contains_key(name) {
                proof {
                    assert(self.model().scopes[i as int].contains_key(name@));
                }
                return true;
            }
        }
        false
    }
}

} // verus!
