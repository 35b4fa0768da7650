//! Typed intermediate representation of a program.
//!
//! Nested types and expressions are shared, so a type is copied by sharing what it is made of.

pub mod reference_shape;

use crate::ast::Visibility;
use crate::names::NameMap;
use crate::sharing::share;
use crate::text::texts;
use std::rc::Rc;
use vstd::prelude::*;

verus! {

/// A byte range of the source.
#[derive(Debug, Clone, Copy, PartialEq, Eq, Structural)]
pub struct IrSpan {
    /// First byte offset.
    pub start: usize,
    /// Byte offset behind the last byte.
    pub end: usize,
}

impl Default for IrSpan {
    fn default() -> (span: Self)
        ensures
            span == (IrSpan { start: 0, end: 0 }),
    {
        IrSpan { start: 0, end: 0 }
    }
}

/// Whether a binding can be assigned again.
#[derive(Debug, Clone, Copy, PartialEq, Eq, Structural)]
pub enum Mutability {
    /// It can.
    Mutable,
    /// It cannot.
    Immutable,
}

// ---------------------------------------------------------------------------
// Types
// ---------------------------------------------------------------------------

/// A type.
#[derive(Debug, PartialEq)]
#[allow(inconsistent_fields)]
pub enum IrType {
    /// The unit type.
    Unit,
    /// `bool`
    Bool,
    /// `int`
    Int,
    /// `float`
    Float,
    /// An owned string.
    String,
    /// A string with static lifetime.
    StaticStr,
    /// Bytes with static lifetime.
    StaticBytes,
    /// A frozen string.
    FrozenStr,
    /// Frozen bytes.
    FrozenBytes,
    /// A borrowed string.
    StrRef,
    /// A list.
    List(Rc<IrType>),
    /// A dictionary.
    Dict(Rc<IrType>, Rc<IrType>),
    /// A set.
    SetType(Rc<IrType>),
    /// An optional value.
    Option(Rc<IrType>),
    /// A value or an error.
    Result(Rc<IrType>, Rc<IrType>),
    /// A tuple.
    Tuple(Rc<Vec<IrType>>),
    /// A callable.
    Function {
        /// The parameter types.
        params: Rc<Vec<IrType>>,
        /// The return type.
        ret: Rc<IrType>,
    },
    /// A struct.
    Struct(String),
    /// An enum.
    Enum(String),
    /// A type parameter.
    Generic(String),
    /// A named type with arguments.
    NamedGeneric(String, Rc<Vec<IrType>>),
    /// A shared reference.
    Ref(Rc<IrType>),
    /// A mutable reference.
    RefMut(Rc<IrType>),
    /// A type that is kept in its emitted spelling.
    RustDisplay(String),
    /// A type that is not known.
    Unknown,
}

/// What a type is.
#[allow(inconsistent_fields)]
pub ghost enum TypeModel {
    /// The unit type.
    Unit,
    /// `bool`
    Bool,
    /// `int`
    Int,
    /// `float`
    Float,
    /// An owned string.
    String,
    /// A string with static lifetime.
    StaticStr,
    /// Bytes with static lifetime.
    StaticBytes,
    /// A frozen string.
    FrozenStr,
    /// Frozen bytes.
    FrozenBytes,
    /// A borrowed string.
    StrRef,
    /// A list.
    List(Box<TypeModel>),
    /// A dictionary.
    Dict(Box<TypeModel>, Box<TypeModel>),
    /// A set.
    SetType(Box<TypeModel>),
    /// An optional value.
    Option(Box<TypeModel>),
    /// A value or an error.
    Result(Box<TypeModel>, Box<TypeModel>),
    /// A tuple.
    Tuple(Seq<TypeModel>),
    /// A callable.
    Function {
        /// The parameter types.
        params: Seq<TypeModel>,
        /// The return type.
        ret: Box<TypeModel>,
    },
    /// A struct.
    Struct(Seq<char>),
    /// An enum.
    Enum(Seq<char>),
    /// A type parameter.
    Generic(Seq<char>),
    /// A named type with arguments.
    NamedGeneric(Seq<char>, Seq<TypeModel>),
    /// A shared reference.
    Ref(Box<TypeModel>),
    /// A mutable reference.
    RefMut(Box<TypeModel>),
    /// A type that is kept in its emitted spelling.
    RustDisplay(Seq<char>),
    /// A type that is not known.
    Unknown,
}

impl IrType {
    /// What the type is.
    pub open spec fn model(self) -> TypeModel
        decreases self,
    {
        match self {
            IrType::Unit => TypeModel::Unit,
            IrType::Bool => TypeModel::Bool,
            IrType::Int => TypeModel::Int,
            IrType::Float => TypeModel::Float,
            IrType::String => TypeModel::String,
            IrType::StaticStr => TypeModel::StaticStr,
            IrType::StaticBytes => TypeModel::StaticBytes,
            IrType::FrozenStr => TypeModel::FrozenStr,
            IrType::FrozenBytes => TypeModel::FrozenBytes,
            IrType::StrRef => TypeModel::StrRef,
            IrType::List(item) => TypeModel::List(Box::new((*item).model())),
            IrType::Dict(key, value) => TypeModel::Dict(Box::new((*key).model()), Box::new((*value).model())),
            IrType::SetType(item) => TypeModel::SetType(Box::new((*item).model())),
            IrType::Option(item) => TypeModel::Option(Box::new((*item).model())),
            IrType::Result(value, error) => TypeModel::Result(
                Box::new((*value).model()),
                Box::new((*error).model()),
            ),
            IrType::Tuple(items) => TypeModel::Tuple(type_models((*items)@)),
            IrType::Function { params, ret } => TypeModel::Function {
                params: type_models((*params)@),
                ret: Box::new((*ret).model()),
            },
            IrType::Struct(name) => TypeModel::Struct(name@),
            IrType::Enum(name) => TypeModel::Enum(name@),
            IrType::Generic(name) => TypeModel::Generic(name@),
            IrType::NamedGeneric(name, args) => TypeModel::NamedGeneric(name@, type_models((*args)@)),
            IrType::Ref(inner) => TypeModel::Ref(Box::new((*inner).model())),
            IrType::RefMut(inner) => TypeModel::RefMut(Box::new((*inner).model())),
            IrType::RustDisplay(text) => TypeModel::RustDisplay(text@),
            IrType::Unknown => TypeModel::Unknown,
        }
    }
}

/// What a run of types is.
pub open spec fn type_models(types: Seq<IrType>) -> Seq<TypeModel>
    decreases types,
{
    Seq::new(
        types.len(),
        |i: int| if 0 <= i < types.len() {
            types[i].model()
        } else {
            arbitrary()
        },
    )
}

impl Clone for IrType {
    fn clone(&self) -> (copy: Self)
        ensures
            copy == *self,
    {
        match self {
            IrType::Unit => IrType::Unit,
            IrType::Bool => IrType::Bool,
            IrType::Int => IrType::Int,
            IrType::Float => IrType::Float,
            IrType::String => IrType::String,
            IrType::StaticStr => IrType::StaticStr,
            IrType::StaticBytes => IrType::StaticBytes,
            IrType::FrozenStr => IrType::FrozenStr,
            IrType::FrozenBytes => IrType::FrozenBytes,
            IrType::StrRef => IrType::StrRef,
            IrType::List(item) => IrType::List(share(item)),
            IrType::Dict(key, value) => IrType::Dict(share(key), share(value)),
            IrType::SetType(item) => IrType::SetType(share(item)),
            IrType::Option(item) => IrType::Option(share(item)),
            IrType::Result(value, error) => IrType::Result(share(value), share(error)),
            IrType::Tuple(items) => IrType::Tuple(share(items)),
            IrType::Function { params, ret } => IrType::Function { params: share(params), ret: share(ret) },
            IrType::Struct(name) => IrType::Struct(name.clone()),
            IrType::Enum(name) => IrType::Enum(name.clone()),
            IrType::Generic(name) => IrType::Generic(name.clone()),
            IrType::NamedGeneric(name, args) => IrType::NamedGeneric(name.clone(), share(args)),
            IrType::Ref(inner) => IrType::Ref(share(inner)),
            IrType::RefMut(inner) => IrType::RefMut(share(inner)),
            IrType::RustDisplay(text) => IrType::RustDisplay(text.clone()),
            IrType::Unknown => IrType::Unknown,
        }
    }
}

// ---------------------------------------------------------------------------
// Expressions and statements
// ---------------------------------------------------------------------------

/// How a variable is read.
#[derive(Debug, Clone, Copy, PartialEq, Eq, Structural)]
pub enum VarAccess {
    /// The value is copied.
    Copy,
    /// The value is moved out.
    Move,
    /// The value is borrowed.
    Borrow,
    /// The value is borrowed mutably.
    BorrowMut,
}

/// Binary operators.
#[derive(Debug, Clone, Copy, PartialEq, Eq, Structural)]
pub enum BinOp {
    /// `+`
    Add,
    /// `-`
    Sub,
    /// `*`
    Mul,
    /// `/`
    Div,
    /// `//`
    FloorDiv,
    /// `%`
    Mod,
    /// `**`
    Pow,
    /// `==`
    Eq,
    /// `!=`
    Ne,
    /// `<`
    Lt,
    /// `<=`
    Le,
    /// `>`
    Gt,
    /// `>=`
    Ge,
    /// `and`
    And,
    /// `or`
    Or,
}

/// An expression with its type.
#[derive(Debug, PartialEq)]
pub struct TypedExpr {
    /// The expression.
    pub kind: IrExprKind,
    /// The type.
    pub ty: IrType,
}

/// The forms of expressions that statement lowering and reference planning look at.
#[derive(Debug, PartialEq)]
#[allow(inconsistent_fields)]
pub enum IrExprKind {
    /// The unit value.
    Unit,
    /// A variable.
    Var {
        /// The name.
        name: String,
        /// How it is read.
        access: VarAccess,
    },
    /// A method call.
    MethodCall {
        /// The receiver.
        receiver: Rc<TypedExpr>,
        /// The method.
        method: String,
        /// The arguments.
        args: Rc<Vec<TypedExpr>>,
    },
    /// A block.
    Block {
        /// The statements.
        stmts: Rc<Vec<IrStmt>>,
        /// The value.
        value: Option<Rc<TypedExpr>>,
    },
    /// Any other expression, by its place in the table of the pass that lowers expressions.
    Entry(u64),
}

/// A statement.
#[derive(Debug, PartialEq)]
pub struct IrStmt {
    /// The statement.
    pub kind: IrStmtKind,
}

/// The forms of statements.
#[derive(Debug, PartialEq)]
#[allow(inconsistent_fields)]
pub enum IrStmtKind {
    /// An expression for its effect.
    Expr(TypedExpr),
    /// A new binding.
    Let {
        /// The name.
        name: String,
        /// The type.
        ty: IrType,
        /// Whether it can be assigned again.
        mutability: Mutability,
        /// The value.
        value: TypedExpr,
    },
    /// An assignment.
    Assign {
        /// The place.
        target: AssignTarget,
        /// The value.
        value: TypedExpr,
    },
    /// A compound assignment.
    CompoundAssign {
        /// The place.
        target: AssignTarget,
        /// The operator.
        op: BinOp,
        /// The value.
        value: TypedExpr,
    },
    /// A return.
    Return(Option<TypedExpr>),
    /// A break, out of the labelled loop where a label is given.
    Break(Option<String>),
    /// A continue, of the labelled loop where a label is given.
    Continue(Option<String>),
    /// A loop on a condition.
    While {
        /// The label.
        label: Option<String>,
        /// The condition.
        condition: TypedExpr,
        /// The body.
        body: Vec<IrStmt>,
    },
    /// A loop over an iterable.
    For {
        /// The label.
        label: Option<String>,
        /// The pattern each item is bound to.
        pattern: Pattern,
        /// What is walked.
        iterable: TypedExpr,
        /// The body.
        body: Vec<IrStmt>,
    },
    /// A conditional.
    If {
        /// The condition.
        condition: TypedExpr,
        /// The body.
        then_branch: Vec<IrStmt>,
        /// The other body.
        else_branch: Option<Vec<IrStmt>>,
    },
}

/// A binding pattern.
#[derive(Debug, PartialEq)]
#[allow(inconsistent_fields)]
pub enum Pattern {
    /// Anything.
    Wildcard,
    /// One name.
    Var(String),
}

/// The place an assignment writes to.
#[derive(Debug, PartialEq)]
#[allow(inconsistent_fields)]
pub enum AssignTarget {
    /// A variable.
    Var(String),
    /// A field.
    Field {
        /// The object.
        object: Box<TypedExpr>,
        /// The field.
        field: String,
    },
    /// An element.
    Index {
        /// The object.
        object: Box<TypedExpr>,
        /// The index.
        index: Box<TypedExpr>,
    },
}

/// What an expression is.
pub ghost struct ExprModel {
    /// The expression.
    pub kind: ExprKindModel,
    /// The type.
    pub ty: TypeModel,
}

/// What the form of an expression is.
#[allow(inconsistent_fields)]
pub ghost enum ExprKindModel {
    /// The unit value.
    Unit,
    /// A variable.
    Var {
        /// The name.
        name: Seq<char>,
        /// How it is read.
        access: VarAccess,
    },
    /// A method call.
    MethodCall {
        /// The receiver.
        receiver: Box<ExprModel>,
        /// The method.
        method: Seq<char>,
        /// The arguments.
        args: Seq<ExprModel>,
    },
    /// A block.
    Block {
        /// The statements.
        stmts: Seq<StmtModel>,
        /// The value.
        value: Option<Box<ExprModel>>,
    },
    /// Any other expression.
    Entry(u64),
}

/// What a statement is.
#[allow(inconsistent_fields)]
pub ghost enum StmtModel {
    /// An expression for its effect.
    Expr(ExprModel),
    /// A new binding.
    Let {
        /// The name.
        name: Seq<char>,
        /// The type.
        ty: TypeModel,
        /// Whether it can be assigned again.
        mutability: Mutability,
        /// The value.
        value: ExprModel,
    },
    /// An assignment.
    Assign {
        /// The place.
        target: TargetModel,
        /// The value.
        value: ExprModel,
    },
    /// A compound assignment.
    CompoundAssign {
        /// The place.
        target: TargetModel,
        /// The operator.
        op: BinOp,
        /// The value.
        value: ExprModel,
    },
    /// A return.
    Return(Option<ExprModel>),
    /// A break.
    Break(Option<Seq<char>>),
    /// A continue.
    Continue(Option<Seq<char>>),
    /// A loop on a condition.
    While {
        /// The label.
        label: Option<Seq<char>>,
        /// The condition.
        condition: ExprModel,
        /// The body.
        body: Seq<StmtModel>,
    },
    /// A loop over an iterable.
    For {
        /// The label.
        label: Option<Seq<char>>,
        /// The bound name, where there is one.
        pattern: Option<Seq<char>>,
        /// What is walked.
        iterable: ExprModel,
        /// The body.
        body: Seq<StmtModel>,
    },
    /// A conditional.
    If {
        /// The condition.
        condition: ExprModel,
        /// The body.
        then_branch: Seq<StmtModel>,
        /// The other body.
        else_branch: Option<Seq<StmtModel>>,
    },
}

/// What the place of an assignment is.
#[allow(inconsistent_fields)]
pub ghost enum TargetModel {
    /// A variable.
    Var(Seq<char>),
    /// A field.
    Field {
        /// The object.
        object: Box<ExprModel>,
        /// The field.
        field: Seq<char>,
    },
    /// An element.
    Index {
        /// The object.
        object: Box<ExprModel>,
        /// The index.
        index: Box<ExprModel>,
    },
}

/// The text of an optional name.
pub open spec fn label_text(label: Option<String>) -> Option<Seq<char>> {
    match label {
        Some(name) => Some(name@),
        None => None,
    }
}

impl TypedExpr {
    /// An expression of a type.
    pub fn new(kind: IrExprKind, ty: IrType) -> (expr: Self)
        ensures
            expr.kind == kind,
            expr.ty == ty,
    {
        TypedExpr { kind, ty }
    }

    /// What the expression is.
    pub open spec fn model(self) -> ExprModel
        decreases self,
    {
        ExprModel { kind: self.kind.model(), ty: self.ty.model() }
    }
}

impl Clone for TypedExpr {
    fn clone(&self) -> (copy: Self)
        ensures
            copy == *self,
    {
        let kind: IrExprKind = match &self.kind {
            IrExprKind::Unit => IrExprKind::Unit,
            IrExprKind::Var { name, access } => IrExprKind::Var { name: name.clone(), access: *access },
            IrExprKind::MethodCall { receiver, method, args } => IrExprKind::MethodCall {
                receiver: share(receiver),
                method: method.clone(),
                args: share(args),
            },
            IrExprKind::Block { stmts, value } => IrExprKind::Block {
                stmts: share(stmts),
                value: match value {
                    Some(value) => Some(share(value)),
                    None => None,
                },
            },
            IrExprKind::Entry(at) => IrExprKind::Entry(*at),
        };
        TypedExpr { kind, ty: self.ty.clone() }
    }
}

impl IrExprKind {
    /// What the form of the expression is.
    pub open spec fn model(self) -> ExprKindModel
        decreases self,
    {
        match self {
            IrExprKind::Unit => ExprKindModel::Unit,
            IrExprKind::Var { name, access } => ExprKindModel::Var { name: name@, access },
            IrExprKind::MethodCall { receiver, method, args } => ExprKindModel::MethodCall {
                receiver: Box::new((*receiver).model()),
                method: method@,
                args: expr_models((*args)@),
            },
            IrExprKind::Block { stmts, value } => ExprKindModel::Block {
                stmts: stmt_models((*stmts)@),
                value: match value {
                    Some(value) => Some(Box::new((*value).model())),
                    None => None,
                },
            },
            IrExprKind::Entry(at) => ExprKindModel::Entry(at),
        }
    }
}

/// What a run of expressions is.
pub open spec fn expr_models(exprs: Seq<TypedExpr>) -> Seq<ExprModel>
    decreases exprs,
{
    Seq::new(
        exprs.len(),
        |i: int| if 0 <= i < exprs.len() {
            exprs[i].model()
        } else {
            arbitrary()
        },
    )
}

impl IrStmt {
    /// A statement.
    pub fn new(kind: IrStmtKind) -> (stmt: Self)
        ensures
            stmt.kind == kind,
    {
        IrStmt { kind }
    }

    /// What the statement is.
    pub open spec fn model(self) -> StmtModel
        decreases self,
    {
        self.kind.model()
    }
}

impl IrStmtKind {
    /// What the statement is.
    pub open spec fn model(self) -> StmtModel
        decreases self,
    {
        match self {
            IrStmtKind::Expr(expr) => StmtModel::Expr(expr.model()),
            IrStmtKind::Let { name, ty, mutability, value } => StmtModel::Let {
                name: name@,
                ty: ty.model(),
                mutability,
                value: value.model(),
            },
            IrStmtKind::Assign { target, value } => StmtModel::Assign {
                target: target.model(),
                value: value.model(),
            },
            IrStmtKind::CompoundAssign { target, op, value } => StmtModel::CompoundAssign {
                target: target.model(),
                op,
                value: value.model(),
            },
            IrStmtKind::Return(value) => StmtModel::Return(
                match value {
                    Some(value) => Some(value.model()),
                    None => None,
                },
            ),
            IrStmtKind::Break(label) => StmtModel::Break(label_text(label)),
            IrStmtKind::Continue(label) => StmtModel::Continue(label_text(label)),
            IrStmtKind::While { label, condition, body } => StmtModel::While {
                label: label_text(label),
                condition: condition.model(),
                body: stmt_models(body@),
            },
            IrStmtKind::For { label, pattern, iterable, body } => StmtModel::For {
                label: label_text(label),
                pattern: pattern.bound(),
                iterable: iterable.model(),
                body: stmt_models(body@),
            },
            IrStmtKind::If { condition, then_branch, else_branch } => StmtModel::If {
                condition: condition.model(),
                then_branch: stmt_models(then_branch@),
                else_branch: match else_branch {
                    Some(stmts) => Some(stmt_models(stmts@)),
                    None => None,
                },
            },
        }
    }
}

impl Pattern {
    /// The name that the pattern binds.
    pub open spec fn bound(self) -> Option<Seq<char>> {
        match self {
            Pattern::Wildcard => None,
            Pattern::Var(name) => Some(name@),
        }
    }
}

impl AssignTarget {
    /// What the place is.
    pub open spec fn model(self) -> TargetModel
        decreases self,
    {
        match self {
            AssignTarget::Var(name) => TargetModel::Var(name@),
            AssignTarget::Field { object, field } => TargetModel::Field {
                object: Box::new((*object).model()),
                field: field@,
            },
            AssignTarget::Index { object, index } => TargetModel::Index {
                object: Box::new((*object).model()),
                index: Box::new((*index).model()),
            },
        }
    }
}

/// What a run of statements is.
pub open spec fn stmt_models(stmts: Seq<IrStmt>) -> Seq<StmtModel>
    decreases stmts,
{
    Seq::new(
        stmts.len(),
        |i: int| if 0 <= i < stmts.len() {
            stmts[i].model()
        } else {
            arbitrary()
        },
    )
}

// ---------------------------------------------------------------------------
// Declarations
// ---------------------------------------------------------------------------

/// A parameter of a function.
#[derive(Debug)]
pub struct FunctionParam {
    /// The name.
    pub name: String,
    /// The type.
    pub ty: IrType,
    /// Whether it can be assigned.
    pub mutability: Mutability,
    /// Whether it is the receiver.
    pub is_self: bool,
}

/// A function.
#[derive(Debug)]
pub struct IrFunction {
    /// The name.
    pub name: String,
    /// The parameters.
    pub params: Vec<FunctionParam>,
    /// The return type.
    pub return_type: IrType,
    /// The body.
    pub body: Vec<IrStmt>,
    /// Whether the function is `async`.
    pub is_async: bool,
}

/// What a struct was declared as.
#[derive(Debug, Clone, Copy, PartialEq, Eq, Structural)]
pub enum IrStructKind {
    /// A model.
    Model,
    /// A class.
    Class,
}

/// A field of a struct.
#[derive(Debug)]
pub struct StructField {
    /// The name.
    pub name: String,
    /// The type.
    pub ty: IrType,
    /// How the source spells the type, where that differs.
    pub surface_type_name: Option<String>,
    /// The visibility.
    pub visibility: Visibility,
    /// The default value.
    pub default: Option<TypedExpr>,
    /// The name on the wire.
    pub alias: Option<String>,
    /// The description.
    pub description: Option<String>,
}

/// What a field of a struct is.
pub ghost struct FieldModel {
    /// The name.
    pub name: Seq<char>,
    /// The type.
    pub ty: TypeModel,
    /// How the source spells the type, where that differs.
    pub surface_type_name: Option<Seq<char>>,
    /// The visibility.
    pub visibility: Visibility,
    /// The default value.
    pub default: Option<ExprModel>,
    /// The name on the wire.
    pub alias: Option<Seq<char>>,
    /// The description.
    pub description: Option<Seq<char>>,
}

impl StructField {
    /// What the field is.
    pub open spec fn model(self) -> FieldModel {
        FieldModel {
            name: self.name@,
            ty: self.ty.model(),
            surface_type_name: label_text(self.surface_type_name),
            visibility: self.visibility,
            default: match self.default {
                Some(value) => Some(value.model()),
                None => None,
            },
            alias: label_text(self.alias),
            description: label_text(self.description),
        }
    }
}

/// What a run of fields is.
pub open spec fn field_models(fields: Seq<StructField>) -> Seq<FieldModel> {
    Seq::new(fields.len(), |i: int| fields[i].model())
}

/// A type parameter of a declaration.
#[derive(Debug)]
pub struct IrTypeParam {
    /// The name.
    pub name: String,
    /// The bounds.
    pub bounds: Vec<String>,
}

/// A struct.
#[derive(Debug)]
pub struct IrStruct {
    /// What it was declared as.
    pub kind: IrStructKind,
    /// The name.
    pub name: String,
    /// The docstring.
    pub docstring: Option<String>,
    /// The fields, parents' first.
    pub fields: Vec<StructField>,
    /// The derives.
    pub derives: Vec<String>,
    /// The visibility.
    pub visibility: Visibility,
    /// The type parameters.
    pub type_params: Vec<IrTypeParam>,
    /// The Rust module each imported derive comes from.
    pub derive_rust_modules: Vec<(String, String)>,
    /// The lints that are allowed on the struct.
    pub lint_allows: Vec<String>,
}

/// What a struct is.
#[verifier::ext_equal]
pub ghost struct StructModel {
    /// What it was declared as.
    pub kind: IrStructKind,
    /// The name.
    pub name: Seq<char>,
    /// The docstring.
    pub docstring: Option<Seq<char>>,
    /// The fields, parents' first.
    pub fields: Seq<FieldModel>,
    /// The derives.
    pub derives: Seq<Seq<char>>,
    /// The visibility.
    pub visibility: Visibility,
    /// The type parameters.
    pub type_params: Seq<IrTypeParam>,
    /// The Rust module each imported derive comes from.
    pub derive_rust_modules: Seq<(String, String)>,
    /// The lints that are allowed on the struct.
    pub lint_allows: Seq<String>,
}

impl IrStruct {
    /// What the struct is.
    pub open spec fn model(self) -> StructModel {
        StructModel {
            kind: self.kind,
            name: self.name@,
            docstring: label_text(self.docstring),
            fields: field_models(self.fields@),
            derives: texts(self.derives@),
            visibility: self.visibility,
            type_params: self.type_params@,
            derive_rust_modules: self.derive_rust_modules@,
            lint_allows: self.lint_allows@,
        }
    }
}

/// An enum.
#[derive(Debug)]
pub struct IrEnum {
    /// The name.
    pub name: String,
    /// The variants.
    pub variants: Vec<String>,
}

/// An impl block.
#[derive(Debug)]
pub struct IrImpl {
    /// The type.
    pub target_type: String,
    /// The trait, where one is implemented.
    pub trait_name: Option<String>,
    /// The methods.
    pub methods: Vec<IrFunction>,
}

/// A declaration.
#[derive(Debug)]
pub struct IrDecl {
    /// The declaration.
    pub kind: IrDeclKind,
}

impl IrDecl {
    /// A declaration.
    pub fn new(kind: IrDeclKind) -> (decl: Self)
        ensures
            decl.kind == kind,
    {
        IrDecl { kind }
    }
}

/// The forms of declarations.
#[derive(Debug)]
#[allow(inconsistent_fields)]
pub enum IrDeclKind {
    /// A function.
    Function(IrFunction),
    /// A struct.
    Struct(IrStruct),
    /// An enum.
    Enum(IrEnum),
    /// An impl block.
    Impl(IrImpl),
    /// A constant.
    Const {
        /// The name.
        name: String,
        /// The type.
        ty: IrType,
        /// The value.
        value: TypedExpr,
    },
    /// A trait.
    Trait(String),
    /// A type alias or newtype.
    TypeAlias {
        /// The name.
        name: String,
        /// The type.
        ty: IrType,
    },
    /// An import.
    Import(Vec<String>),
}

/// The parameters and the result of a function.
#[derive(Debug)]
pub struct FunctionSignature {
    /// The parameters.
    pub params: Vec<FunctionParam>,
    /// The return type.
    pub return_type: IrType,
}

/// The signatures of the functions of a program.
#[derive(Debug)]
pub struct FunctionRegistry {
    /// The signatures by name.
    pub signatures: NameMap<FunctionSignature>,
}

impl FunctionRegistry {
    /// Enters a function's signature, in place of an earlier one of that name.
    pub fn register(&mut self, name: String, params: Vec<FunctionParam>, return_type: IrType)
        ensures
            final(self).signatures@ == old(self).signatures@.insert(
                name@,
                (FunctionSignature { params, return_type }),
            ),
    {
        self.signatures.insert(name, FunctionSignature { params, return_type });
    }
}

/// A lowered program.
#[derive(Debug)]
pub struct IrProgram {
    /// The declarations.
    pub declarations: Vec<IrDecl>,
    /// The function that the program starts with.
    pub entry_point: Option<String>,
    /// The signatures of the functions.
    pub function_registry: FunctionRegistry,
}

impl IrProgram {
    /// The program without declarations.
    pub fn new() -> (program: Self)
        ensures
            program.declarations@.len() == 0,
            program.entry_point is None,
            program.function_registry.signatures@ == Map::<Seq<char>, FunctionSignature>::empty(),
    {
        IrProgram {
            declarations: Vec::new(),
            entry_point: None,
            function_registry: FunctionRegistry { signatures: NameMap::new() },
        }
    }
}

} // verus!
