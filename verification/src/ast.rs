//! Syntax tree of Incan source files.
//!
//! Expressions are shared, so a pass that has to hand one to another pass can do so without copying it.

use std::rc::Rc;
use vstd::prelude::*;

verus! {

/// A byte range of the source.
#[derive(Debug, Clone, Copy, PartialEq, Eq, Structural)]
pub struct Span {
    /// First byte offset.
    pub start: usize,
    /// Byte offset behind the last byte.
    pub end: usize,
}

/// A node with the place it was written at.
#[derive(Debug)]
pub struct Spanned<T> {
    /// The node.
    pub node: T,
    /// Where it stands.
    pub span: Span,
}

/// One source file.
#[derive(Debug)]
pub struct Program {
    /// The declarations, in source order.
    pub declarations: Vec<Spanned<Declaration>>,
}

/// A top-level declaration.
#[derive(Debug)]
#[allow(inconsistent_fields)]
pub enum Declaration {
    /// An import.
    Import(ImportDecl),
    /// A module-level constant.
    Const(ConstDecl),
    /// A model.
    Model(Rc<ModelDecl>),
    /// A class.
    Class(Rc<ClassDecl>),
    /// A trait.
    Trait(TraitDecl),
    /// An enum.
    Enum(EnumDecl),
    /// A newtype.
    Newtype(NewtypeDecl),
    /// A function.
    Function(Rc<FunctionDecl>),
    /// A module-level docstring.
    Docstring(String),
}

/// An import declaration.
#[derive(Debug)]
pub struct ImportDecl {
    /// What is imported.
    pub kind: ImportKind,
    /// The local name, where one is given.
    pub alias: Option<String>,
}

/// The forms of imports.
#[derive(Debug)]
#[allow(inconsistent_fields)]
pub enum ImportKind {
    /// `import a::b`
    Module(ImportPath),
    /// `from a::b import c`
    From {
        /// The module.
        module: ImportPath,
        /// The imported names.
        items: Vec<String>,
    },
    /// `import py "package"`
    Python(String),
    /// `import rust::krate::path`
    RustCrate {
        /// The crate.
        crate_name: String,
        /// The path inside the crate.
        path: Vec<String>,
    },
    /// `from rust::krate::path import c`
    RustFrom {
        /// The crate.
        crate_name: String,
        /// The path inside the crate.
        path: Vec<String>,
        /// The imported names.
        items: Vec<String>,
    },
}

/// The path of an imported module.
#[derive(Debug)]
pub struct ImportPath {
    /// The names, outermost first.
    pub segments: Vec<String>,
    /// Whether the path starts at the project root.
    pub is_absolute: bool,
    /// How many directories the path climbs first.
    pub parent_levels: usize,
}

/// A module-level constant.
#[derive(Debug)]
pub struct ConstDecl {
    /// The name.
    pub name: String,
    /// The annotation.
    pub ty: Option<Spanned<Type>>,
    /// The value.
    pub value: Rc<Spanned<Expr>>,
}

/// A model declaration.
#[derive(Debug)]
pub struct ModelDecl {
    /// The name.
    pub name: String,
    /// The decorators.
    pub decorators: Vec<Spanned<Decorator>>,
    /// The fields.
    pub fields: Vec<Spanned<FieldDecl>>,
    /// The methods.
    pub methods: Vec<Rc<Spanned<MethodDecl>>>,
}

/// A class declaration.
#[derive(Debug)]
pub struct ClassDecl {
    /// The name.
    pub name: String,
    /// The docstring.
    pub docstring: Option<String>,
    /// The decorators.
    pub decorators: Vec<Spanned<Decorator>>,
    /// The parent class.
    pub extends: Option<String>,
    /// The adopted traits.
    pub traits: Vec<String>,
    /// The fields.
    pub fields: Vec<Spanned<FieldDecl>>,
    /// The methods.
    pub methods: Vec<Rc<Spanned<MethodDecl>>>,
    /// The computed properties.
    pub properties: Vec<Rc<Spanned<PropertyDecl>>>,
}

/// A trait declaration.
#[derive(Debug)]
pub struct TraitDecl {
    /// The name.
    pub name: String,
    /// The methods.
    pub methods: Vec<Rc<Spanned<MethodDecl>>>,
}

/// An enum declaration.
#[derive(Debug)]
pub struct EnumDecl {
    /// The name.
    pub name: String,
    /// The variants.
    pub variants: Vec<String>,
}

/// A newtype declaration.
#[derive(Debug)]
pub struct NewtypeDecl {
    /// The name.
    pub name: String,
    /// The type behind the name.
    pub underlying: Spanned<Type>,
}

/// A function declaration.
#[derive(Debug)]
pub struct FunctionDecl {
    /// The name.
    pub name: String,
    /// Whether the function is `async`.
    pub is_async: bool,
    /// The decorators.
    pub decorators: Vec<Spanned<Decorator>>,
    /// The parameters.
    pub params: Vec<Spanned<Param>>,
    /// The return type.
    pub return_type: Spanned<Type>,
    /// The body.
    pub body: Vec<Spanned<Statement>>,
}

/// A parameter.
#[derive(Debug)]
pub struct Param {
    /// The name.
    pub name: String,
    /// The annotation.
    pub ty: Spanned<Type>,
    /// Whether it is declared `mut`.
    pub is_mut: bool,
}

/// A method.
#[derive(Debug)]
pub struct MethodDecl {
    /// The name.
    pub name: String,
    /// Whether the method is `async`.
    pub is_async: bool,
    /// The parameters behind the receiver.
    pub params: Vec<Spanned<Param>>,
    /// The return type.
    pub return_type: Spanned<Type>,
    /// The body, which an abstract method has not.
    pub body: Option<Vec<Spanned<Statement>>>,
}

/// A computed property.
#[derive(Debug)]
pub struct PropertyDecl {
    /// The name.
    pub name: String,
    /// The type.
    pub return_type: Spanned<Type>,
    /// The body.
    pub body: Vec<Spanned<Statement>>,
}

/// How far a declaration can be seen.
#[derive(Debug, Clone, Copy, PartialEq, Eq, Structural)]
pub enum Visibility {
    /// Inside its module.
    Private,
    /// Everywhere.
    Public,
}

/// A field of a model or class.
#[derive(Debug)]
pub struct FieldDecl {
    /// The name.
    pub name: String,
    /// The type, in the forms that every declaration shares.
    pub ty: Spanned<Type>,
    /// The annotation, where it has a form that no other declaration shares.
    pub annotation: Option<FieldAnnotation>,
    /// The visibility.
    pub visibility: Visibility,
    /// The default value.
    pub default: Option<Rc<Spanned<Expr>>>,
    /// What `Field(..)` says of the field.
    pub metadata: FieldMetadata,
}

/// Serialization facts of a field.
#[derive(Debug)]
pub struct FieldMetadata {
    /// The name on the wire.
    pub alias: Option<String>,
    /// The description.
    pub description: Option<String>,
}

/// A decorator.
#[derive(Debug)]
pub struct Decorator {
    /// The name.
    pub name: String,
    /// The arguments.
    pub args: Vec<DecoratorArg>,
}

/// An argument of a decorator.
#[derive(Debug)]
#[allow(inconsistent_fields)]
pub enum DecoratorArg {
    /// By place.
    Positional(Rc<Spanned<Expr>>),
    /// By name.
    Named(String, DecoratorArgValue),
}

/// The value of a named decorator argument.
#[derive(Debug)]
#[allow(inconsistent_fields)]
pub enum DecoratorArgValue {
    /// A type.
    Type(Spanned<Type>),
    /// An expression.
    Expr(Rc<Spanned<Expr>>),
}

/// A type annotation.
#[derive(Debug)]
#[allow(inconsistent_fields)]
pub enum Type {
    /// A name.
    Simple(String),
    /// A name with arguments.
    Generic(String, Vec<Spanned<Type>>),
    /// A callable.
    Function(Vec<Spanned<Type>>, Box<Spanned<Type>>),
    /// The unit type.
    Unit,
    /// A tuple.
    Tuple(Vec<Spanned<Type>>),
    /// `Self`
    SelfType,
}

/// A field annotation in every spelling that a class body admits.
#[derive(Debug)]
#[allow(inconsistent_fields)]
pub enum FieldAnnotation {
    /// A name.
    Simple(String),
    /// A primitive with constraints.
    ConstrainedPrimitive(String, Vec<String>),
    /// A path.
    Qualified(Vec<String>),
    /// A name with arguments.
    Generic(String, Vec<FieldAnnotation>),
    /// A callable.
    Function(Vec<FieldAnnotation>, Box<FieldAnnotation>),
    /// A shared reference.
    Ref(Box<FieldAnnotation>),
    /// A mutable reference.
    RefMut(Box<FieldAnnotation>),
    /// A tuple.
    Tuple(Vec<FieldAnnotation>),
    /// The unit type.
    Unit,
    /// `Self`
    SelfType,
    /// An integer in a type position.
    IntLiteral(String),
    /// An annotation left to inference.
    Infer,
}

/// A statement.
#[derive(Debug)]
#[allow(inconsistent_fields)]
pub enum Statement {
    /// An expression for its effect.
    Expr(Rc<Spanned<Expr>>),
    /// `x = value`, `let x = value`, `mut x = value`
    Assignment(AssignmentStmt),
    /// `object.field = value`
    FieldAssignment {
        /// The object.
        object: Rc<Spanned<Expr>>,
        /// The field.
        field: String,
        /// The value.
        value: Rc<Spanned<Expr>>,
    },
    /// `object[index] = value`
    IndexAssignment {
        /// The object.
        object: Rc<Spanned<Expr>>,
        /// The index.
        index: Rc<Spanned<Expr>>,
        /// The value.
        value: Rc<Spanned<Expr>>,
    },
    /// `return`
    Return(Option<Rc<Spanned<Expr>>>),
    /// `if`
    If(IfStmt),
    /// `while`
    While {
        /// The condition.
        condition: Rc<Spanned<Expr>>,
        /// The body.
        body: Vec<Spanned<Statement>>,
    },
    /// `for`
    For {
        /// The loop variable.
        var: String,
        /// What is walked.
        iter: Rc<Spanned<Expr>>,
        /// The body.
        body: Vec<Spanned<Statement>>,
    },
    /// `pass`
    Pass,
    /// `break`
    Break,
    /// `continue`
    Continue,
    /// `x += value`
    CompoundAssignment {
        /// The variable.
        name: String,
        /// The operator.
        op: CompoundOp,
        /// The value.
        value: Rc<Spanned<Expr>>,
    },
    /// `a, b = value`
    TupleUnpack {
        /// How the names are bound.
        binding: BindingKind,
        /// The names.
        names: Vec<String>,
        /// The value.
        value: Rc<Spanned<Expr>>,
    },
    /// `a.x, b[0] = value`
    TupleAssign {
        /// The places.
        targets: Vec<Rc<Spanned<Expr>>>,
        /// The value.
        value: Rc<Spanned<Expr>>,
    },
    /// `x = y = value`
    ChainedAssignment {
        /// How the names are bound.
        binding: BindingKind,
        /// The names, leftmost first.
        targets: Vec<String>,
        /// The value.
        value: Rc<Spanned<Expr>>,
    },
}

/// An assignment to one name.
#[derive(Debug)]
pub struct AssignmentStmt {
    /// How the name is bound.
    pub binding: BindingKind,
    /// The name.
    pub name: String,
    /// The annotation.
    pub ty: Option<Spanned<Type>>,
    /// The value.
    pub value: Rc<Spanned<Expr>>,
}

/// A conditional statement.
#[derive(Debug)]
pub struct IfStmt {
    /// The condition.
    pub condition: Rc<Spanned<Expr>>,
    /// The body.
    pub then_body: Vec<Spanned<Statement>>,
    /// The `elif` branches.
    pub elif_branches: Vec<ElifBranch>,
    /// The `else` body.
    pub else_body: Option<Vec<Spanned<Statement>>>,
}

/// One `elif` branch.
#[derive(Debug)]
pub struct ElifBranch {
    /// The condition.
    pub condition: Rc<Spanned<Expr>>,
    /// The body.
    pub body: Vec<Spanned<Statement>>,
}

/// How an assignment binds its name.
#[derive(Debug, Clone, Copy, PartialEq, Eq, Structural)]
pub enum BindingKind {
    /// The name is known to exist.
    Reassign,
    /// The name is new unless it exists.
    Inferred,
    /// A new mutable binding.
    Mutable,
    /// A new immutable binding.
    Let,
}

/// Operators of compound assignments.
#[derive(Debug, Clone, Copy, PartialEq, Eq, Structural)]
pub enum CompoundOp {
    /// `+=`
    Add,
    /// `-=`
    Sub,
    /// `*=`
    Mul,
    /// `/=`
    Div,
    /// `//=`
    FloorDiv,
    /// `%=`
    Mod,
}

/// Binary operators.
#[derive(Debug, Clone, Copy, PartialEq, Eq, Structural)]
pub enum BinaryOp {
    /// `+`
    Add,
    /// `-`
    Sub,
    /// `*`
    Mul,
    /// `/`
    Div,
    /// `//`
    FloorDiv,
    /// `%`
    Mod,
    /// `**`
    Pow,
    /// `==`
    Eq,
    /// `!=`
    NotEq,
    /// `<`
    Lt,
    /// `<=`
    LtEq,
    /// `>`
    Gt,
    /// `>=`
    GtEq,
    /// `and`
    And,
    /// `or`
    Or,
    /// `in`
    In,
    /// `not in`
    NotIn,
    /// `is`
    Is,
}

/// Unary operators.
#[derive(Debug, Clone, Copy, PartialEq, Eq, Structural)]
pub enum UnaryOp {
    /// `-`
    Neg,
    /// `not`
    Not,
}

/// Literals.
#[derive(Debug)]
#[allow(inconsistent_fields)]
pub enum Literal {
    /// An integer.
    Int(i64),
    /// A float, as it is spelled.
    Float(String),
    /// A string.
    String(String),
    /// A byte string.
    Bytes(Vec<u8>),
    /// A flag.
    Bool(bool),
    /// `None`
    NoneLiteral,
}

/// An expression.
#[derive(Debug)]
#[allow(inconsistent_fields)]
pub enum Expr {
    /// A name.
    Ident(String),
    /// A literal.
    Literal(Literal),
    /// `self`
    SelfExpr,
    /// A binary operation.
    Binary(Rc<Spanned<Expr>>, BinaryOp, Rc<Spanned<Expr>>),
    /// A unary operation.
    Unary(UnaryOp, Rc<Spanned<Expr>>),
    /// A call.
    Call(Rc<Spanned<Expr>>, Vec<CallArg>),
    /// A method call.
    MethodCall(Rc<Spanned<Expr>>, String, Vec<CallArg>),
    /// A field access.
    Field(Rc<Spanned<Expr>>, String),
    /// An index access.
    Index(Rc<Spanned<Expr>>, Rc<Spanned<Expr>>),
    /// A slice, with its bounds where they are given.
    Slice(Rc<Spanned<Expr>>, SliceExpr),
    /// `await`
    Await(Rc<Spanned<Expr>>),
    /// `?`
    Try(Rc<Spanned<Expr>>),
    /// A conditional expression.
    If(IfExpr),
    /// A match.
    Match(Rc<Spanned<Expr>>, Vec<Spanned<MatchArm>>),
    /// A closure.
    Closure(Vec<String>, Rc<Spanned<Expr>>),
    /// A list.
    List(Vec<Rc<Spanned<Expr>>>),
    /// A tuple.
    Tuple(Vec<Rc<Spanned<Expr>>>),
    /// A set.
    SetLiteral(Vec<Rc<Spanned<Expr>>>),
    /// A dictionary.
    Dict(Vec<DictEntry>),
    /// An interpolated string.
    FString(Vec<FStringPart>),
    /// A list comprehension.
    ListComp(ListComp),
    /// A dictionary comprehension.
    DictComp(DictComp),
    /// A constructor call.
    Constructor(String, Vec<CallArg>),
    /// A parenthesized expression.
    Paren(Rc<Spanned<Expr>>),
}

/// An argument of a call.
#[derive(Debug)]
#[allow(inconsistent_fields)]
pub enum CallArg {
    /// By place.
    Positional(Rc<Spanned<Expr>>),
    /// By name.
    Named(String, Rc<Spanned<Expr>>),
}

/// The bounds of a slice.
#[derive(Debug)]
pub struct SliceExpr {
    /// The first index.
    pub start: Option<Rc<Spanned<Expr>>>,
    /// The index that is not reached.
    pub end: Option<Rc<Spanned<Expr>>>,
    /// The distance between indices.
    pub step: Option<Rc<Spanned<Expr>>>,
}

/// A conditional expression.
#[derive(Debug)]
pub struct IfExpr {
    /// The condition.
    pub condition: Rc<Spanned<Expr>>,
    /// The body.
    pub then_body: Vec<Spanned<Statement>>,
    /// The `else` body.
    pub else_body: Option<Vec<Spanned<Statement>>>,
}

/// One arm of a match.
#[derive(Debug)]
pub struct MatchArm {
    /// The pattern, as it is spelled.
    pub pattern: String,
    /// The guard.
    pub guard: Option<Rc<Spanned<Expr>>>,
    /// The body.
    pub body: MatchBody,
}

/// The body of a match arm.
#[derive(Debug)]
#[allow(inconsistent_fields)]
pub enum MatchBody {
    /// An expression.
    Expr(Rc<Spanned<Expr>>),
    /// A block.
    Block(Vec<Spanned<Statement>>),
}

/// One entry of a dictionary.
#[derive(Debug)]
pub struct DictEntry {
    /// The key.
    pub key: Rc<Spanned<Expr>>,
    /// The value.
    pub value: Rc<Spanned<Expr>>,
}

/// A part of an interpolated string.
#[derive(Debug)]
#[allow(inconsistent_fields)]
pub enum FStringPart {
    /// Text.
    Literal(String),
    /// An interpolation.
    Expr(Rc<Spanned<Expr>>),
}

/// A list comprehension.
#[derive(Debug)]
pub struct ListComp {
    /// The item.
    pub expr: Rc<Spanned<Expr>>,
    /// The loop variable.
    pub var: String,
    /// What is walked.
    pub iter: Rc<Spanned<Expr>>,
    /// The condition.
    pub filter: Option<Rc<Spanned<Expr>>>,
}

/// A dictionary comprehension.
#[derive(Debug)]
pub struct DictComp {
    /// The key.
    pub key: Rc<Spanned<Expr>>,
    /// The value.
    pub value: Rc<Spanned<Expr>>,
    /// The loop variable.
    pub var: String,
    /// What is walked.
    pub iter: Rc<Spanned<Expr>>,
    /// The condition.
    pub filter: Option<Rc<Spanned<Expr>>>,
}

} // verus!
