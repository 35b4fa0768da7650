//! Body IR: the normalized, typed form of function bodies that the replacement backend consumes.
//!
//! Statement lists and callable contracts are shared, so a callable value or a suspended generator frame can
//! retain its code without copying it.

use std::rc::Rc;
use vstd::prelude::*;

verus! {

/// A byte range of the original source.
#[derive(Debug, Clone, Copy, PartialEq, Eq, Structural)]
pub struct HirSourceSpan {
    /// First byte offset.
    pub start: usize,
    /// Byte offset behind the last byte.
    pub end: usize,
}

impl HirSourceSpan {
    /// The span from `start` to `end`.
    pub fn new(start: usize, end: usize) -> (span: Self)
        ensures
            span.start == start,
            span.end == end,
    {
        HirSourceSpan { start, end }
    }
}

/// The identity of one local slot of a body.
#[derive(Debug, Clone, Copy, PartialEq, Eq, Structural)]
pub struct LocalId(pub u32);

/// What introduced a local.
#[derive(Debug, Clone, Copy, PartialEq, Eq, Structural)]
pub enum LocalOrigin {
    /// A declared parameter.
    Parameter,
    /// A binding that the source spells.
    UserBinding,
    /// A slot that lowering introduced.
    Temporary,
}

/// Scalar types of the language.
#[derive(Debug, Clone, Copy, PartialEq, Eq, Structural)]
pub enum IncanPrimitiveType {
    /// `int`
    Int,
    /// `float`
    Float,
    /// `bool`
    Bool,
    /// `str`
    Str,
    /// `bytes`
    Bytes,
    /// The unit type.
    Unit,
}

/// Collection types of the canonical registry.
#[derive(Debug, Clone, Copy, PartialEq, Eq, Structural)]
pub enum CollectionTypeId {
    /// `list`
    List,
    /// `dict`
    Dict,
    /// `set`
    SetType,
    /// `tuple`
    Tuple,
    /// Any other registered collection.
    Other,
}

/// The type of a local, as far as the backend reads it.
#[derive(Debug, PartialEq)]
pub enum IncanType {
    /// A scalar.
    Primitive(IncanPrimitiveType),
    /// A tuple type.
    Tuple(Vec<IncanType>),
    /// An applied generic type, with the collection its base names in the registry, if any.
    Generic {
        /// The registered collection that the base names.
        collection: Option<CollectionTypeId>,
        /// The type arguments.
        args: Vec<IncanType>,
    },
    /// Any other type.
    Named(String),
}

/// The declaration of one local.
#[derive(Debug, PartialEq)]
pub struct LocalDecl {
    /// The slot.
    pub id: LocalId,
    /// The source name, where the source spells one.
    pub name: Option<String>,
    /// What introduced the local.
    pub origin: LocalOrigin,
    /// The type.
    pub ty: IncanType,
    /// The type as diagnostics spell it.
    pub ty_text: String,
    /// Where the local is declared.
    pub span: HirSourceSpan,
}

/// How a read treats the value it reads.
#[derive(Debug, Clone, Copy, PartialEq, Eq, Structural)]
pub enum OwnershipFact {
    /// Duplicate a trivially copyable value.
    Copy,
    /// Take the value and leave nothing behind.
    Move,
    /// Duplicate the value.
    Clone,
    /// Look at the value.
    Borrow,
    /// Look at the value with permission to change it.
    MutBorrow,
    /// Lowering could not decide.
    Unknown,
}

/// One step from a place to a part of it.
#[derive(Debug, PartialEq)]
pub enum PlaceElem {
    /// A field by name.
    Field(String),
    /// An element by index.
    Index(Box<Operand>),
    /// A run of elements.
    Slice,
}

/// A local and the path to the part of it that is meant.
#[derive(Debug, PartialEq)]
pub struct Place {
    /// The local.
    pub local: LocalId,
    /// The path, outermost step first.
    pub projection: Vec<PlaceElem>,
}

/// A read of a place with its ownership decision.
#[derive(Debug, PartialEq)]
pub struct PlaceOperand {
    /// What is read.
    pub place: Place,
    /// How it is read.
    pub fact: OwnershipFact,
    /// Whether this is the local's last use.
    pub last_use: bool,
}

/// A literal.
#[derive(Debug, PartialEq)]
pub enum Constant {
    /// An integer literal.
    Int(i64),
    /// A boolean literal.
    Bool(bool),
    /// A string literal.
    Str(String),
    /// A floating-point literal, by its spelling.
    Float(String),
    /// The unit value.
    Unit,
    /// `None`
    NoneLiteral,
}

/// A value that a statement reads.
#[derive(Debug, PartialEq)]
pub enum Operand {
    /// A literal.
    Constant(Constant),
    /// A read of a place.
    Place(PlaceOperand),
}

/// One element of an aggregate or of an argument list.
#[derive(Debug, PartialEq)]
pub enum ArgumentElement {
    /// One value.
    One(Operand),
    /// All values of a source whose length is known only at run time.
    Spread(Operand),
}

/// What an aggregate builds.
#[derive(Debug, PartialEq)]
pub enum AggregateKind {
    /// A tuple.
    Tuple,
    /// A list.
    List,
    /// A dict.
    Dict,
    /// A set.
    SetLiteral,
    /// A value of a named type.
    Constructor(String),
}

/// Unary operators.
#[derive(Debug, Clone, Copy, PartialEq, Eq, Structural)]
pub enum UnOp {
    /// `-`
    Neg,
    /// `not`
    Not,
    /// `~`
    Invert,
}

/// Binary operators.
#[derive(Debug, Clone, Copy, PartialEq, Eq, Structural)]
pub enum BinOp {
    /// `+`
    Add,
    /// `-`
    Sub,
    /// `*`
    Mul,
    /// `/`
    Div,
    /// `//`
    FloorDiv,
    /// `%`
    Mod,
    /// `==`
    Eq,
    /// `!=`
    Ne,
    /// `<`
    Lt,
    /// `<=`
    Le,
    /// `>`
    Gt,
    /// `>=`
    Ge,
    /// `and`
    And,
    /// `or`
    Or,
}

/// Helpers that the compiler itself calls.
#[derive(Debug, Clone, Copy, PartialEq, Eq, Structural)]
pub enum HelperOp {
    /// String concatenation.
    StrConcat,
    /// String equality.
    StrEq,
    /// String inequality.
    StrNe,
    /// String order.
    StrLt,
    /// String order.
    StrLe,
    /// String order.
    StrGt,
    /// String order.
    StrGe,
    /// List concatenation.
    ListConcat,
}

/// Where one written argument goes.
#[derive(Debug, Clone, Copy, PartialEq, Eq, Structural)]
pub struct BoundArgument {
    /// The parameter slot that receives the argument.
    pub slot: usize,
    /// The place of the argument in source order.
    pub written_position: usize,
}

/// How a call's arguments meet the callee's parameters.
#[derive(Debug, PartialEq)]
pub enum ArgumentBinding {
    /// Every argument has a slot, and every other slot takes its default.
    Resolved {
        /// One entry per argument.
        arguments: Vec<BoundArgument>,
        /// Slots that take their default.
        defaulted_slots: Vec<usize>,
    },
    /// The callee's signature was not resolved.
    UnresolvedPositional,
}

/// A call by name.
#[derive(Debug, PartialEq)]
pub struct NamedCallableTarget {
    /// The source-level name.
    pub name: String,
    /// How the arguments are bound.
    pub binding: ArgumentBinding,
    /// Whether the name was resolved to a builtin.
    pub builtin: bool,
    /// The identity of the declaration that the name was resolved to.
    pub direct_call_id: Option<String>,
}

/// A call of a callable value.
#[derive(Debug, PartialEq)]
pub struct LocalCallableTarget {
    /// The local that holds the callable.
    pub operand: PlaceOperand,
    /// How the arguments are bound.
    pub binding: ArgumentBinding,
    /// The target as diagnostics spell it.
    pub label: String,
}

/// A callable by name or by value.
#[derive(Debug, PartialEq)]
pub enum CallableTarget {
    /// By name.
    Named(NamedCallableTarget),
    /// By value.
    Local(LocalCallableTarget),
}

/// A method call.
#[derive(Debug, PartialEq)]
pub struct MethodTarget {
    /// The method name.
    pub name: String,
    /// How the arguments are bound.
    pub binding: ArgumentBinding,
}

/// An operation of a provider.
#[derive(Debug, PartialEq)]
pub struct ProviderOperation {
    /// The provider that declares it.
    pub provider: String,
    /// The name that it is declared by.
    pub declaration_name: String,
}

/// A call of a provider's operation.
#[derive(Debug, PartialEq)]
pub struct ProviderOperationPlan {
    /// The operation.
    pub operation: ProviderOperation,
    /// Where the call is written.
    pub call_span: HirSourceSpan,
}

/// What a call calls.
#[derive(Debug, PartialEq)]
pub enum Callee {
    /// A function.
    Function(CallableTarget),
    /// A method.
    Method(MethodTarget),
    /// A compiler-owned helper.
    Helper(HelperOp),
    /// A provider operation.
    ProviderOperation(ProviderOperationPlan),
}

/// A computation that yields a parameter's default.
#[derive(Debug, PartialEq)]
pub struct DefaultComputation {
    /// The statements to run first.
    pub stmts: Vec<Statement>,
    /// The default.
    pub result: Operand,
    /// Where the default is written.
    pub span: HirSourceSpan,
}

/// What a parameter takes when no argument is given.
#[derive(Debug, PartialEq)]
pub enum CallableParamDefault {
    /// Nothing: an argument is required.
    Required,
    /// The value of a computation at call time.
    Source(DefaultComputation),
    /// A value captured when a partial application was built.
    PartialPreset {
        /// The capture that holds the value.
        capture: LocalId,
    },
    /// A default that lowering cannot express.
    Unsupported {
        /// Where the default is written.
        span: HirSourceSpan,
        /// What it is.
        description: String,
    },
}

/// One parameter of a callable.
#[derive(Debug, PartialEq)]
pub struct CallableParam {
    /// The source-level name.
    pub name: String,
    /// The local that receives the value.
    pub local: LocalId,
    /// The default.
    pub default: CallableParamDefault,
    /// Where the parameter is declared.
    pub span: HirSourceSpan,
}

/// The body of a closure expression.
#[derive(Debug, PartialEq)]
pub struct ClosureBody {
    /// The locals that receive the captured values.
    pub capture_locals: Vec<LocalId>,
    /// The statements to run first.
    pub stmts: Vec<Statement>,
    /// The closure's value.
    pub result: Operand,
}

/// The body of a generator expression.
#[derive(Debug, PartialEq)]
pub struct GeneratorBody {
    /// The local that receives the source.
    pub source_local: LocalId,
    /// The locals that receive the captured values.
    pub capture_locals: Vec<LocalId>,
    /// The statements.
    pub stmts: Rc<Vec<Statement>>,
}

/// One arm of a match expression.
#[derive(Debug, PartialEq)]
pub struct MatchArm {
    /// The statements that compute the guard.
    pub guard_stmts: Vec<Statement>,
    /// The statements of the arm.
    pub body_stmts: Vec<Statement>,
}

/// What an assignment computes.
#[derive(Debug, PartialEq)]
#[allow(inconsistent_fields)]
pub enum Rvalue {
    /// A value as it is.
    Use(Operand),
    /// A unary operation.
    UnaryOp(UnOp, Operand),
    /// A binary operation.
    BinaryOp(BinOp, Operand, Operand),
    /// A collection or a value of a named type.
    Aggregate(AggregateKind, Vec<ArgumentElement>),
    /// A formatted string.
    Format(Vec<Operand>),
    /// A closure or a partial application.
    Closure {
        /// The parameters.
        params: Rc<Vec<CallableParam>>,
        /// The values to capture.
        captured_operands: Vec<Operand>,
        /// The body.
        body: Rc<ClosureBody>,
    },
    /// A generator expression.
    Generator {
        /// The iterated value.
        source: Operand,
        /// The values to capture.
        captured_operands: Vec<Operand>,
        /// The body.
        body: GeneratorBody,
    },
    /// A match expression.
    Match {
        /// The arms.
        arms: Vec<MatchArm>,
    },
}

/// A run of statements.
#[derive(Debug, PartialEq)]
pub struct Block {
    /// The statements.
    pub stmts: Rc<Vec<Statement>>,
}

/// How an iterator is polled.
#[derive(Debug, Clone, Copy, PartialEq, Eq, Structural)]
pub enum IterProtocol {
    /// By the compiler itself.
    Builtin,
    /// By a method of the iterated value.
    Method,
}

/// One arm of a race.
#[derive(Debug, PartialEq)]
pub struct RaceArm {
    /// What runs when the arm wins.
    pub body: Block,
}

/// One operation.
#[derive(Debug, PartialEq)]
#[allow(inconsistent_fields)]
pub enum StatementKind {
    /// Compute a value and store it.
    Assign {
        /// Where the value goes.
        place: Place,
        /// What is computed.
        rvalue: Rvalue,
    },
    /// Call something.
    Call {
        /// Where the result goes.
        destination: Option<Place>,
        /// What is called.
        callee: Callee,
        /// The arguments.
        args: Vec<ArgumentElement>,
        /// Whether the call may stop the program.
        may_panic: bool,
    },
    /// End a local's life.
    Drop {
        /// The local.
        local: LocalId,
    },
    /// Branch.
    If {
        /// The condition.
        cond: Operand,
        /// What runs when it holds.
        then_block: Block,
        /// What runs when it does not.
        else_block: Option<Block>,
    },
    /// Repeat until something leaves the loop.
    Loop {
        /// The repeated block.
        body: Block,
    },
    /// Leave the innermost loop.
    Break {
        /// The loop's value.
        value: Option<Operand>,
    },
    /// Start the innermost loop's next round.
    Continue,
    /// Leave the function.
    Return {
        /// The function's value.
        value: Option<Operand>,
    },
    /// Stop the program unless a condition holds.
    Assert {
        /// The condition.
        cond: Operand,
        /// What to say.
        message: Option<Operand>,
        /// Whether the assertion may stop the program.
        may_panic: bool,
    },
    /// Evaluate a value and forget it.
    Expr {
        /// The value.
        value: Operand,
    },
    /// Poll an iterator, leaving the innermost loop when it is exhausted.
    IterNext {
        /// Where the item goes.
        destination: Place,
        /// The iterator.
        iterator: Operand,
        /// How it is polled.
        protocol: IterProtocol,
    },
    /// Hand one value to the consumer of a generator.
    Yield {
        /// The value.
        value: Operand,
    },
    /// Wait for a task.
    Await {
        /// The task.
        value: Operand,
    },
    /// Wait for the first of several tasks.
    Race {
        /// The arms.
        arms: Vec<RaceArm>,
    },
    /// Return early on a failure value.
    TryPropagate {
        /// The value.
        value: Operand,
    },
    /// Something that lowering cannot express.
    Unsupported {
        /// What it is.
        description: String,
    },
}

/// One operation with its place in the source.
#[derive(Debug, PartialEq)]
pub struct Statement {
    /// The operation.
    pub kind: StatementKind,
    /// Where it is written.
    pub span: HirSourceSpan,
}

/// What a program needs from its surroundings at run time.
#[derive(Debug, PartialEq, Eq)]
pub enum AbiV0RuntimeRequirement {
    /// A named runtime helper.
    RuntimeHelper(String),
    /// A hosted standard library.
    HostedStd,
    /// An allocator.
    Allocator,
    /// A panic strategy.
    PanicStrategy,
    /// An async runtime.
    AsyncRuntime,
}

impl Clone for AbiV0RuntimeRequirement {
    fn clone(&self) -> (copy: Self)
        ensures
            copy == *self,
    {
        match self {
            AbiV0RuntimeRequirement::RuntimeHelper(name) => AbiV0RuntimeRequirement::RuntimeHelper(name.clone()),
            AbiV0RuntimeRequirement::HostedStd => AbiV0RuntimeRequirement::HostedStd,
            AbiV0RuntimeRequirement::Allocator => AbiV0RuntimeRequirement::Allocator,
            AbiV0RuntimeRequirement::PanicStrategy => AbiV0RuntimeRequirement::PanicStrategy,
            AbiV0RuntimeRequirement::AsyncRuntime => AbiV0RuntimeRequirement::AsyncRuntime,
        }
    }
}

/// One function body.
#[derive(Debug, PartialEq)]
pub struct Body {
    /// The source-level name.
    pub name: String,
    /// The identity of the declaration.
    pub direct_call_id: String,
    /// Where the function is declared.
    pub span: HirSourceSpan,
    /// The parameters.
    pub params: Vec<CallableParam>,
    /// Every local of the body.
    pub locals: Vec<LocalDecl>,
    /// The statements.
    pub block: Block,
    /// Whether the function is declared `async`.
    pub is_async: bool,
    /// Whether the function yields.
    pub yields: bool,
    /// What the body needs at run time.
    pub runtime_requirements: Vec<AbiV0RuntimeRequirement>,
    /// The deterministic rendering of the whole body.
    pub snapshot: String,
}

impl Body {
    /// Whether the body is that of a generator function.
    pub fn is_generator(&self) -> (generator: bool)
        ensures
            generator == self.yields,
    {
        self.yields
    }
}

/// One module of function bodies.
#[derive(Debug, PartialEq)]
pub struct BodyIrModule {
    /// The identity of the module.
    pub module_id: String,
    /// The bodies, in declaration order.
    pub bodies: Vec<Rc<Body>>,
}

} // verus!
