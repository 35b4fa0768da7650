//! How Body IR is spelled: the form of each piece with everything that it holds.

use crate::body_ir::{
    AbiV0RuntimeRequirement, AggregateKind, ArgumentBinding, ArgumentElement, BinOp, Block, Body, BoundArgument,
    CallableParam, CallableParamDefault, CallableTarget, Callee, ClosureBody, CollectionTypeId, Constant,
    DefaultComputation, GeneratorBody, HelperOp, HirSourceSpan, IncanPrimitiveType, IncanType, IterProtocol,
    LocalCallableTarget, LocalDecl, LocalId, LocalOrigin, MatchArm, MethodTarget, NamedCallableTarget, Operand,
    OwnershipFact, Place, PlaceElem, PlaceOperand, ProviderOperation, ProviderOperationPlan, RaceArm, Rvalue,
    Statement, StatementKind, UnOp,
};
use crate::text::{
    bool_spelling, bool_text, debug_quoted, debug_text, decimal, integer_text, join, joined, natural_text,
    signed_decimal, texts,
};
use vstd::prelude::*;

verus! {

broadcast use vstd::string::group_string_axioms;

/// How a list of spelled items is spelled.
pub open spec fn listed(items: Seq<Seq<char>>) -> Seq<char> {
    "["@ + joined(items, ", "@) + "]"@
}

/// Spells a list of spelled items.
pub fn list_text(items: &Vec<String>) -> (text: String)
    ensures
        text@ == listed(texts(items@)),
{
    "[".to_owned().concat(join(items, ", ").as_str()).concat("]")
}

// ---------------------------------------------------------------------------
// How it is spelled
// ---------------------------------------------------------------------------

/// How a parameter is spelled.
pub open spec fn spelled_callable_param(a: CallableParam) -> Seq<char>
    decreases a,
{
    "CallableParam { name: "@ + debug_quoted(a.name@) + ", local: "@ + spelled_local_id(a.local) + ", default: "@
        + spelled_callable_param_default(a.default) + ", span: "@ + spelled_span(a.span) + " }"@
}

/// How a local is spelled.
pub open spec fn spelled_local_id(a: LocalId) -> Seq<char>
    decreases a,
{
    "LocalId("@ + decimal(a.0 as nat) + ")"@
}

/// How a default is spelled.
pub open spec fn spelled_callable_param_default(a: CallableParamDefault) -> Seq<char>
    decreases a,
{
    match a {
        CallableParamDefault::Required => "Required"@,
        CallableParamDefault::Source(x) => "Source("@ + spelled_default_computation(x) + ")"@,
        CallableParamDefault::PartialPreset { capture } =>
            "PartialPreset { capture: "@ + spelled_local_id(capture) + " }"@,
        CallableParamDefault::Unsupported { span, description } =>
            "Unsupported { span: "@ + spelled_span(span) + ", description: "@ + debug_quoted(description@) + " }"@,
    }
}

/// How a default computation is spelled.
pub open spec fn spelled_default_computation(a: DefaultComputation) -> Seq<char>
    decreases a,
{
    "DefaultComputation { stmts: "@ + listed(spelled_statements(a.stmts@)) + ", result: "@
        + spelled_operand(a.result) + ", span: "@ + spelled_span(a.span) + " }"@
}

/// How a statement is spelled.
pub open spec fn spelled_statement(a: Statement) -> Seq<char>
    decreases a,
{
    "Statement { kind: "@ + spelled_statement_kind(a.kind) + ", span: "@ + spelled_span(a.span) + " }"@
}

/// How a kind of statement is spelled.
pub open spec fn spelled_statement_kind(a: StatementKind) -> Seq<char>
    decreases a,
{
    match a {
        StatementKind::Assign { place, rvalue } =>
            "Assign { place: "@ + spelled_place(place) + ", rvalue: "@ + spelled_rvalue(rvalue) + " }"@,
        StatementKind::Call { destination, callee, args, may_panic } =>
            "Call { destination: "@ + spelled_optional_place(destination) + ", callee: "@ + spelled_callee(callee)
                + ", args: "@ + listed(spelled_argument_elements(args@)) + ", may_panic: "@
                + bool_spelling(may_panic) + " }"@,
        StatementKind::Drop { local } => "Drop { local: "@ + spelled_local_id(local) + " }"@,
        StatementKind::If { cond, then_block, else_block } =>
            "If { cond: "@ + spelled_operand(cond) + ", then_block: "@ + spelled_block(then_block)
                + ", else_block: "@ + spelled_optional_block(else_block) + " }"@,
        StatementKind::Loop { body } => "Loop { body: "@ + spelled_block(body) + " }"@,
        StatementKind::Break { value } => "Break { value: "@ + spelled_optional_operand(value) + " }"@,
        StatementKind::Continue => "Continue"@,
        StatementKind::Return { value } => "Return { value: "@ + spelled_optional_operand(value) + " }"@,
        StatementKind::Assert { cond, message, may_panic } =>
            "Assert { cond: "@ + spelled_operand(cond) + ", message: "@ + spelled_optional_operand(message)
                + ", may_panic: "@ + bool_spelling(may_panic) + " }"@,
        StatementKind::Expr { value } => "Expr { value: "@ + spelled_operand(value) + " }"@,
        StatementKind::IterNext { destination, iterator, protocol } =>
            "IterNext { destination: "@ + spelled_place(destination) + ", iterator: "@ + spelled_operand(iterator)
                + ", protocol: "@ + spelled_iter_protocol(protocol) + " }"@,
        StatementKind::Yield { value } => "Yield { value: "@ + spelled_operand(value) + " }"@,
        StatementKind::Await { value } => "Await { value: "@ + spelled_operand(value) + " }"@,
        StatementKind::Race { arms } => "Race { arms: "@ + listed(spelled_race_arms(arms@)) + " }"@,
        StatementKind::TryPropagate { value } => "TryPropagate { value: "@ + spelled_operand(value) + " }"@,
        StatementKind::Unsupported { description } =>
            "Unsupported { description: "@ + debug_quoted(description@) + " }"@,
    }
}

/// How a place is spelled.
pub open spec fn spelled_place(a: Place) -> Seq<char>
    decreases a,
{
    "Place { local: "@ + spelled_local_id(a.local) + ", projection: "@ + listed(spelled_place_elems(a.projection@))
        + " }"@
}

/// How a step of a place is spelled.
pub open spec fn spelled_place_elem(a: PlaceElem) -> Seq<char>
    decreases a,
{
    match a {
        PlaceElem::Field(x) => "Field("@ + debug_quoted(x@) + ")"@,
        PlaceElem::Index(x) => "Index("@ + spelled_operand(*x) + ")"@,
        PlaceElem::Slice => "Slice"@,
    }
}

/// How an operand is spelled.
pub open spec fn spelled_operand(a: Operand) -> Seq<char>
    decreases a,
{
    match a {
        Operand::Constant(x) => "Constant("@ + spelled_constant(x) + ")"@,
        Operand::Place(x) => "Place("@ + spelled_place_operand(x) + ")"@,
    }
}

/// How a constant is spelled.
pub open spec fn spelled_constant(a: Constant) -> Seq<char>
    decreases a,
{
    match a {
        Constant::Int(x) => "Int("@ + signed_decimal(x as int) + ")"@,
        Constant::Bool(x) => "Bool("@ + bool_spelling(x) + ")"@,
        Constant::Str(x) => "Str("@ + debug_quoted(x@) + ")"@,
        Constant::Float(x) => "Float("@ + debug_quoted(x@) + ")"@,
        Constant::Unit => "Unit"@,
        Constant::NoneLiteral => "None"@,
    }
}

/// How a read of a place is spelled.
pub open spec fn spelled_place_operand(a: PlaceOperand) -> Seq<char>
    decreases a,
{
    "PlaceOperand { place: "@ + spelled_place(a.place) + ", fact: "@ + spelled_ownership_fact(a.fact)
        + ", last_use: "@ + bool_spelling(a.last_use) + " }"@
}

/// How an ownership fact is spelled.
pub open spec fn spelled_ownership_fact(a: OwnershipFact) -> Seq<char>
    decreases a,
{
    match a {
        OwnershipFact::Copy => "Copy"@,
        OwnershipFact::Move => "Move"@,
        OwnershipFact::Clone => "Clone"@,
        OwnershipFact::Borrow => "Borrow"@,
        OwnershipFact::MutBorrow => "MutBorrow"@,
        OwnershipFact::Unknown => "Unknown"@,
    }
}

/// How a computation is spelled.
pub open spec fn spelled_rvalue(a: Rvalue) -> Seq<char>
    decreases a,
{
    match a {
        Rvalue::Use(x) => "Use("@ + spelled_operand(x) + ")"@,
        Rvalue::UnaryOp(x, y) => "UnaryOp("@ + spelled_unary_operator(x) + ", "@ + spelled_operand(y) + ")"@,
        Rvalue::BinaryOp(x, y, z) =>
            "BinaryOp("@ + spelled_binary_operator(x) + ", "@ + spelled_operand(y) + ", "@ + spelled_operand(z)
                + ")"@,
        Rvalue::Aggregate(x, y) =>
            "Aggregate("@ + spelled_aggregate_kind(x) + ", "@ + listed(spelled_argument_elements(y@)) + ")"@,
        Rvalue::Format(x) => "Format("@ + listed(spelled_operands(x@)) + ")"@,
        Rvalue::Closure { params, captured_operands, body } =>
            "Closure { params: "@ + listed(spelled_callable_params(params@)) + ", captured_operands: "@
                + listed(spelled_operands(captured_operands@)) + ", body: "@ + spelled_closure_body(*body) + " }"@,
        Rvalue::Generator { source, captured_operands, body } =>
            "Generator { source: "@ + spelled_operand(source) + ", captured_operands: "@
                + listed(spelled_operands(captured_operands@)) + ", body: "@ + spelled_generator_body(body) + " }"@,
        Rvalue::Match { arms } => "Match { arms: "@ + listed(spelled_match_arms(arms@)) + " }"@,
    }
}

/// How an unary operator is spelled.
pub open spec fn spelled_unary_operator(a: UnOp) -> Seq<char>
    decreases a,
{
    match a {
        UnOp::Neg => "Neg"@,
        UnOp::Not => "Not"@,
        UnOp::Invert => "Invert"@,
    }
}

/// How a binary operator is spelled.
pub open spec fn spelled_binary_operator(a: BinOp) -> Seq<char>
    decreases a,
{
    match a {
        BinOp::Add => "Add"@,
        BinOp::Sub => "Sub"@,
        BinOp::Mul => "Mul"@,
        BinOp::Div => "Div"@,
        BinOp::FloorDiv => "FloorDiv"@,
        BinOp::Mod => "Mod"@,
        BinOp::Eq => "Eq"@,
        BinOp::Ne => "Ne"@,
        BinOp::Lt => "Lt"@,
        BinOp::Le => "Le"@,
        BinOp::Gt => "Gt"@,
        BinOp::Ge => "Ge"@,
        BinOp::And => "And"@,
        BinOp::Or => "Or"@,
    }
}

/// How a kind of aggregate is spelled.
pub open spec fn spelled_aggregate_kind(a: AggregateKind) -> Seq<char>
    decreases a,
{
    match a {
        AggregateKind::Tuple => "Tuple"@,
        AggregateKind::List => "List"@,
        AggregateKind::Dict => "Dict"@,
        AggregateKind::SetLiteral => "Set"@,
        AggregateKind::Constructor(x) => "Constructor("@ + debug_quoted(x@) + ")"@,
    }
}

/// How an argument is spelled.
pub open spec fn spelled_argument_element(a: ArgumentElement) -> Seq<char>
    decreases a,
{
    match a {
        ArgumentElement::One(x) => "One("@ + spelled_operand(x) + ")"@,
        ArgumentElement::Spread(x) => "Spread("@ + spelled_operand(x) + ")"@,
    }
}

/// How a closure body is spelled.
pub open spec fn spelled_closure_body(a: ClosureBody) -> Seq<char>
    decreases a,
{
    "ClosureBody { capture_locals: "@ + listed(spelled_local_ids(a.capture_locals@)) + ", stmts: "@
        + listed(spelled_statements(a.stmts@)) + ", result: "@ + spelled_operand(a.result) + " }"@
}

/// How a generator body is spelled.
pub open spec fn spelled_generator_body(a: GeneratorBody) -> Seq<char>
    decreases a,
{
    "GeneratorBody { source_local: "@ + spelled_local_id(a.source_local) + ", capture_locals: "@
        + listed(spelled_local_ids(a.capture_locals@)) + ", stmts: "@ + listed(spelled_statements(a.stmts@)) + " }"@
}

/// How a match arm is spelled.
pub open spec fn spelled_match_arm(a: MatchArm) -> Seq<char>
    decreases a,
{
    "MatchArm { guard_stmts: "@ + listed(spelled_statements(a.guard_stmts@)) + ", body_stmts: "@
        + listed(spelled_statements(a.body_stmts@)) + " }"@
}

/// How a callee is spelled.
pub open spec fn spelled_callee(a: Callee) -> Seq<char>
    decreases a,
{
    match a {
        Callee::Function(x) => "Function("@ + spelled_callable_target(x) + ")"@,
        Callee::Method(x) => "Method("@ + spelled_method_target(x) + ")"@,
        Callee::Helper(x) => "Helper("@ + spelled_helper(x) + ")"@,
        Callee::ProviderOperation(x) => "ProviderOperation("@ + spelled_provider_operation_plan(x) + ")"@,
    }
}

/// How a callable target is spelled.
pub open spec fn spelled_callable_target(a: CallableTarget) -> Seq<char>
    decreases a,
{
    match a {
        CallableTarget::Named(x) => "Named("@ + spelled_named_callable_target(x) + ")"@,
        CallableTarget::Local(x) => "Local("@ + spelled_local_callable_target(x) + ")"@,
    }
}

/// How a named callable target is spelled.
pub open spec fn spelled_named_callable_target(a: NamedCallableTarget) -> Seq<char>
    decreases a,
{
    "NamedCallableTarget { name: "@ + debug_quoted(a.name@) + ", binding: "@ + spelled_argument_binding(a.binding)
        + ", builtin: "@ + bool_spelling(a.builtin) + ", direct_call_id: "@
        + spelled_optional_string(a.direct_call_id) + " }"@
}

/// How an argument binding is spelled.
pub open spec fn spelled_argument_binding(a: ArgumentBinding) -> Seq<char>
    decreases a,
{
    match a {
        ArgumentBinding::Resolved { arguments, defaulted_slots } =>
            "Resolved { arguments: "@ + listed(spelled_bound_arguments(arguments@)) + ", defaulted_slots: "@
                + listed(spelled_slots(defaulted_slots@)) + " }"@,
        ArgumentBinding::UnresolvedPositional => "UnresolvedPositional"@,
    }
}

/// How a bound argument is spelled.
pub open spec fn spelled_bound_argument(a: BoundArgument) -> Seq<char>
    decreases a,
{
    "BoundArgument { slot: "@ + decimal(a.slot as nat) + ", written_position: "@ + decimal(a.written_position as nat)
        + " }"@
}

/// How a local callable target is spelled.
pub open spec fn spelled_local_callable_target(a: LocalCallableTarget) -> Seq<char>
    decreases a,
{
    "LocalCallableTarget { operand: "@ + spelled_place_operand(a.operand) + ", binding: "@
        + spelled_argument_binding(a.binding) + ", label: "@ + debug_quoted(a.label@) + " }"@
}

/// How a method target is spelled.
pub open spec fn spelled_method_target(a: MethodTarget) -> Seq<char>
    decreases a,
{
    "MethodTarget { name: "@ + debug_quoted(a.name@) + ", binding: "@ + spelled_argument_binding(a.binding) + " }"@
}

/// How a helper is spelled.
pub open spec fn spelled_helper(a: HelperOp) -> Seq<char>
    decreases a,
{
    match a {
        HelperOp::StrConcat => "StrConcat"@,
        HelperOp::StrEq => "StrEq"@,
        HelperOp::StrNe => "StrNe"@,
        HelperOp::StrLt => "StrLt"@,
        HelperOp::StrLe => "StrLe"@,
        HelperOp::StrGt => "StrGt"@,
        HelperOp::StrGe => "StrGe"@,
        HelperOp::ListConcat => "ListConcat"@,
    }
}

/// How a call of a provider operation is spelled.
pub open spec fn spelled_provider_operation_plan(a: ProviderOperationPlan) -> Seq<char>
    decreases a,
{
    "ProviderOperationPlan { operation: "@ + spelled_provider_operation(a.operation) + ", call_span: "@
        + spelled_span(a.call_span) + " }"@
}

/// How a provider operation is spelled.
pub open spec fn spelled_provider_operation(a: ProviderOperation) -> Seq<char>
    decreases a,
{
    "ProviderOperation { provider: "@ + debug_quoted(a.provider@) + ", declaration_name: "@
        + debug_quoted(a.declaration_name@) + " }"@
}

/// How a span is spelled.
pub open spec fn spelled_span(a: HirSourceSpan) -> Seq<char>
    decreases a,
{
    "HirSourceSpan { start: "@ + decimal(a.start as nat) + ", end: "@ + decimal(a.end as nat) + " }"@
}

/// How a block is spelled.
pub open spec fn spelled_block(a: Block) -> Seq<char>
    decreases a,
{
    "Block { stmts: "@ + listed(spelled_statements(a.stmts@)) + " }"@
}

/// How an iteration protocol is spelled.
pub open spec fn spelled_iter_protocol(a: IterProtocol) -> Seq<char>
    decreases a,
{
    match a {
        IterProtocol::Builtin => "Builtin"@,
        IterProtocol::Method => "Method"@,
    }
}

/// How a race arm is spelled.
pub open spec fn spelled_race_arm(a: RaceArm) -> Seq<char>
    decreases a,
{
    "RaceArm { body: "@ + spelled_block(a.body) + " }"@
}

/// How a body is spelled.
pub open spec fn spelled_body(a: Body) -> Seq<char>
    decreases a,
{
    "Body { name: "@ + debug_quoted(a.name@) + ", direct_call_id: "@ + debug_quoted(a.direct_call_id@) + ", span: "@
        + spelled_span(a.span) + ", params: "@ + listed(spelled_callable_params(a.params@)) + ", locals: "@
        + listed(spelled_local_decls(a.locals@)) + ", block: "@ + spelled_block(a.block) + ", is_async: "@
        + bool_spelling(a.is_async) + ", yields: "@ + bool_spelling(a.yields) + ", runtime_requirements: "@
        + listed(spelled_requirements(a.runtime_requirements@)) + ", snapshot: "@ + debug_quoted(a.snapshot@) + " }"@
}

/// How a declared local is spelled.
pub open spec fn spelled_local_decl(a: LocalDecl) -> Seq<char>
    decreases a,
{
    "LocalDecl { id: "@ + spelled_local_id(a.id) + ", name: "@ + spelled_optional_string(a.name) + ", origin: "@
        + spelled_local_origin(a.origin) + ", ty: "@ + spelled_type(a.ty) + ", ty_text: "@ + debug_quoted(a.ty_text@)
        + ", span: "@ + spelled_span(a.span) + " }"@
}

/// How a local origin is spelled.
pub open spec fn spelled_local_origin(a: LocalOrigin) -> Seq<char>
    decreases a,
{
    match a {
        LocalOrigin::Parameter => "Parameter"@,
        LocalOrigin::UserBinding => "UserBinding"@,
        LocalOrigin::Temporary => "Temporary"@,
    }
}

/// How a type is spelled.
pub open spec fn spelled_type(a: IncanType) -> Seq<char>
    decreases a,
{
    match a {
        IncanType::Primitive(x) => "Primitive("@ + spelled_primitive_type(x) + ")"@,
        IncanType::Tuple(x) => "Tuple("@ + listed(spelled_types(x@)) + ")"@,
        IncanType::Generic { collection, args } =>
            "Generic { collection: "@ + spelled_optional_collection_type_id(collection) + ", args: "@
                + listed(spelled_types(args@)) + " }"@,
        IncanType::Named(x) => "Named("@ + debug_quoted(x@) + ")"@,
    }
}

/// How a primitive type is spelled.
pub open spec fn spelled_primitive_type(a: IncanPrimitiveType) -> Seq<char>
    decreases a,
{
    match a {
        IncanPrimitiveType::Int => "Int"@,
        IncanPrimitiveType::Float => "Float"@,
        IncanPrimitiveType::Bool => "Bool"@,
        IncanPrimitiveType::Str => "Str"@,
        IncanPrimitiveType::Bytes => "Bytes"@,
        IncanPrimitiveType::Unit => "Unit"@,
    }
}

/// How a collection type is spelled.
pub open spec fn spelled_collection_type_id(a: CollectionTypeId) -> Seq<char>
    decreases a,
{
    match a {
        CollectionTypeId::List => "List"@,
        CollectionTypeId::Dict => "Dict"@,
        CollectionTypeId::SetType => "Set"@,
        CollectionTypeId::Tuple => "Tuple"@,
        CollectionTypeId::Other => "Other"@,
    }
}

/// How a requirement is spelled.
pub open spec fn spelled_requirement(a: AbiV0RuntimeRequirement) -> Seq<char>
    decreases a,
{
    match a {
        AbiV0RuntimeRequirement::RuntimeHelper(x) => "RuntimeHelper("@ + debug_quoted(x@) + ")"@,
        AbiV0RuntimeRequirement::HostedStd => "HostedStd"@,
        AbiV0RuntimeRequirement::Allocator => "Allocator"@,
        AbiV0RuntimeRequirement::PanicStrategy => "PanicStrategy"@,
        AbiV0RuntimeRequirement::AsyncRuntime => "AsyncRuntime"@,
    }
}

/// How each of a run of parameters is spelled.
pub open spec fn spelled_callable_params(a: Seq<CallableParam>) -> Seq<Seq<char>>
    decreases a,
{
    Seq::new(
        a.len(),
        |i: int| if 0 <= i < a.len() {
            spelled_callable_param(a[i])
        } else {
            arbitrary()
        },
    )
}

/// How each of a run of statements is spelled.
pub open spec fn spelled_statements(a: Seq<Statement>) -> Seq<Seq<char>>
    decreases a,
{
    Seq::new(
        a.len(),
        |i: int| if 0 <= i < a.len() {
            spelled_statement(a[i])
        } else {
            arbitrary()
        },
    )
}

/// How each of a run of steps of places is spelled.
pub open spec fn spelled_place_elems(a: Seq<PlaceElem>) -> Seq<Seq<char>>
    decreases a,
{
    Seq::new(
        a.len(),
        |i: int| if 0 <= i < a.len() {
            spelled_place_elem(a[i])
        } else {
            arbitrary()
        },
    )
}

/// How each of a run of arguments is spelled.
pub open spec fn spelled_argument_elements(a: Seq<ArgumentElement>) -> Seq<Seq<char>>
    decreases a,
{
    Seq::new(
        a.len(),
        |i: int| if 0 <= i < a.len() {
            spelled_argument_element(a[i])
        } else {
            arbitrary()
        },
    )
}

/// How each of a run of operands is spelled.
pub open spec fn spelled_operands(a: Seq<Operand>) -> Seq<Seq<char>>
    decreases a,
{
    Seq::new(
        a.len(),
        |i: int| if 0 <= i < a.len() {
            spelled_operand(a[i])
        } else {
            arbitrary()
        },
    )
}

/// How each of a run of locals is spelled.
pub open spec fn spelled_local_ids(a: Seq<LocalId>) -> Seq<Seq<char>>
    decreases a,
{
    Seq::new(
        a.len(),
        |i: int| if 0 <= i < a.len() {
            spelled_local_id(a[i])
        } else {
            arbitrary()
        },
    )
}

/// How each of a run of match arms is spelled.
pub open spec fn spelled_match_arms(a: Seq<MatchArm>) -> Seq<Seq<char>>
    decreases a,
{
    Seq::new(
        a.len(),
        |i: int| if 0 <= i < a.len() {
            spelled_match_arm(a[i])
        } else {
            arbitrary()
        },
    )
}

/// How each of a run of bound arguments is spelled.
pub open spec fn spelled_bound_arguments(a: Seq<BoundArgument>) -> Seq<Seq<char>>
    decreases a,
{
    Seq::new(
        a.len(),
        |i: int| if 0 <= i < a.len() {
            spelled_bound_argument(a[i])
        } else {
            arbitrary()
        },
    )
}

/// How each of a run of slots is spelled.
pub open spec fn spelled_slots(a: Seq<usize>) -> Seq<Seq<char>>
    decreases a,
{
    Seq::new(
        a.len(),
        |i: int| if 0 <= i < a.len() {
            decimal(a[i] as nat)
        } else {
            arbitrary()
        },
    )
}

/// How each of a run of race arms is spelled.
pub open spec fn spelled_race_arms(a: Seq<RaceArm>) -> Seq<Seq<char>>
    decreases a,
{
    Seq::new(
        a.len(),
        |i: int| if 0 <= i < a.len() {
            spelled_race_arm(a[i])
        } else {
            arbitrary()
        },
    )
}

/// How each of a run of declared locals is spelled.
pub open spec fn spelled_local_decls(a: Seq<LocalDecl>) -> Seq<Seq<char>>
    decreases a,
{
    Seq::new(
        a.len(),
        |i: int| if 0 <= i < a.len() {
            spelled_local_decl(a[i])
        } else {
            arbitrary()
        },
    )
}

/// How each of a run of types is spelled.
pub open spec fn spelled_types(a: Seq<IncanType>) -> Seq<Seq<char>>
    decreases a,
{
    Seq::new(
        a.len(),
        |i: int| if 0 <= i < a.len() {
            spelled_type(a[i])
        } else {
            arbitrary()
        },
    )
}

/// How each of a run of requirements is spelled.
pub open spec fn spelled_requirements(a: Seq<AbiV0RuntimeRequirement>) -> Seq<Seq<char>>
    decreases a,
{
    Seq::new(
        a.len(),
        |i: int| if 0 <= i < a.len() {
            spelled_requirement(a[i])
        } else {
            arbitrary()
        },
    )
}

/// How an optional place is spelled.
pub open spec fn spelled_optional_place(a: Option<Place>) -> Seq<char>
    decreases a,
{
    match a {
        Some(x) => "Some("@ + spelled_place(x) + ")"@,
        None => "None"@,
    }
}

/// How an optional text is spelled.
pub open spec fn spelled_optional_string(a: Option<String>) -> Seq<char>
    decreases a,
{
    match a {
        Some(x) => "Some("@ + debug_quoted(x@) + ")"@,
        None => "None"@,
    }
}

/// How an optional block is spelled.
pub open spec fn spelled_optional_block(a: Option<Block>) -> Seq<char>
    decreases a,
{
    match a {
        Some(x) => "Some("@ + spelled_block(x) + ")"@,
        None => "None"@,
    }
}

/// How an optional operand is spelled.
pub open spec fn spelled_optional_operand(a: Option<Operand>) -> Seq<char>
    decreases a,
{
    match a {
        Some(x) => "Some("@ + spelled_operand(x) + ")"@,
        None => "None"@,
    }
}

/// How an optional collection type is spelled.
pub open spec fn spelled_optional_collection_type_id(a: Option<CollectionTypeId>) -> Seq<char>
    decreases a,
{
    match a {
        Some(x) => "Some("@ + spelled_collection_type_id(x) + ")"@,
        None => "None"@,
    }
}

// ---------------------------------------------------------------------------
// Spelling
// ---------------------------------------------------------------------------

/// Spells a parameter.
fn spell_callable_param(a: &CallableParam) -> (text: String)
    ensures
        text@ == spelled_callable_param(*a),
    decreases a,
{
    "CallableParam { name: ".to_owned().concat(debug_text(a.name.as_str()).as_str()).concat(", local: ")
        .concat(spell_local_id(&a.local).as_str()).concat(", default: ")
        .concat(spell_callable_param_default(&a.default).as_str()).concat(", span: ")
        .concat(spell_span(&a.span).as_str()).concat(" }")
}

/// Spells a local.
pub fn spell_local_id(a: &LocalId) -> (text: String)
    ensures
        text@ == spelled_local_id(*a),
    decreases a,
{
    "LocalId(".to_owned().concat(natural_text(a.0 as u64).as_str()).concat(")")
}

/// Spells a default.
fn spell_callable_param_default(a: &CallableParamDefault) -> (text: String)
    ensures
        text@ == spelled_callable_param_default(*a),
    decreases a,
{
    match a {
        CallableParamDefault::Required => "Required".to_owned(),
        CallableParamDefault::Source(x) =>
            "Source(".to_owned().concat(spell_default_computation(x).as_str()).concat(")"),
        CallableParamDefault::PartialPreset { capture } =>
            "PartialPreset { capture: ".to_owned().concat(spell_local_id(capture).as_str()).concat(" }"),
        CallableParamDefault::Unsupported { span, description } =>
            "Unsupported { span: ".to_owned().concat(spell_span(span).as_str()).concat(", description: ")
                .concat(debug_text(description.as_str()).as_str()).concat(" }"),
    }
}

/// Spells a default computation.
fn spell_default_computation(a: &DefaultComputation) -> (text: String)
    ensures
        text@ == spelled_default_computation(*a),
    decreases a,
{
    "DefaultComputation { stmts: ".to_owned().concat(spell_statements(&a.stmts).as_str()).concat(", result: ")
        .concat(spell_operand(&a.result).as_str()).concat(", span: ").concat(spell_span(&a.span).as_str())
        .concat(" }")
}

/// Spells a statement.
fn spell_statement(a: &Statement) -> (text: String)
    ensures
        text@ == spelled_statement(*a),
    decreases a,
{
    "Statement { kind: ".to_owned().concat(spell_statement_kind(&a.kind).as_str()).concat(", span: ")
        .concat(spell_span(&a.span).as_str()).concat(" }")
}

/// Spells a kind of statement.
fn spell_statement_kind(a: &StatementKind) -> (text: String)
    ensures
        text@ == spelled_statement_kind(*a),
    decreases a,
{
    match a {
        StatementKind::Assign { place, rvalue } =>
            "Assign { place: ".to_owned().concat(spell_place(place).as_str()).concat(", rvalue: ")
                .concat(spell_rvalue(rvalue).as_str()).concat(" }"),
        StatementKind::Call { destination, callee, args, may_panic } =>
            "Call { destination: ".to_owned().concat(spell_optional_place(destination).as_str()).concat(", callee: ")
                .concat(spell_callee(callee).as_str()).concat(", args: ")
                .concat(spell_argument_elements(args).as_str()).concat(", may_panic: ")
                .concat(bool_text(*may_panic).as_str()).concat(" }"),
        StatementKind::Drop { local } =>
            "Drop { local: ".to_owned().concat(spell_local_id(local).as_str()).concat(" }"),
        StatementKind::If { cond, then_block, else_block } =>
            "If { cond: ".to_owned().concat(spell_operand(cond).as_str()).concat(", then_block: ")
                .concat(spell_block(then_block).as_str()).concat(", else_block: ")
                .concat(spell_optional_block(else_block).as_str()).concat(" }"),
        StatementKind::Loop { body } => "Loop { body: ".to_owned().concat(spell_block(body).as_str()).concat(" }"),
        StatementKind::Break { value } =>
            "Break { value: ".to_owned().concat(spell_optional_operand(value).as_str()).concat(" }"),
        StatementKind::Continue => "Continue".to_owned(),
        StatementKind::Return { value } =>
            "Return { value: ".to_owned().concat(spell_optional_operand(value).as_str()).concat(" }"),
        StatementKind::Assert { cond, message, may_panic } =>
            "Assert { cond: ".to_owned().concat(spell_operand(cond).as_str()).concat(", message: ")
                .concat(spell_optional_operand(message).as_str()).concat(", may_panic: ")
                .concat(bool_text(*may_panic).as_str()).concat(" }"),
        StatementKind::Expr { value } =>
            "Expr { value: ".to_owned().concat(spell_operand(value).as_str()).concat(" }"),
        StatementKind::IterNext { destination, iterator, protocol } =>
            "IterNext { destination: ".to_owned().concat(spell_place(destination).as_str()).concat(", iterator: ")
                .concat(spell_operand(iterator).as_str()).concat(", protocol: ")
                .concat(spell_iter_protocol(protocol).as_str()).concat(" }"),
        StatementKind::Yield { value } =>
            "Yield { value: ".to_owned().concat(spell_operand(value).as_str()).concat(" }"),
        StatementKind::Await { value } =>
            "Await { value: ".to_owned().concat(spell_operand(value).as_str()).concat(" }"),
        StatementKind::Race { arms } =>
            "Race { arms: ".to_owned().concat(spell_race_arms(arms).as_str()).concat(" }"),
        StatementKind::TryPropagate { value } =>
            "TryPropagate { value: ".to_owned().concat(spell_operand(value).as_str()).concat(" }"),
        StatementKind::Unsupported { description } =>
            "Unsupported { description: ".to_owned().concat(debug_text(description.as_str()).as_str()).concat(" }"),
    }
}

/// Spells a place.
fn spell_place(a: &Place) -> (text: String)
    ensures
        text@ == spelled_place(*a),
    decreases a,
{
    "Place { local: ".to_owned().concat(spell_local_id(&a.local).as_str()).concat(", projection: ")
        .concat(spell_place_elems(&a.projection).as_str()).concat(" }")
}

/// Spells a step of a place.
fn spell_place_elem(a: &PlaceElem) -> (text: String)
    ensures
        text@ == spelled_place_elem(*a),
    decreases a,
{
    match a {
        PlaceElem::Field(x) => "Field(".to_owned().concat(debug_text(x.as_str()).as_str()).concat(")"),
        PlaceElem::Index(x) => "Index(".to_owned().concat(spell_operand(x).as_str()).concat(")"),
        PlaceElem::Slice => "Slice".to_owned(),
    }
}

/// Spells an operand.
fn spell_operand(a: &Operand) -> (text: String)
    ensures
        text@ == spelled_operand(*a),
    decreases a,
{
    match a {
        Operand::Constant(x) => "Constant(".to_owned().concat(spell_constant(x).as_str()).concat(")"),
        Operand::Place(x) => "Place(".to_owned().concat(spell_place_operand(x).as_str()).concat(")"),
    }
}

/// Spells a constant.
fn spell_constant(a: &Constant) -> (text: String)
    ensures
        text@ == spelled_constant(*a),
    decreases a,
{
    match a {
        Constant::Int(x) => "Int(".to_owned().concat(integer_text(*x).as_str()).concat(")"),
        Constant::Bool(x) => "Bool(".to_owned().concat(bool_text(*x).as_str()).concat(")"),
        Constant::Str(x) => "Str(".to_owned().concat(debug_text(x.as_str()).as_str()).concat(")"),
        Constant::Float(x) => "Float(".to_owned().concat(debug_text(x.as_str()).as_str()).concat(")"),
        Constant::Unit => "Unit".to_owned(),
        Constant::NoneLiteral => "None".to_owned(),
    }
}

/// Spells a read of a place.
fn spell_place_operand(a: &PlaceOperand) -> (text: String)
    ensures
        text@ == spelled_place_operand(*a),
    decreases a,
{
    "PlaceOperand { place: ".to_owned().concat(spell_place(&a.place).as_str()).concat(", fact: ")
        .concat(spell_ownership_fact(&a.fact).as_str()).concat(", last_use: ").concat(bool_text(a.last_use).as_str())
        .concat(" }")
}

/// Spells an ownership fact.
fn spell_ownership_fact(a: &OwnershipFact) -> (text: String)
    ensures
        text@ == spelled_ownership_fact(*a),
    decreases a,
{
    match a {
        OwnershipFact::Copy => "Copy".to_owned(),
        OwnershipFact::Move => "Move".to_owned(),
        OwnershipFact::Clone => "Clone".to_owned(),
        OwnershipFact::Borrow => "Borrow".to_owned(),
        OwnershipFact::MutBorrow => "MutBorrow".to_owned(),
        OwnershipFact::Unknown => "Unknown".to_owned(),
    }
}

/// Spells a computation.
fn spell_rvalue(a: &Rvalue) -> (text: String)
    ensures
        text@ == spelled_rvalue(*a),
    decreases a,
{
    match a {
        Rvalue::Use(x) => "Use(".to_owned().concat(spell_operand(x).as_str()).concat(")"),
        Rvalue::UnaryOp(x, y) =>
            "UnaryOp(".to_owned().concat(spell_unary_operator(x).as_str()).concat(", ")
                .concat(spell_operand(y).as_str()).concat(")"),
        Rvalue::BinaryOp(x, y, z) =>
            "BinaryOp(".to_owned().concat(spell_binary_operator(x).as_str()).concat(", ")
                .concat(spell_operand(y).as_str()).concat(", ").concat(spell_operand(z).as_str()).concat(")"),
        Rvalue::Aggregate(x, y) =>
            "Aggregate(".to_owned().concat(spell_aggregate_kind(x).as_str()).concat(", ")
                .concat(spell_argument_elements(y).as_str()).concat(")"),
        Rvalue::Format(x) => "Format(".to_owned().concat(spell_operands(x).as_str()).concat(")"),
        Rvalue::Closure { params, captured_operands, body } =>
            "Closure { params: ".to_owned().concat(spell_callable_params(params).as_str())
                .concat(", captured_operands: ").concat(spell_operands(captured_operands).as_str())
                .concat(", body: ").concat(spell_closure_body(body).as_str()).concat(" }"),
        Rvalue::Generator { source, captured_operands, body } =>
            "Generator { source: ".to_owned().concat(spell_operand(source).as_str()).concat(", captured_operands: ")
                .concat(spell_operands(captured_operands).as_str()).concat(", body: ")
                .concat(spell_generator_body(body).as_str()).concat(" }"),
        Rvalue::Match { arms } => "Match { arms: ".to_owned().concat(spell_match_arms(arms).as_str()).concat(" }"),
    }
}

/// Spells an unary operator.
fn spell_unary_operator(a: &UnOp) -> (text: String)
    ensures
        text@ == spelled_unary_operator(*a),
    decreases a,
{
    match a {
        UnOp::Neg => "Neg".to_owned(),
        UnOp::Not => "Not".to_owned(),
        UnOp::Invert => "Invert".to_owned(),
    }
}

/// Spells a binary operator.
fn spell_binary_operator(a: &BinOp) -> (text: String)
    ensures
        text@ == spelled_binary_operator(*a),
    decreases a,
{
    match a {
        BinOp::Add => "Add".to_owned(),
        BinOp::Sub => "Sub".to_owned(),
        BinOp::Mul => "Mul".to_owned(),
        BinOp::Div => "Div".to_owned(),
        BinOp::FloorDiv => "FloorDiv".to_owned(),
        BinOp::Mod => "Mod".to_owned(),
        BinOp::Eq => "Eq".to_owned(),
        BinOp::Ne => "Ne".to_owned(),
        BinOp::Lt => "Lt".to_owned(),
        BinOp::Le => "Le".to_owned(),
        BinOp::Gt => "Gt".to_owned(),
        BinOp::Ge => "Ge".to_owned(),
        BinOp::And => "And".to_owned(),
        BinOp::Or => "Or".to_owned(),
    }
}

/// Spells a kind of aggregate.
fn spell_aggregate_kind(a: &AggregateKind) -> (text: String)
    ensures
        text@ == spelled_aggregate_kind(*a),
    decreases a,
{
    match a {
        AggregateKind::Tuple => "Tuple".to_owned(),
        AggregateKind::List => "List".to_owned(),
        AggregateKind::Dict => "Dict".to_owned(),
        AggregateKind::SetLiteral => "Set".to_owned(),
        AggregateKind::Constructor(x) =>
            "Constructor(".to_owned().concat(debug_text(x.as_str()).as_str()).concat(")"),
    }
}

/// Spells an argument.
fn spell_argument_element(a: &ArgumentElement) -> (text: String)
    ensures
        text@ == spelled_argument_element(*a),
    decreases a,
{
    match a {
        ArgumentElement::One(x) => "One(".to_owned().concat(spell_operand(x).as_str()).concat(")"),
        ArgumentElement::Spread(x) => "Spread(".to_owned().concat(spell_operand(x).as_str()).concat(")"),
    }
}

/// Spells a closure body.
pub fn spell_closure_body(a: &ClosureBody) -> (text: String)
    ensures
        text@ == spelled_closure_body(*a),
    decreases a,
{
    "ClosureBody { capture_locals: ".to_owned().concat(spell_local_ids(&a.capture_locals).as_str())
        .concat(", stmts: ").concat(spell_statements(&a.stmts).as_str()).concat(", result: ")
        .concat(spell_operand(&a.result).as_str()).concat(" }")
}

/// Spells a generator body.
fn spell_generator_body(a: &GeneratorBody) -> (text: String)
    ensures
        text@ == spelled_generator_body(*a),
    decreases a,
{
    "GeneratorBody { source_local: ".to_owned().concat(spell_local_id(&a.source_local).as_str())
        .concat(", capture_locals: ").concat(spell_local_ids(&a.capture_locals).as_str()).concat(", stmts: ")
        .concat(spell_statements(&a.stmts).as_str()).concat(" }")
}

/// Spells a match arm.
fn spell_match_arm(a: &MatchArm) -> (text: String)
    ensures
        text@ == spelled_match_arm(*a),
    decreases a,
{
    "MatchArm { guard_stmts: ".to_owned().concat(spell_statements(&a.guard_stmts).as_str()).concat(", body_stmts: ")
        .concat(spell_statements(&a.body_stmts).as_str()).concat(" }")
}

/// Spells a callee.
fn spell_callee(a: &Callee) -> (text: String)
    ensures
        text@ == spelled_callee(*a),
    decreases a,
{
    match a {
        Callee::Function(x) => "Function(".to_owned().concat(spell_callable_target(x).as_str()).concat(")"),
        Callee::Method(x) => "Method(".to_owned().concat(spell_method_target(x).as_str()).concat(")"),
        Callee::Helper(x) => "Helper(".to_owned().concat(spell_helper(x).as_str()).concat(")"),
        Callee::ProviderOperation(x) =>
            "ProviderOperation(".to_owned().concat(spell_provider_operation_plan(x).as_str()).concat(")"),
    }
}

/// Spells a callable target.
fn spell_callable_target(a: &CallableTarget) -> (text: String)
    ensures
        text@ == spelled_callable_target(*a),
    decreases a,
{
    match a {
        CallableTarget::Named(x) => "Named(".to_owned().concat(spell_named_callable_target(x).as_str()).concat(")"),
        CallableTarget::Local(x) => "Local(".to_owned().concat(spell_local_callable_target(x).as_str()).concat(")"),
    }
}

/// Spells a named callable target.
fn spell_named_callable_target(a: &NamedCallableTarget) -> (text: String)
    ensures
        text@ == spelled_named_callable_target(*a),
    decreases a,
{
    "NamedCallableTarget { name: ".to_owned().concat(debug_text(a.name.as_str()).as_str()).concat(", binding: ")
        .concat(spell_argument_binding(&a.binding).as_str()).concat(", builtin: ")
        .concat(bool_text(a.builtin).as_str()).concat(", direct_call_id: ")
        .concat(spell_optional_string(&a.direct_call_id).as_str()).concat(" }")
}

/// Spells an argument binding.
fn spell_argument_binding(a: &ArgumentBinding) -> (text: String)
    ensures
        text@ == spelled_argument_binding(*a),
    decreases a,
{
    match a {
        ArgumentBinding::Resolved { arguments, defaulted_slots } =>
            "Resolved { arguments: ".to_owned().concat(spell_bound_arguments(arguments).as_str())
                .concat(", defaulted_slots: ").concat(spell_slots(defaulted_slots).as_str()).concat(" }"),
        ArgumentBinding::UnresolvedPositional => "UnresolvedPositional".to_owned(),
    }
}

/// Spells a bound argument.
fn spell_bound_argument(a: &BoundArgument) -> (text: String)
    ensures
        text@ == spelled_bound_argument(*a),
    decreases a,
{
    "BoundArgument { slot: ".to_owned().concat(natural_text(a.slot as u64).as_str()).concat(", written_position: ")
        .concat(natural_text(a.written_position as u64).as_str()).concat(" }")
}

/// Spells a local callable target.
fn spell_local_callable_target(a: &LocalCallableTarget) -> (text: String)
    ensures
        text@ == spelled_local_callable_target(*a),
    decreases a,
{
    "LocalCallableTarget { operand: ".to_owned().concat(spell_place_operand(&a.operand).as_str())
        .concat(", binding: ").concat(spell_argument_binding(&a.binding).as_str()).concat(", label: ")
        .concat(debug_text(a.label.as_str()).as_str()).concat(" }")
}

/// Spells a method target.
fn spell_method_target(a: &MethodTarget) -> (text: String)
    ensures
        text@ == spelled_method_target(*a),
    decreases a,
{
    "MethodTarget { name: ".to_owned().concat(debug_text(a.name.as_str()).as_str()).concat(", binding: ")
        .concat(spell_argument_binding(&a.binding).as_str()).concat(" }")
}

/// Spells a helper.
fn spell_helper(a: &HelperOp) -> (text: String)
    ensures
        text@ == spelled_helper(*a),
    decreases a,
{
    match a {
        HelperOp::StrConcat => "StrConcat".to_owned(),
        HelperOp::StrEq => "StrEq".to_owned(),
        HelperOp::StrNe => "StrNe".to_owned(),
        HelperOp::StrLt => "StrLt".to_owned(),
        HelperOp::StrLe => "StrLe".to_owned(),
        HelperOp::StrGt => "StrGt".to_owned(),
        HelperOp::StrGe => "StrGe".to_owned(),
        HelperOp::ListConcat => "ListConcat".to_owned(),
    }
}

/// Spells a call of a provider operation.
fn spell_provider_operation_plan(a: &ProviderOperationPlan) -> (text: String)
    ensures
        text@ == spelled_provider_operation_plan(*a),
    decreases a,
{
    "ProviderOperationPlan { operation: ".to_owned().concat(spell_provider_operation(&a.operation).as_str())
        .concat(", call_span: ").concat(spell_span(&a.call_span).as_str()).concat(" }")
}

/// Spells a provider operation.
fn spell_provider_operation(a: &ProviderOperation) -> (text: String)
    ensures
        text@ == spelled_provider_operation(*a),
    decreases a,
{
    "ProviderOperation { provider: ".to_owned().concat(debug_text(a.provider.as_str()).as_str())
        .concat(", declaration_name: ").concat(debug_text(a.declaration_name.as_str()).as_str()).concat(" }")
}

/// Spells a span.
fn spell_span(a: &HirSourceSpan) -> (text: String)
    ensures
        text@ == spelled_span(*a),
    decreases a,
{
    "HirSourceSpan { start: ".to_owned().concat(natural_text(a.start as u64).as_str()).concat(", end: ")
        .concat(natural_text(a.end as u64).as_str()).concat(" }")
}

/// Spells a block.
fn spell_block(a: &Block) -> (text: String)
    ensures
        text@ == spelled_block(*a),
    decreases a,
{
    "Block { stmts: ".to_owned().concat(spell_statements(&a.stmts).as_str()).concat(" }")
}

/// Spells an iteration protocol.
fn spell_iter_protocol(a: &IterProtocol) -> (text: String)
    ensures
        text@ == spelled_iter_protocol(*a),
    decreases a,
{
    match a {
        IterProtocol::Builtin => "Builtin".to_owned(),
        IterProtocol::Method => "Method".to_owned(),
    }
}

/// Spells a race arm.
fn spell_race_arm(a: &RaceArm) -> (text: String)
    ensures
        text@ == spelled_race_arm(*a),
    decreases a,
{
    "RaceArm { body: ".to_owned().concat(spell_block(&a.body).as_str()).concat(" }")
}

/// Spells a body.
pub fn spell_body(a: &Body) -> (text: String)
    ensures
        text@ == spelled_body(*a),
    decreases a,
{
    "Body { name: ".to_owned().concat(debug_text(a.name.as_str()).as_str()).concat(", direct_call_id: ")
        .concat(debug_text(a.direct_call_id.as_str()).as_str()).concat(", span: ")
        .concat(spell_span(&a.span).as_str()).concat(", params: ").concat(spell_callable_params(&a.params).as_str())
        .concat(", locals: ").concat(spell_local_decls(&a.locals).as_str()).concat(", block: ")
        .concat(spell_block(&a.block).as_str()).concat(", is_async: ").concat(bool_text(a.is_async).as_str())
        .concat(", yields: ").concat(bool_text(a.yields).as_str()).concat(", runtime_requirements: ")
        .concat(spell_requirements(&a.runtime_requirements).as_str()).concat(", snapshot: ")
        .concat(debug_text(a.snapshot.as_str()).as_str()).concat(" }")
}

/// Spells a declared local.
fn spell_local_decl(a: &LocalDecl) -> (text: String)
    ensures
        text@ == spelled_local_decl(*a),
    decreases a,
{
    "LocalDecl { id: ".to_owned().concat(spell_local_id(&a.id).as_str()).concat(", name: ")
        .concat(spell_optional_string(&a.name).as_str()).concat(", origin: ")
        .concat(spell_local_origin(&a.origin).as_str()).concat(", ty: ").concat(spell_type(&a.ty).as_str())
        .concat(", ty_text: ").concat(debug_text(a.ty_text.as_str()).as_str()).concat(", span: ")
        .concat(spell_span(&a.span).as_str()).concat(" }")
}

/// Spells a local origin.
fn spell_local_origin(a: &LocalOrigin) -> (text: String)
    ensures
        text@ == spelled_local_origin(*a),
    decreases a,
{
    match a {
        LocalOrigin::Parameter => "Parameter".to_owned(),
        LocalOrigin::UserBinding => "UserBinding".to_owned(),
        LocalOrigin::Temporary => "Temporary".to_owned(),
    }
}

/// Spells a type.
fn spell_type(a: &IncanType) -> (text: String)
    ensures
        text@ == spelled_type(*a),
    decreases a,
{
    match a {
        IncanType::Primitive(x) => "Primitive(".to_owned().concat(spell_primitive_type(x).as_str()).concat(")"),
        IncanType::Tuple(x) => "Tuple(".to_owned().concat(spell_types(x).as_str()).concat(")"),
        IncanType::Generic { collection, args } =>
            "Generic { collection: ".to_owned().concat(spell_optional_collection_type_id(collection).as_str())
                .concat(", args: ").concat(spell_types(args).as_str()).concat(" }"),
        IncanType::Named(x) => "Named(".to_owned().concat(debug_text(x.as_str()).as_str()).concat(")"),
    }
}

/// Spells a primitive type.
fn spell_primitive_type(a: &IncanPrimitiveType) -> (text: String)
    ensures
        text@ == spelled_primitive_type(*a),
    decreases a,
{
    match a {
        IncanPrimitiveType::Int => "Int".to_owned(),
        IncanPrimitiveType::Float => "Float".to_owned(),
        IncanPrimitiveType::Bool => "Bool".to_owned(),
        IncanPrimitiveType::Str => "Str".to_owned(),
        IncanPrimitiveType::Bytes => "Bytes".to_owned(),
        IncanPrimitiveType::Unit => "Unit".to_owned(),
    }
}

/// Spells a collection type.
fn spell_collection_type_id(a: &CollectionTypeId) -> (text: String)
    ensures
        text@ == spelled_collection_type_id(*a),
    decreases a,
{
    match a {
        CollectionTypeId::List => "List".to_owned(),
        CollectionTypeId::Dict => "Dict".to_owned(),
        CollectionTypeId::SetType => "Set".to_owned(),
        CollectionTypeId::Tuple => "Tuple".to_owned(),
        CollectionTypeId::Other => "Other".to_owned(),
    }
}

/// Spells a requirement.
fn spell_requirement(a: &AbiV0RuntimeRequirement) -> (text: String)
    ensures
        text@ == spelled_requirement(*a),
    decreases a,
{
    match a {
        AbiV0RuntimeRequirement::RuntimeHelper(x) =>
            "RuntimeHelper(".to_owned().concat(debug_text(x.as_str()).as_str()).concat(")"),
        AbiV0RuntimeRequirement::HostedStd => "HostedStd".to_owned(),
        AbiV0RuntimeRequirement::Allocator => "Allocator".to_owned(),
        AbiV0RuntimeRequirement::PanicStrategy => "PanicStrategy".to_owned(),
        AbiV0RuntimeRequirement::AsyncRuntime => "AsyncRuntime".to_owned(),
    }
}

/// Spells a run of parameters.
pub fn spell_callable_params(a: &Vec<CallableParam>) -> (text: String)
    ensures
        text@ == listed(spelled_callable_params(a@)),
    decreases a,
{
    let mut parts: Vec<String> = Vec::new();
    let mut i: usize = 0;
    while i < a.len()
        invariant
            i <= a@.len(),
            parts@.len() == i,
            forall|j: int| 0 <= j < i ==> (#[trigger] parts@[j])@ == spelled_callable_param(a@[j]),
        decreases a@.len() - i,
    {
        parts.push(spell_callable_param(&a[i]));
        i += 1;
    }
    proof {
        assert(texts(parts@) =~= spelled_callable_params(a@));
    }
    list_text(&parts)
}

/// Spells a run of statements.
pub fn spell_statements(a: &Vec<Statement>) -> (text: String)
    ensures
        text@ == listed(spelled_statements(a@)),
    decreases a,
{
    let mut parts: Vec<String> = Vec::new();
    let mut i: usize = 0;
    while i < a.len()
        invariant
            i <= a@.len(),
            parts@.len() == i,
            forall|j: int| 0 <= j < i ==> (#[trigger] parts@[j])@ == spelled_statement(a@[j]),
        decreases a@.len() - i,
    {
        parts.push(spell_statement(&a[i]));
        i += 1;
    }
    proof {
        assert(texts(parts@) =~= spelled_statements(a@));
    }
    list_text(&parts)
}

/// Spells a run of steps of places.
fn spell_place_elems(a: &Vec<PlaceElem>) -> (text: String)
    ensures
        text@ == listed(spelled_place_elems(a@)),
    decreases a,
{
    let mut parts: Vec<String> = Vec::new();
    let mut i: usize = 0;
    while i < a.len()
        invariant
            i <= a@.len(),
            parts@.len() == i,
            forall|j: int| 0 <= j < i ==> (#[trigger] parts@[j])@ == spelled_place_elem(a@[j]),
        decreases a@.len() - i,
    {
        parts.push(spell_place_elem(&a[i]));
        i += 1;
    }
    proof {
        assert(texts(parts@) =~= spelled_place_elems(a@));
    }
    list_text(&parts)
}

/// Spells a run of arguments.
fn spell_argument_elements(a: &Vec<ArgumentElement>) -> (text: String)
    ensures
        text@ == listed(spelled_argument_elements(a@)),
    decreases a,
{
    let mut parts: Vec<String> = Vec::new();
    let mut i: usize = 0;
    while i < a.len()
        invariant
            i <= a@.len(),
            parts@.len() == i,
            forall|j: int| 0 <= j < i ==> (#[trigger] parts@[j])@ == spelled_argument_element(a@[j]),
        decreases a@.len() - i,
    {
        parts.push(spell_argument_element(&a[i]));
        i += 1;
    }
    proof {
        assert(texts(parts@) =~= spelled_argument_elements(a@));
    }
    list_text(&parts)
}

/// Spells a run of operands.
fn spell_operands(a: &Vec<Operand>) -> (text: String)
    ensures
        text@ == listed(spelled_operands(a@)),
    decreases a,
{
    let mut parts: Vec<String> = Vec::new();
    let mut i: usize = 0;
    while i < a.len()
        invariant
            i <= a@.len(),
            parts@.len() == i,
            forall|j: int| 0 <= j < i ==> (#[trigger] parts@[j])@ == spelled_operand(a@[j]),
        decreases a@.len() - i,
    {
        parts.push(spell_operand(&a[i]));
        i += 1;
    }
    proof {
        assert(texts(parts@) =~= spelled_operands(a@));
    }
    list_text(&parts)
}

/// Spells a run of locals.
fn spell_local_ids(a: &Vec<LocalId>) -> (text: String)
    ensures
        text@ == listed(spelled_local_ids(a@)),
    decreases a,
{
    let mut parts: Vec<String> = Vec::new();
    let mut i: usize = 0;
    while i < a.len()
        invariant
            i <= a@.len(),
            parts@.len() == i,
            forall|j: int| 0 <= j < i ==> (#[trigger] parts@[j])@ == spelled_local_id(a@[j]),
        decreases a@.len() - i,
    {
        parts.push(spell_local_id(&a[i]));
        i += 1;
    }
    proof {
        assert(texts(parts@) =~= spelled_local_ids(a@));
    }
    list_text(&parts)
}

/// Spells a run of match arms.
fn spell_match_arms(a: &Vec<MatchArm>) -> (text: String)
    ensures
        text@ == listed(spelled_match_arms(a@)),
    decreases a,
{
    let mut parts: Vec<String> = Vec::new();
    let mut i: usize = 0;
    while i < a.len()
        invariant
            i <= a@.len(),
            parts@.len() == i,
            forall|j: int| 0 <= j < i ==> (#[trigger] parts@[j])@ == spelled_match_arm(a@[j]),
        decreases a@.len() - i,
    {
        parts.push(spell_match_arm(&a[i]));
        i += 1;
    }
    proof {
        assert(texts(parts@) =~= spelled_match_arms(a@));
    }
    list_text(&parts)
}

/// Spells a run of bound arguments.
fn spell_bound_arguments(a: &Vec<BoundArgument>) -> (text: String)
    ensures
        text@ == listed(spelled_bound_arguments(a@)),
    decreases a,
{
    let mut parts: Vec<String> = Vec::new();
    let mut i: usize = 0;
    while i < a.len()
        invariant
            i <= a@.len(),
            parts@.len() == i,
            forall|j: int| 0 <= j < i ==> (#[trigger] parts@[j])@ == spelled_bound_argument(a@[j]),
        decreases a@.len() - i,
    {
        parts.push(spell_bound_argument(&a[i]));
        i += 1;
    }
    proof {
        assert(texts(parts@) =~= spelled_bound_arguments(a@));
    }
    list_text(&parts)
}

/// Spells a run of slots.
fn spell_slots(a: &Vec<usize>) -> (text: String)
    ensures
        text@ == listed(spelled_slots(a@)),
    decreases a,
{
    let mut parts: Vec<String> = Vec::new();
    let mut i: usize = 0;
    while i < a.len()
        invariant
            i <= a@.len(),
            parts@.len() == i,
            forall|j: int| 0 <= j < i ==> (#[trigger] parts@[j])@ == decimal(a@[j] as nat),
        decreases a@.len() - i,
    {
        parts.push(natural_text(a[i] as u64));
        i += 1;
    }
    proof {
        assert(texts(parts@) =~= spelled_slots(a@));
    }
    list_text(&parts)
}

/// Spells a run of race arms.
fn spell_race_arms(a: &Vec<RaceArm>) -> (text: String)
    ensures
        text@ == listed(spelled_race_arms(a@)),
    decreases a,
{
    let mut parts: Vec<String> = Vec::new();
    let mut i: usize = 0;
    while i < a.len()
        invariant
            i <= a@.len(),
            parts@.len() == i,
            forall|j: int| 0 <= j < i ==> (#[trigger] parts@[j])@ == spelled_race_arm(a@[j]),
        decreases a@.len() - i,
    {
        parts.push(spell_race_arm(&a[i]));
        i += 1;
    }
    proof {
        assert(texts(parts@) =~= spelled_race_arms(a@));
    }
    list_text(&parts)
}

/// Spells a run of declared locals.
fn spell_local_decls(a: &Vec<LocalDecl>) -> (text: String)
    ensures
        text@ == listed(spelled_local_decls(a@)),
    decreases a,
{
    let mut parts: Vec<String> = Vec::new();
    let mut i: usize = 0;
    while i < a.len()
        invariant
            i <= a@.len(),
            parts@.len() == i,
            forall|j: int| 0 <= j < i ==> (#[trigger] parts@[j])@ == spelled_local_decl(a@[j]),
        decreases a@.len() - i,
    {
        parts.push(spell_local_decl(&a[i]));
        i += 1;
    }
    proof {
        assert(texts(parts@) =~= spelled_local_decls(a@));
    }
    list_text(&parts)
}

/// Spells a run of types.
fn spell_types(a: &Vec<IncanType>) -> (text: String)
    ensures
        text@ == listed(spelled_types(a@)),
    decreases a,
{
    let mut parts: Vec<String> = Vec::new();
    let mut i: usize = 0;
    while i < a.len()
        invariant
            i <= a@.len(),
            parts@.len() == i,
            forall|j: int| 0 <= j < i ==> (#[trigger] parts@[j])@ == spelled_type(a@[j]),
        decreases a@.len() - i,
    {
        parts.push(spell_type(&a[i]));
        i += 1;
    }
    proof {
        assert(texts(parts@) =~= spelled_types(a@));
    }
    list_text(&parts)
}

/// Spells a run of requirements.
fn spell_requirements(a: &Vec<AbiV0RuntimeRequirement>) -> (text: String)
    ensures
        text@ == listed(spelled_requirements(a@)),
    decreases a,
{
    let mut parts: Vec<String> = Vec::new();
    let mut i: usize = 0;
    while i < a.len()
        invariant
            i <= a@.len(),
            parts@.len() == i,
            forall|j: int| 0 <= j < i ==> (#[trigger] parts@[j])@ == spelled_requirement(a@[j]),
        decreases a@.len() - i,
    {
        parts.push(spell_requirement(&a[i]));
        i += 1;
    }
    proof {
        assert(texts(parts@) =~= spelled_requirements(a@));
    }
    list_text(&parts)
}

/// Spells an optional place.
fn spell_optional_place(a: &Option<Place>) -> (text: String)
    ensures
        text@ == spelled_optional_place(*a),
    decreases a,
{
    match a {
        Some(x) => "Some(".to_owned().concat(spell_place(x).as_str()).concat(")"),
        None => "None".to_owned(),
    }
}

/// Spells an optional text.
pub fn spell_optional_string(a: &Option<String>) -> (text: String)
    ensures
        text@ == spelled_optional_string(*a),
    decreases a,
{
    match a {
        Some(x) => "Some(".to_owned().concat(debug_text(x.as_str()).as_str()).concat(")"),
        None => "None".to_owned(),
    }
}

/// Spells an optional block.
fn spell_optional_block(a: &Option<Block>) -> (text: String)
    ensures
        text@ == spelled_optional_block(*a),
    decreases a,
{
    match a {
        Some(x) => "Some(".to_owned().concat(spell_block(x).as_str()).concat(")"),
        None => "None".to_owned(),
    }
}

/// Spells an optional operand.
fn spell_optional_operand(a: &Option<Operand>) -> (text: String)
    ensures
        text@ == spelled_optional_operand(*a),
    decreases a,
{
    match a {
        Some(x) => "Some(".to_owned().concat(spell_operand(x).as_str()).concat(")"),
        None => "None".to_owned(),
    }
}

/// Spells an optional collection type.
fn spell_optional_collection_type_id(a: &Option<CollectionTypeId>) -> (text: String)
    ensures
        text@ == spelled_optional_collection_type_id(*a),
    decreases a,
{
    match a {
        Some(x) => "Some(".to_owned().concat(spell_collection_type_id(x).as_str()).concat(")"),
        None => "None".to_owned(),
    }
}

} // verus!
