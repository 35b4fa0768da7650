//! What holds of lowered types and operators.

use crate::ast::{BinaryOp, CompoundOp, Spanned, Type};
use crate::ir::{BinOp, IrType, TypeModel};
use crate::lowering::types::{
    all_lowered, all_resolved_lowered, binary_result, compound_lowered, const_lowered, looked_up, lowered,
    operator_lowered, resolved_lowered, PowExponentKind, ResolvedType,
};
use crate::lowering::{bound, Scope};
use vstd::prelude::*;

verus! {

// ---------------------------------------------------------------------------
// Operators
// ---------------------------------------------------------------------------

/// What an operator makes of two operands.
pub ghost enum Outcome {
    /// A number.
    Number(int),
    /// The exact quotient of two numbers.
    Quotient(int, int),
    /// The largest number whose product with the second operand does not pass the first.
    Floored(int, int),
    /// What remains of such a division.
    Rest(int, int),
    /// A power.
    Power(int, int),
    /// A flag.
    Flag(bool),
}

/// What an operator of the source means on two numbers; numbers other than zero are true. Membership and identity are
/// compared like equality.
pub open spec fn source_meaning(op: BinaryOp, a: int, b: int) -> Outcome {
    match op {
        BinaryOp::Add => Outcome::Number(a + b),
        BinaryOp::Sub => Outcome::Number(a - b),
        BinaryOp::Mul => Outcome::Number(a * b),
        BinaryOp::Div => Outcome::Quotient(a, b),
        BinaryOp::FloorDiv => Outcome::Floored(a, b),
        BinaryOp::Mod => Outcome::Rest(a, b),
        BinaryOp::Pow => Outcome::Power(a, b),
        BinaryOp::Eq | BinaryOp::In | BinaryOp::NotIn | BinaryOp::Is => Outcome::Flag(a == b),
        BinaryOp::NotEq => Outcome::Flag(a != b),
        BinaryOp::Lt => Outcome::Flag(a < b),
        BinaryOp::LtEq => Outcome::Flag(a <= b),
        BinaryOp::Gt => Outcome::Flag(a > b),
        BinaryOp::GtEq => Outcome::Flag(a >= b),
        BinaryOp::And => Outcome::Flag(a != 0 && b != 0),
        BinaryOp::Or => Outcome::Flag(a != 0 || b != 0),
    }
}

/// What a compound assignment makes of a variable's value and its operand.
pub open spec fn compound_meaning(op: CompoundOp, a: int, b: int) -> Outcome {
    match op {
        CompoundOp::Add => Outcome::Number(a + b),
        CompoundOp::Sub => Outcome::Number(a - b),
        CompoundOp::Mul => Outcome::Number(a * b),
        CompoundOp::Div => Outcome::Quotient(a, b),
        CompoundOp::FloorDiv => Outcome::Floored(a, b),
        CompoundOp::Mod => Outcome::Rest(a, b),
    }
}

/// What a lowered operator means on two numbers.
pub open spec fn lowered_meaning(op: BinOp, a: int, b: int) -> Outcome {
    match op {
        BinOp::Add => Outcome::Number(a + b),
        BinOp::Sub => Outcome::Number(a - b),
        BinOp::Mul => Outcome::Number(a * b),
        BinOp::Div => Outcome::Quotient(a, b),
        BinOp::FloorDiv => Outcome::Floored(a, b),
        BinOp::Mod => Outcome::Rest(a, b),
        BinOp::Pow => Outcome::Power(a, b),
        BinOp::Eq => Outcome::Flag(a == b),
        BinOp::Ne => Outcome::Flag(a != b),
        BinOp::Lt => Outcome::Flag(a < b),
        BinOp::Le => Outcome::Flag(a <= b),
        BinOp::Gt => Outcome::Flag(a > b),
        BinOp::Ge => Outcome::Flag(a >= b),
        BinOp::And => Outcome::Flag(a != 0 && b != 0),
        BinOp::Or => Outcome::Flag(a != 0 || b != 0),
    }
}

/// Lowering an operator keeps what it means, also where it stands in a compound assignment.
pub proof fn law_operators_keep_their_meaning(op: BinaryOp, compound: CompoundOp, a: int, b: int)
    ensures
        lowered_meaning(operator_lowered(op), a, b) == source_meaning(op, a, b),
        lowered_meaning(compound_lowered(compound), a, b) == compound_meaning(compound, a, b),
{
}

/// The type of a result fits what the operator makes: comparisons and connectives give flags, an exact quotient is a
/// float, and other arithmetic on integers stays with integers unless a float takes part. Only a power of integers
/// depends on its exponent.
pub proof fn law_results_fit_their_operators(
    left: IrType,
    right: IrType,
    op: BinaryOp,
    exponent: Option<PowExponentKind>,
    a: int,
    b: int,
)
    ensures
        source_meaning(op, a, b) is Flag ==> binary_result(left, right, op, exponent) is Bool,
        (left is Int || left is Float) && (right is Int || right is Float) ==> (match source_meaning(op, a, b) {
            Outcome::Flag(_) => true,
            Outcome::Quotient(..) => binary_result(left, right, op, exponent) is Float,
            Outcome::Power(..) => binary_result(left, right, op, exponent) == (if left is Int && right is Int
                && exponent == Some(PowExponentKind::NonNegativeIntLiteral) {
                IrType::Int
            } else {
                IrType::Float
            }),
            _ => binary_result(left, right, op, exponent) == (if left is Int && right is Int {
                IrType::Int
            } else {
                IrType::Float
            }),
        }),
        !(source_meaning(op, a, b) is Flag) && !((left is Int || left is Float) && (right is Int || right is Float))
            ==> binary_result(left, right, op, exponent) == left,
{
}

// ---------------------------------------------------------------------------
// Types
// ---------------------------------------------------------------------------

/// The names of the built-in types mean these types, whatever enums are known. A known enum is itself, and any other
/// name is a struct of that name.
pub proof fn law_names_mean_their_types(enums: Scope, name: String)
    ensures
        ({
            let ty = lowered(enums, Type::Simple(name));
            &&& name@ == "int"@ ==> ty is Int
            &&& name@ == "float"@ ==> ty is Float
            &&& name@ == "str"@ ==> ty is String
            &&& name@ == "bool"@ ==> ty is Bool
            &&& name@ == "None"@ || name@ == "Unit"@ ==> ty is Unit
            &&& name@ == "FrozenStr"@ ==> ty is FrozenStr
            &&& name@ == "FrozenBytes"@ ==> ty is FrozenBytes
            &&& ({
                &&& name@ != "int"@
                &&& name@ != "float"@
                &&& name@ != "str"@
                &&& name@ != "bool"@
                &&& name@ != "None"@
                &&& name@ != "Unit"@
                &&& name@ != "FrozenStr"@
                &&& name@ != "FrozenBytes"@
            }) ==> ty == (if enums.contains_key(name@) {
                enums[name@]
            } else {
                TypeModel::Struct(name@)
            })
        }),
        ({
            let ty = const_lowered(enums, Type::Simple(name));
            &&& name@ == "str"@ ==> ty is StaticStr
            &&& name@ == "bytes"@ ==> ty is StaticBytes
            &&& name@ != "str"@ && name@ != "bytes"@ ==> ty == lowered(enums, Type::Simple(name))
        }),
{
    reveal_strlit("int");
    reveal_strlit("float");
    reveal_strlit("str");
    reveal_strlit("bool");
    reveal_strlit("None");
    reveal_strlit("Unit");
    reveal_strlit("FrozenStr");
    reveal_strlit("FrozenBytes");
    reveal_strlit("bytes");
    assert("int"@.len() == 3 && "float"@.len() == 5 && "str"@.len() == 3 && "bool"@.len() == 4);
    assert("None"@.len() == 4 && "Unit"@.len() == 4 && "FrozenStr"@.len() == 9 && "FrozenBytes"@.len() == 11);
    assert("int"@[0] != "str"@[0] && "bool"@[0] != "None"@[0] && "bool"@[0] != "Unit"@[0] && "None"@[0] != "Unit"@[0]);
    assert("float"@[0] != "bytes"@[0]);
}

/// The containers keep the types of their arguments, in order, whichever of their names is written, and take unknown
/// ones where an argument is missing.
pub proof fn law_containers_keep_their_arguments(enums: Scope, base: String, params: Vec<Spanned<Type>>)
    ensures
        ({
            let ty = lowered(enums, Type::Generic(base, params));
            let first = if params@.len() > 0 {
                lowered(enums, params@[0].node)
            } else {
                TypeModel::Unknown
            };
            let second = if params@.len() > 1 {
                lowered(enums, params@[1].node)
            } else {
                TypeModel::Unknown
            };
            let in_order = |items: Seq<TypeModel>|
                items.len() == params@.len() && forall|i: int|
                    0 <= i < params@.len() ==> #[trigger] items[i] == lowered(enums, params@[i].node);
            &&& base@ == "List"@ || base@ == "list"@ ==> ty == TypeModel::List(Box::new(first))
            &&& base@ == "Set"@ || base@ == "set"@ ==> ty == TypeModel::SetType(Box::new(first))
            &&& base@ == "Option"@ || base@ == "option"@ ==> ty == TypeModel::Option(Box::new(first))
            &&& base@ == "Dict"@ || base@ == "dict"@ || base@ == "HashMap"@ ==> ty == TypeModel::Dict(
                Box::new(first),
                Box::new(second),
            )
            &&& base@ == "Result"@ || base@ == "result"@ ==> ty == TypeModel::Result(
                Box::new(first),
                Box::new(second),
            )
            &&& base@ == "Tuple"@ || base@ == "tuple"@ ==> ty is Tuple && in_order(ty->Tuple_0)
            &&& base@ == "FrozenList"@ || base@ == "FrozenSet"@ || base@ == "FrozenDict"@ ==> ty is NamedGeneric
                && ty->NamedGeneric_0 == base@ && in_order(ty->NamedGeneric_1)
        }),
{
    generic_names_differ();
    let args = all_lowered(enums, params@);
    if params@.len() > 0 {
        assert(args[0] == lowered(enums, params@[0].node));
    }
    if params@.len() > 1 {
        assert(args[1] == lowered(enums, params@[1].node));
    }
}

proof fn generic_names_differ()
    ensures
        "List"@.len() == 4,
        "list"@.len() == 4,
        "Dict"@.len() == 4,
        "dict"@.len() == 4,
        "HashMap"@.len() == 7,
        "Set"@.len() == 3,
        "set"@.len() == 3,
        "Option"@.len() == 6,
        "option"@.len() == 6,
        "Result"@.len() == 6,
        "result"@.len() == 6,
        "Tuple"@.len() == 5,
        "tuple"@.len() == 5,
        "FrozenList"@.len() == 10,
        "FrozenSet"@.len() == 9,
        "FrozenDict"@.len() == 10,
        "List"@ != "list"@,
        "List"@ != "Dict"@,
        "List"@ != "dict"@,
        "list"@ != "Dict"@,
        "list"@ != "dict"@,
        "Dict"@ != "dict"@,
        "Set"@ != "set"@,
        "Option"@ != "option"@,
        "Option"@ != "Result"@,
        "Option"@ != "result"@,
        "option"@ != "Result"@,
        "option"@ != "result"@,
        "Result"@ != "result"@,
        "Tuple"@ != "tuple"@,
        "FrozenList"@ != "FrozenDict"@,
{
    reveal_strlit("List");
    reveal_strlit("list");
    reveal_strlit("Dict");
    reveal_strlit("dict");
    reveal_strlit("HashMap");
    reveal_strlit("Set");
    reveal_strlit("set");
    reveal_strlit("Option");
    reveal_strlit("option");
    reveal_strlit("Result");
    reveal_strlit("result");
    reveal_strlit("Tuple");
    reveal_strlit("tuple");
    reveal_strlit("FrozenList");
    reveal_strlit("FrozenSet");
    reveal_strlit("FrozenDict");
    assert("List"@[0] != "list"@[0]);
    assert("List"@[0] != "Dict"@[0]);
    assert("List"@[0] != "dict"@[0]);
    assert("list"@[0] != "Dict"@[0]);
    assert("list"@[0] != "dict"@[0]);
    assert("Dict"@[0] != "dict"@[0]);
    assert("Set"@[0] != "set"@[0]);
    assert("Option"@[0] != "option"@[0]);
    assert("Option"@[0] != "Result"@[0]);
    assert("Option"@[0] != "result"@[0]);
    assert("option"@[0] != "Result"@[0]);
    assert("option"@[0] != "result"@[0]);
    assert("Result"@[0] != "result"@[0]);
    assert("Tuple"@[0] != "tuple"@[0]);
    assert("FrozenList"@[6] != "FrozenDict"@[6]);
}

/// A resolved type is lowered as the annotation that spells it: scalars to the scalar of their name, containers with the
/// types of their arguments in order, and names to structs.
pub proof fn law_resolved_types_are_their_annotations(base: String, args: Vec<ResolvedType>)
    ensures
        resolved_lowered(ResolvedType::Int) is Int,
        resolved_lowered(ResolvedType::Float) is Float,
        resolved_lowered(ResolvedType::Bool) is Bool,
        resolved_lowered(ResolvedType::Str) is String,
        resolved_lowered(ResolvedType::Unit) is Unit,
        resolved_lowered(ResolvedType::FrozenStr) is FrozenStr,
        resolved_lowered(ResolvedType::FrozenBytes) is FrozenBytes,
        resolved_lowered(ResolvedType::Named(base)) == TypeModel::Struct(base@),
        resolved_lowered(ResolvedType::TypeVar(base)) == TypeModel::Generic(base@),
        ({
            let ty = resolved_lowered(ResolvedType::Generic(base, args));
            let first = if args@.len() > 0 {
                resolved_lowered(args@[0])
            } else {
                TypeModel::Unknown
            };
            let second = if args@.len() > 1 {
                resolved_lowered(args@[1])
            } else {
                TypeModel::Unknown
            };
            let in_order = |items: Seq<TypeModel>|
                items.len() == args@.len() && forall|i: int|
                    0 <= i < args@.len() ==> #[trigger] items[i] == resolved_lowered(args@[i]);
            &&& base@ == "List"@ || base@ == "list"@ ==> ty == TypeModel::List(Box::new(first))
            &&& base@ == "Set"@ || base@ == "set"@ ==> ty == TypeModel::SetType(Box::new(first))
            &&& base@ == "Option"@ || base@ == "option"@ ==> ty == TypeModel::Option(Box::new(first))
            &&& base@ == "Dict"@ || base@ == "dict"@ || base@ == "HashMap"@ ==> ty == TypeModel::Dict(
                Box::new(first),
                Box::new(second),
            )
            &&& base@ == "Result"@ || base@ == "result"@ ==> ty == TypeModel::Result(
                Box::new(first),
                Box::new(second),
            )
            &&& base@ == "Tuple"@ || base@ == "tuple"@ ==> ty is Tuple && in_order(ty->Tuple_0)
            &&& base@ == "FrozenList"@ || base@ == "FrozenSet"@ || base@ == "FrozenDict"@ ==> ty is NamedGeneric
                && ty->NamedGeneric_0 == base@ && in_order(ty->NamedGeneric_1)
        }),
{
    generic_names_differ();
    let items = all_resolved_lowered(args@);
    if args@.len() > 0 {
        assert(items[0] == resolved_lowered(args@[0]));
    }
    if args@.len() > 1 {
        assert(items[1] == resolved_lowered(args@[1]));
    }
}

/// On a constant the containers are frozen, under the name of what they hold: lists, dictionaries and sets each become
/// their frozen kind, whichever of their names is written, and keep their arguments in order.
pub proof fn law_constants_are_frozen(enums: Scope, base: String, params: Vec<Spanned<Type>>)
    ensures
        ({
            let ty = const_lowered(enums, Type::Generic(base, params));
            let frozen = |name: Seq<char>|
                ty is NamedGeneric && ty->NamedGeneric_0 == name && ty->NamedGeneric_1.len() == params@.len()
                    && forall|i: int|
                    0 <= i < params@.len() ==> #[trigger] ty->NamedGeneric_1[i] == const_lowered(
                        enums,
                        params@[i].node,
                    );
            &&& base@ == "List"@ || base@ == "list"@ || base@ == "FrozenList"@ ==> frozen("FrozenList"@)
            &&& base@ == "Set"@ || base@ == "set"@ || base@ == "FrozenSet"@ ==> frozen("FrozenSet"@)
            &&& base@ == "Dict"@ || base@ == "dict"@ || base@ == "HashMap"@ || base@ == "FrozenDict"@ ==> frozen(
                "FrozenDict"@,
            )
            &&& ty is NamedGeneric
        }),
{
    generic_names_differ();
}

/// A binding is what a lookup of its name finds, and no other name is found differently for it. A scope that is left
/// takes its names with it.
pub proof fn law_lookups_find_the_innermost_binding(scopes: Seq<Scope>, name: Seq<char>, other: Seq<char>, ty: TypeModel)
    requires
        scopes.len() > 0,
    ensures
        looked_up(bound(scopes, name, ty), name) == ty,
        other != name ==> looked_up(bound(scopes, name, ty), other) == looked_up(scopes, other),
        looked_up(scopes.push(Map::empty()), other) == looked_up(scopes, other),
        looked_up(Seq::<Scope>::empty(), other) is Unknown,
{
    let with = bound(scopes, name, ty);
    assert(with.drop_last() =~= scopes.drop_last());
    assert(scopes.push(Map::empty()).drop_last() =~= scopes);
}

} // verus!
