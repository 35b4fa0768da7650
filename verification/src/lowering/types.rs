//! Type lowering.
//!
//! Numeric results follow Python: `/` always yields a float, `%` and `//` yield a float when either side is one, and
//! `**` yields an integer only for integers with a literal exponent that is not negative.

use crate::ast::{BinaryOp, CompoundOp, Spanned, Type};
use crate::ir::{type_models, BinOp, IrType, TypeModel};
use crate::lowering::{AstLowering, Scope};
use crate::names::NameMap;
use crate::text::same_text;
use std::rc::Rc;
use vstd::prelude::*;

verus! {

broadcast use vstd::string::group_string_axioms;

/// A type that the type checker resolved.
#[derive(Debug)]
#[allow(inconsistent_fields)]
pub enum ResolvedType {
    /// `int`
    Int,
    /// `float`
    Float,
    /// `bool`
    Bool,
    /// `str`
    Str,
    /// `bytes`
    Bytes,
    /// A frozen string.
    FrozenStr,
    /// Frozen bytes.
    FrozenBytes,
    /// A frozen list.
    FrozenList(Box<ResolvedType>),
    /// A frozen set.
    FrozenSet(Box<ResolvedType>),
    /// A frozen dictionary.
    FrozenDict(Box<ResolvedType>, Box<ResolvedType>),
    /// The unit type.
    Unit,
    /// A named type.
    Named(String),
    /// A named type with arguments.
    Generic(String, Vec<ResolvedType>),
    /// A callable.
    Function(Vec<ResolvedType>, Box<ResolvedType>),
    /// A tuple.
    Tuple(Vec<ResolvedType>),
    /// A type variable.
    TypeVar(String),
    /// `Self`
    SelfType,
    /// A type that is not known.
    Unknown,
}

/// Numeric types.
#[derive(Debug, Clone, Copy, PartialEq, Eq, Structural)]
pub enum NumericTy {
    /// An integer.
    Int,
    /// A float.
    Float,
}

/// What is known of an exponent.
#[derive(Debug, Clone, Copy, PartialEq, Eq, Structural)]
pub enum PowExponentKind {
    /// An integer literal that is not negative.
    NonNegativeIntLiteral,
    /// Anything else.
    Other,
}

/// The generic types that the language knows by name.
#[derive(Debug, Clone, Copy, PartialEq, Eq, Structural)]
pub enum GenericBaseKind {
    /// Lists.
    List,
    /// Dictionaries.
    Dict,
    /// Sets.
    SetBase,
    /// Optional values.
    Option,
    /// Values or errors.
    Result,
    /// Tuples.
    Tuple,
    /// Frozen lists.
    FrozenList,
    /// Frozen sets.
    FrozenSet,
    /// Frozen dictionaries.
    FrozenDict,
    /// Any other name.
    Other,
}

/// The generic type that a name stands for.
pub open spec fn base_kind(name: Seq<char>) -> GenericBaseKind {
    if name == "List"@ || name == "list"@ {
        GenericBaseKind::List
    } else if name == "Dict"@ || name == "dict"@ || name == "HashMap"@ {
        GenericBaseKind::Dict
    } else if name == "Set"@ || name == "set"@ {
        GenericBaseKind::SetBase
    } else if name == "Option"@ || name == "option"@ {
        GenericBaseKind::Option
    } else if name == "Result"@ || name == "result"@ {
        GenericBaseKind::Result
    } else if name == "Tuple"@ || name == "tuple"@ {
        GenericBaseKind::Tuple
    } else if name == "FrozenList"@ {
        GenericBaseKind::FrozenList
    } else if name == "FrozenSet"@ {
        GenericBaseKind::FrozenSet
    } else if name == "FrozenDict"@ {
        GenericBaseKind::FrozenDict
    } else {
        GenericBaseKind::Other
    }
}

/// Classifies the name of a generic type.
fn classify_generic_base(name: &str) -> (kind: GenericBaseKind)
    ensures
        kind == base_kind(name@),
{
    if same_text(name, "List") || same_text(name, "list") {
        GenericBaseKind::List
    } else if same_text(name, "Dict") || same_text(name, "dict") || same_text(name, "HashMap") {
        GenericBaseKind::Dict
    } else if same_text(name, "Set") || same_text(name, "set") {
        GenericBaseKind::SetBase
    } else if same_text(name, "Option") || same_text(name, "option") {
        GenericBaseKind::Option
    } else if same_text(name, "Result") || same_text(name, "result") {
        GenericBaseKind::Result
    } else if same_text(name, "Tuple") || same_text(name, "tuple") {
        GenericBaseKind::Tuple
    } else if same_text(name, "FrozenList") {
        GenericBaseKind::FrozenList
    } else if same_text(name, "FrozenSet") {
        GenericBaseKind::FrozenSet
    } else if same_text(name, "FrozenDict") {
        GenericBaseKind::FrozenDict
    } else {
        GenericBaseKind::Other
    }
}

/// The type that a name gives besides the built-in ones: a known enum, else a struct.
pub open spec fn nominal(enums: Scope, name: Seq<char>) -> TypeModel {
    if enums.contains_key(name) {
        enums[name]
    } else {
        TypeModel::Struct(name)
    }
}

/// The type that a bare name stands for.
pub open spec fn simple_lowered(enums: Scope, name: Seq<char>) -> TypeModel {
    if name == "int"@ {
        TypeModel::Int
    } else if name == "float"@ {
        TypeModel::Float
    } else if name == "str"@ {
        TypeModel::String
    } else if name == "FrozenStr"@ {
        TypeModel::FrozenStr
    } else if name == "FrozenBytes"@ {
        TypeModel::FrozenBytes
    } else if name == "bool"@ {
        TypeModel::Bool
    } else if name == "None"@ || name == "Unit"@ {
        TypeModel::Unit
    } else {
        nominal(enums, name)
    }
}

/// One of the arguments of a generic type; unknown where it is not given.
pub open spec fn argument(args: Seq<TypeModel>, at: int) -> TypeModel {
    if 0 <= at < args.len() {
        args[at]
    } else {
        TypeModel::Unknown
    }
}

/// The built-in type that a generic name gives with arguments; `None` for a name that is not built in.
pub open spec fn built_in(name: Seq<char>, args: Seq<TypeModel>) -> Option<TypeModel> {
    match base_kind(name) {
        GenericBaseKind::List => Some(TypeModel::List(Box::new(argument(args, 0)))),
        GenericBaseKind::Dict => Some(TypeModel::Dict(Box::new(argument(args, 0)), Box::new(argument(args, 1)))),
        GenericBaseKind::SetBase => Some(TypeModel::SetType(Box::new(argument(args, 0)))),
        GenericBaseKind::Option => Some(TypeModel::Option(Box::new(argument(args, 0)))),
        GenericBaseKind::Result => Some(TypeModel::Result(Box::new(argument(args, 0)), Box::new(argument(args, 1)))),
        GenericBaseKind::Tuple => Some(TypeModel::Tuple(args)),
        GenericBaseKind::FrozenList | GenericBaseKind::FrozenSet | GenericBaseKind::FrozenDict => Some(
            TypeModel::NamedGeneric(name, args),
        ),
        GenericBaseKind::Other => None,
    }
}

/// The type that an annotation stands for.
pub open spec fn lowered(enums: Scope, ty: Type) -> TypeModel
    decreases ty,
{
    match ty {
        Type::Simple(name) => simple_lowered(enums, name@),
        Type::Generic(base, params) => match built_in(base@, all_lowered(enums, params@)) {
            Some(model) => model,
            None => TypeModel::NamedGeneric(base@, all_lowered(enums, params@)),
        },
        Type::Function(params, ret) => TypeModel::Function {
            params: all_lowered(enums, params@),
            ret: Box::new(lowered(enums, (*ret).node)),
        },
        Type::Unit => TypeModel::Unit,
        Type::Tuple(items) => TypeModel::Tuple(all_lowered(enums, items@)),
        Type::SelfType => TypeModel::Unknown,
    }
}

/// The types that a run of annotations stands for.
pub open spec fn all_lowered(enums: Scope, types: Seq<Spanned<Type>>) -> Seq<TypeModel>
    decreases types,
{
    Seq::new(
        types.len(),
        |i: int| if 0 <= i < types.len() {
            lowered(enums, types[i].node)
        } else {
            arbitrary()
        },
    )
}

/// The frozen counterpart of a container name.
pub open spec fn frozen_name(name: Seq<char>) -> Option<Seq<char>> {
    match base_kind(name) {
        GenericBaseKind::List => Some("FrozenList"@),
        GenericBaseKind::Dict => Some("FrozenDict"@),
        GenericBaseKind::SetBase => Some("FrozenSet"@),
        GenericBaseKind::FrozenList | GenericBaseKind::FrozenSet | GenericBaseKind::FrozenDict => Some(name),
        _ => None,
    }
}

/// The type that an annotation stands for on a constant: strings and containers are frozen.
pub open spec fn const_lowered(enums: Scope, ty: Type) -> TypeModel
    decreases ty,
{
    match ty {
        Type::Simple(name) => if name@ == "str"@ {
            TypeModel::StaticStr
        } else if name@ == "bytes"@ {
            TypeModel::StaticBytes
        } else {
            simple_lowered(enums, name@)
        },
        Type::Generic(base, params) => match frozen_name(base@) {
            Some(name) => TypeModel::NamedGeneric(name, all_const_lowered(enums, params@)),
            None => TypeModel::NamedGeneric(base@, all_lowered(enums, params@)),
        },
        _ => lowered(enums, ty),
    }
}

/// The types that a run of annotations stands for on a constant.
pub open spec fn all_const_lowered(enums: Scope, types: Seq<Spanned<Type>>) -> Seq<TypeModel>
    decreases types,
{
    Seq::new(
        types.len(),
        |i: int| if 0 <= i < types.len() {
            const_lowered(enums, types[i].node)
        } else {
            arbitrary()
        },
    )
}

/// The type that a resolved type is lowered to.
pub open spec fn resolved_lowered(ty: ResolvedType) -> TypeModel
    decreases ty,
{
    match ty {
        ResolvedType::Int => TypeModel::Int,
        ResolvedType::Float => TypeModel::Float,
        ResolvedType::Bool => TypeModel::Bool,
        ResolvedType::Str => TypeModel::String,
        ResolvedType::Bytes => TypeModel::Unknown,
        ResolvedType::FrozenStr => TypeModel::FrozenStr,
        ResolvedType::FrozenBytes => TypeModel::FrozenBytes,
        ResolvedType::FrozenList(item) => TypeModel::NamedGeneric("FrozenList"@, seq![resolved_lowered(*item)]),
        ResolvedType::FrozenSet(item) => TypeModel::NamedGeneric("FrozenSet"@, seq![resolved_lowered(*item)]),
        ResolvedType::FrozenDict(key, value) => TypeModel::NamedGeneric(
            "FrozenDict"@,
            seq![resolved_lowered(*key), resolved_lowered(*value)],
        ),
        ResolvedType::Unit => TypeModel::Unit,
        ResolvedType::Named(name) => TypeModel::Struct(name@),
        ResolvedType::Generic(name, args) => match built_in(name@, all_resolved_lowered(args@)) {
            Some(model) => model,
            None => TypeModel::Struct(name@),
        },
        ResolvedType::Function(params, ret) => TypeModel::Function {
            params: all_resolved_lowered(params@),
            ret: Box::new(resolved_lowered(*ret)),
        },
        ResolvedType::Tuple(items) => TypeModel::Tuple(all_resolved_lowered(items@)),
        ResolvedType::TypeVar(name) => TypeModel::Generic(name@),
        ResolvedType::SelfType => TypeModel::Unknown,
        ResolvedType::Unknown => TypeModel::Unknown,
    }
}

/// The types that a run of resolved types is lowered to.
pub open spec fn all_resolved_lowered(types: Seq<ResolvedType>) -> Seq<TypeModel>
    decreases types,
{
    Seq::new(
        types.len(),
        |i: int| if 0 <= i < types.len() {
            resolved_lowered(types[i])
        } else {
            arbitrary()
        },
    )
}

/// One of the arguments of a generic type; unknown where it is not given.
fn argument_type(args: &Vec<IrType>, at: usize) -> (ty: Rc<IrType>)
    ensures
        (*ty).model() == argument(type_models(args@), at as int),
{
    if at < args.len() {
        let ty: IrType = args[at].clone();
        Rc::new(ty)
    } else {
        Rc::new(IrType::Unknown)
    }
}

/// The built-in type that a generic name gives with arguments; the arguments again where there is none.
fn built_in_type(name: &String, args: Vec<IrType>) -> (ty: Result<IrType, Vec<IrType>>)
    ensures
        match ty {
            Ok(ty) => built_in(name@, type_models(args@)) == Some(ty.model()),
            Err(rest) => built_in(name@, type_models(args@)) is None && rest == args,
        },
{
    match classify_generic_base(name.as_str()) {
        GenericBaseKind::List => Ok(IrType::List(argument_type(&args, 0))),
        GenericBaseKind::Dict => Ok(IrType::Dict(argument_type(&args, 0), argument_type(&args, 1))),
        GenericBaseKind::SetBase => Ok(IrType::SetType(argument_type(&args, 0))),
        GenericBaseKind::Option => Ok(IrType::Option(argument_type(&args, 0))),
        GenericBaseKind::Result => Ok(IrType::Result(argument_type(&args, 0), argument_type(&args, 1))),
        GenericBaseKind::Tuple => Ok(IrType::Tuple(Rc::new(args))),
        GenericBaseKind::FrozenList | GenericBaseKind::FrozenSet | GenericBaseKind::FrozenDict => Ok(
            IrType::NamedGeneric(name.clone(), Rc::new(args)),
        ),
        GenericBaseKind::Other => Err(args),
    }
}

/// What the entries of a table of types are.
pub open spec fn scope_model(entries: Map<Seq<char>, IrType>) -> Scope {
    entries.map_values(|ty: IrType| ty.model())
}

/// The type that a name gives besides the built-in ones.
fn nominal_type(enums: &NameMap<IrType>, name: &String) -> (ty: IrType)
    ensures
        ty.model() == nominal(scope_model(enums@), name@),
{
    match enums.get(name.as_str()) {
        Some(ty) => ty.clone(),
        None => IrType::Struct(name.clone()),
    }
}

/// The type that a bare name stands for.
fn simple_type(enums: &NameMap<IrType>, name: &String) -> (ty: IrType)
    ensures
        ty.model() == simple_lowered(scope_model(enums@), name@),
{
    let text: &str = name.as_str();
    if same_text(text, "int") {
        IrType::Int
    } else if same_text(text, "float") {
        IrType::Float
    } else if same_text(text, "str") {
        IrType::String
    } else if same_text(text, "FrozenStr") {
        IrType::FrozenStr
    } else if same_text(text, "FrozenBytes") {
        IrType::FrozenBytes
    } else if same_text(text, "bool") {
        IrType::Bool
    } else if same_text(text, "None") || same_text(text, "Unit") {
        IrType::Unit
    } else {
        nominal_type(enums, name)
    }
}

/// The result type of an operator on numbers.
pub open spec fn numeric_result(
    op: BinaryOp,
    left: NumericTy,
    right: NumericTy,
    exponent: Option<PowExponentKind>,
) -> NumericTy {
    match op {
        BinaryOp::Div => NumericTy::Float,
        BinaryOp::Pow => if left is Int && right is Int && exponent == Some(PowExponentKind::NonNegativeIntLiteral) {
            NumericTy::Int
        } else {
            NumericTy::Float
        },
        _ => if left is Float || right is Float {
            NumericTy::Float
        } else {
            NumericTy::Int
        },
    }
}

/// The numeric type that a type is.
pub open spec fn numeric(ty: IrType) -> Option<NumericTy> {
    match ty {
        IrType::Int => Some(NumericTy::Int),
        IrType::Float => Some(NumericTy::Float),
        _ => None,
    }
}

/// Whether an operator compares or combines truth values, so that its result is a flag.
pub open spec fn yields_flag(op: BinaryOp) -> bool {
    match op {
        BinaryOp::Add | BinaryOp::Sub | BinaryOp::Mul | BinaryOp::Div | BinaryOp::FloorDiv | BinaryOp::Mod
        | BinaryOp::Pow => false,
        _ => true,
    }
}

/// The result type of a binary operation.
pub open spec fn binary_result(
    left: IrType,
    right: IrType,
    op: BinaryOp,
    exponent: Option<PowExponentKind>,
) -> IrType {
    if yields_flag(op) {
        IrType::Bool
    } else {
        match (numeric(left), numeric(right)) {
            (Some(l), Some(r)) => match numeric_result(op, l, r, exponent) {
                NumericTy::Int => IrType::Int,
                NumericTy::Float => IrType::Float,
            },
            _ => left,
        }
    }
}

/// The numeric type that a type is.
fn numeric_of(ty: &IrType) -> (number: Option<NumericTy>)
    ensures
        number == numeric(*ty),
{
    match ty {
        IrType::Int => Some(NumericTy::Int),
        IrType::Float => Some(NumericTy::Float),
        _ => None,
    }
}

/// The innermost type of a variable; unknown where no scope has it.
pub open spec fn looked_up(scopes: Seq<Scope>, name: Seq<char>) -> TypeModel
    decreases scopes.len(),
{
    if scopes.len() == 0 {
        TypeModel::Unknown
    } else if scopes.last().contains_key(name) {
        scopes.last()[name]
    } else {
        looked_up(scopes.drop_last(), name)
    }
}

/// The operator that a binary operator is lowered to. Membership and identity tests become equality tests.
pub open spec fn operator_lowered(op: BinaryOp) -> BinOp {
    match op {
        BinaryOp::Add => BinOp::Add,
        BinaryOp::Sub => BinOp::Sub,
        BinaryOp::Mul => BinOp::Mul,
        BinaryOp::Div => BinOp::Div,
        BinaryOp::FloorDiv => BinOp::FloorDiv,
        BinaryOp::Mod => BinOp::Mod,
        BinaryOp::Pow => BinOp::Pow,
        BinaryOp::Eq => BinOp::Eq,
        BinaryOp::NotEq => BinOp::Ne,
        BinaryOp::Lt => BinOp::Lt,
        BinaryOp::LtEq => BinOp::Le,
        BinaryOp::Gt => BinOp::Gt,
        BinaryOp::GtEq => BinOp::Ge,
        BinaryOp::And => BinOp::And,
        BinaryOp::Or => BinOp::Or,
        BinaryOp::In | BinaryOp::NotIn | BinaryOp::Is => BinOp::Eq,
    }
}

/// The operator that a compound assignment applies.
pub open spec fn compound_lowered(op: CompoundOp) -> BinOp {
    match op {
        CompoundOp::Add => BinOp::Add,
        CompoundOp::Sub => BinOp::Sub,
        CompoundOp::Mul => BinOp::Mul,
        CompoundOp::Div => BinOp::Div,
        CompoundOp::FloorDiv => BinOp::FloorDiv,
        CompoundOp::Mod => BinOp::Mod,
    }
}

impl AstLowering {
    /// Lowers an annotation on a constant, where strings and containers are frozen.
    pub fn lower_const_annotation_type(&self, ty: &Type) -> (result: IrType)
        ensures
            result.model() == const_lowered(self.model().enums, *ty),
        decreases ty,
    {
        match ty {
            Type::Simple(name) => if same_text(name.as_str(), "str") {
                IrType::StaticStr
            } else if same_text(name.as_str(), "bytes") {
                IrType::StaticBytes
            } else {
                simple_type(&self.enum_names, name)
            },
            Type::Generic(base, params) => match classify_generic_base(base.as_str()) {
                GenericBaseKind::List => IrType::NamedGeneric(
                    "FrozenList".to_owned(),
                    Rc::new(self.lower_const_annotation_types(params)),
                ),
                GenericBaseKind::Dict => IrType::NamedGeneric(
                    "FrozenDict".to_owned(),
                    Rc::new(self.lower_const_annotation_types(params)),
                ),
                GenericBaseKind::SetBase => IrType::NamedGeneric(
                    "FrozenSet".to_owned(),
                    Rc::new(self.lower_const_annotation_types(params)),
                ),
                GenericBaseKind::FrozenList | GenericBaseKind::FrozenSet | GenericBaseKind::FrozenDict =>
                IrType::NamedGeneric(base.clone(), Rc::new(self.lower_const_annotation_types(params))),
                _ => IrType::NamedGeneric(base.clone(), Rc::new(self.lower_types(params))),
            },
            _ => self.lower_type(ty),
        }
    }

    /// Lowers a run of annotations on a constant.
    fn lower_const_annotation_types(&self, types: &Vec<Spanned<Type>>) -> (result: Vec<IrType>)
        ensures
            type_models(result@) == all_const_lowered(self.model().enums, types@),
        decreases types,
    {
        let mut result: Vec<IrType> = Vec::new();
        let mut i: usize = 0;
        while i < types.len()
            invariant
                i <= types@.len(),
                result@.len() == i,
                forall|j: int|
                    0 <= j < i ==> (#[trigger] result@[j]).model() == const_lowered(
                        self.model().enums,
                        types@[j].node,
                    ),
            decreases types@.len() - i,
        {
            result.push(self.lower_const_annotation_type(&types[i].node));
            i += 1;
        }
        proof {
            assert(type_models(result@) =~= all_const_lowered(self.model().enums, types@));
        }
        result
    }

    /// Lowers a type that the type checker resolved.
    pub fn lower_resolved_type(&self, ty: &ResolvedType) -> (result: IrType)
        ensures
            result.model() == resolved_lowered(*ty),
        decreases ty,
    {
        match ty {
            ResolvedType::Int => IrType::Int,
            ResolvedType::Float => IrType::Float,
            ResolvedType::Bool => IrType::Bool,
            ResolvedType::Str => IrType::String,
            ResolvedType::Bytes => IrType::Unknown,
            ResolvedType::FrozenStr => IrType::FrozenStr,
            ResolvedType::FrozenBytes => IrType::FrozenBytes,
            ResolvedType::FrozenList(item) => {
                let args: Vec<IrType> = vec![self.lower_resolved_type(item)];
                proof {
                    assert(type_models(args@) =~= seq![resolved_lowered(**item)]);
                }
                IrType::NamedGeneric("FrozenList".to_owned(), Rc::new(args))
            },
            ResolvedType::FrozenSet(item) => {
                let args: Vec<IrType> = vec![self.lower_resolved_type(item)];
                proof {
                    assert(type_models(args@) =~= seq![resolved_lowered(**item)]);
                }
                IrType::NamedGeneric("FrozenSet".to_owned(), Rc::new(args))
            },
            ResolvedType::FrozenDict(key, value) => {
                let args: Vec<IrType> = vec![self.lower_resolved_type(key), self.lower_resolved_type(value)];
                proof {
                    assert(type_models(args@) =~= seq![resolved_lowered(**key), resolved_lowered(**value)]);
                }
                IrType::NamedGeneric("FrozenDict".to_owned(), Rc::new(args))
            },
            ResolvedType::Unit => IrType::Unit,
            ResolvedType::Named(name) => IrType::Struct(name.clone()),
            ResolvedType::Generic(name, args) => match built_in_type(name, self.lower_resolved_types(args)) {
                Ok(result) => result,
                Err(_) => IrType::Struct(name.clone()),
            },
            ResolvedType::Function(params, ret) => IrType::Function {
                params: Rc::new(self.lower_resolved_types(params)),
                ret: Rc::new(self.lower_resolved_type(ret)),
            },
            ResolvedType::Tuple(items) => IrType::Tuple(Rc::new(self.lower_resolved_types(items))),
            ResolvedType::TypeVar(name) => IrType::Generic(name.clone()),
            ResolvedType::SelfType => IrType::Unknown,
            ResolvedType::Unknown => IrType::Unknown,
        }
    }

    /// Lowers a run of resolved types.
    fn lower_resolved_types(&self, types: &Vec<ResolvedType>) -> (result: Vec<IrType>)
        ensures
            type_models(result@) == all_resolved_lowered(types@),
        decreases types,
    {
        let mut result: Vec<IrType> = Vec::new();
        let mut i: usize = 0;
        while i < types.len()
            invariant
                i <= types@.len(),
                result@.len() == i,
                forall|j: int| 0 <= j < i ==> (#[trigger] result@[j]).model() == resolved_lowered(types@[j]),
            decreases types@.len() - i,
        {
            result.push(self.lower_resolved_type(&types[i]));
            i += 1;
        }
        proof {
            assert(type_models(result@) =~= all_resolved_lowered(types@));
        }
        result
    }

    /// Lowers an annotation.
    pub fn lower_type(&self, ty: &Type) -> (result: IrType)
        ensures
            result.model() == lowered(self.model().enums, *ty),
        decreases ty,
    {
        match ty {
            Type::Simple(name) => simple_type(&self.enum_names, name),
            Type::Generic(base, params) => match built_in_type(base, self.lower_types(params)) {
                Ok(result) => result,
                Err(args) => IrType::NamedGeneric(base.clone(), Rc::new(args)),
            },
            Type::Function(params, ret) => IrType::Function {
                params: Rc::new(self.lower_types(params)),
                ret: Rc::new(self.lower_type(&ret.node)),
            },
            Type::Unit => IrType::Unit,
            Type::Tuple(items) => IrType::Tuple(Rc::new(self.lower_types(items))),
            Type::SelfType => IrType::Unknown,
        }
    }

    /// Lowers a run of annotations.
    fn lower_types(&self, types: &Vec<Spanned<Type>>) -> (result: Vec<IrType>)
        ensures
            type_models(result@) == all_lowered(self.model().enums, types@),
        decreases types,
    {
        let mut result: Vec<IrType> = Vec::new();
        let mut i: usize = 0;
        while i < types.len()
            invariant
                i <= types@.len(),
                result@.len() == i,
                forall|j: int|
                    0 <= j < i ==> (#[trigger] result@[j]).model() == lowered(self.model().enums, types@[j].node),
            decreases types@.len() - i,
        {
            result.push(self.lower_type(&types[i].node));
            i += 1;
        }
        proof {
            assert(type_models(result@) =~= all_lowered(self.model().enums, types@));
        }
        result
    }

    /// Lowers a binary operator.
    pub fn lower_binop(&self, op: &BinaryOp) -> (result: BinOp)
        ensures
            result == operator_lowered(*op),
    {
        match op {
            BinaryOp::Add => BinOp::Add,
            BinaryOp::Sub => BinOp::Sub,
            BinaryOp::Mul => BinOp::Mul,
            BinaryOp::Div => BinOp::Div,
            BinaryOp::FloorDiv => BinOp::FloorDiv,
            BinaryOp::Mod => BinOp::Mod,
            BinaryOp::Pow => BinOp::Pow,
            BinaryOp::Eq => BinOp::Eq,
            BinaryOp::NotEq => BinOp::Ne,
            BinaryOp::Lt => BinOp::Lt,
            BinaryOp::LtEq => BinOp::Le,
            BinaryOp::Gt => BinOp::Gt,
            BinaryOp::GtEq => BinOp::Ge,
            BinaryOp::And => BinOp::And,
            BinaryOp::Or => BinOp::Or,
            BinaryOp::In | BinaryOp::NotIn | BinaryOp::Is => BinOp::Eq,
        }
    }

    /// Lowers the operator of a compound assignment.
    pub fn lower_compound_op(&self, op: &CompoundOp) -> (result: BinOp)
        ensures
            result == compound_lowered(*op),
    {
        match op {
            CompoundOp::Add => BinOp::Add,
            CompoundOp::Sub => BinOp::Sub,
            CompoundOp::Mul => BinOp::Mul,
            CompoundOp::Div => BinOp::Div,
            CompoundOp::FloorDiv => BinOp::FloorDiv,
            CompoundOp::Mod => BinOp::Mod,
        }
    }

    /// Determines the result type of a binary operation.
    pub fn binary_result_type(
        &self,
        left: &IrType,
        right: &IrType,
        op: &BinaryOp,
        pow_exp_kind: Option<PowExponentKind>,
    ) -> (result: IrType)
        ensures
            result == binary_result(*left, *right, *op, pow_exp_kind),
    {
        match op {
            BinaryOp::Add | BinaryOp::Sub | BinaryOp::Mul | BinaryOp::Div | BinaryOp::FloorDiv | BinaryOp::Mod
            | BinaryOp::Pow => {},
            _ => {
                return IrType::Bool;
            },
        }
        match (numeric_of(left), numeric_of(right)) {
            (Some(l), Some(r)) => {
                let whole: bool = match op {
                    BinaryOp::Div => false,
                    BinaryOp::Pow => l == NumericTy::Int && r == NumericTy::Int && match pow_exp_kind {
                        Some(PowExponentKind::NonNegativeIntLiteral) => true,
                        _ => false,
                    },
                    _ => l == NumericTy::Int && r == NumericTy::Int,
                };
                if whole {
                    IrType::Int
                } else {
                    IrType::Float
                }
            },
            _ => left.clone(),
        }
    }

    /// Looks a variable's type up, from the innermost scope outwards.
    pub fn lookup_var(&self, name: &str) -> (ty: IrType)
        ensures
            ty.model() == looked_up(self.model().scopes, name@),
    {
        let mut i: usize = self.scopes.len();
        let ghost scopes = self.model().scopes;
        proof {
            assert(scopes.take(i as int) =~= scopes);
        }
        while i > 0
            invariant
                i <= self.scopes@.len(),
                scopes == self.model().scopes,
                looked_up(scopes, name@) == looked_up(scopes.take(i as int), name@),
            decreases i,
        {
            proof {
                assert(scopes.take(i as int).drop_last() =~= scopes.take(i - 1));
                assert(scopes.take(i as int).last() == scope_model(self.scopes@[i - 1]@));
            }
            i -= 1;
            match self.scopes[i].get(name) {
                Some(ty) => {
                    return ty.clone();
                },
                None => {},
            }
        }
        IrType::Unknown
    }
}

} // verus!
