//! Class lowering, with what a class inherits.

use crate::ast::{ClassDecl, FieldAnnotation, FieldDecl, MethodDecl, PropertyDecl, Spanned, Type, Visibility};
use crate::ir::{
    field_models, label_text, ExprModel, FieldModel, IrStruct, IrStructKind, IrType, IrTypeParam, StructField,
    StructModel, TypedExpr,
};
use crate::lowering::types::lowered;
use crate::lowering::{
    answered, failure, lowering_failure, take_answer, AstLowering, ClassFieldDefaultInfo, ClassLayout,
    ClassLayoutField, ExprAnswer, Interruption, LoweringModel, PublicDefault, Scope, Stop,
};
use crate::names::NameMap;
use crate::sharing::share;
use crate::text::{begins_with, join, joined, same_text, starts_with, texts};
use std::rc::Rc;
use vstd::prelude::*;

verus! {

broadcast use vstd::string::group_string_axioms;

/// The derive that gives every class its debug rendering.
pub const DEBUG_DERIVE_NAME: &'static str = "Debug";

/// The derive that makes every class copyable by hand.
pub const CLONE_DERIVE_NAME: &'static str = "Clone";

/// The derive that reflects on the fields of a class.
pub const FIELD_INFO_DERIVE_NAME: &'static str = "FieldInfo";

/// The derive that gives a class its name and field methods.
pub const INCAN_CLASS_DERIVE_NAME: &'static str = "IncanClass";

/// What the decorators and the header of a class declaration say.
#[derive(Debug)]
pub struct ClassSurface {
    /// The derives that its decorators and adopted traits ask for.
    pub derives: Vec<String>,
    /// The Rust module each imported derive comes from.
    pub derive_rust_modules: Vec<(String, String)>,
    /// The visibility.
    pub visibility: Visibility,
    /// The type parameters.
    pub type_params: Vec<IrTypeParam>,
    /// The lints that are allowed on the class.
    pub lint_allows: Vec<String>,
}

// ---------------------------------------------------------------------------
// Ancestry
// ---------------------------------------------------------------------------

/// The parent of a class, where it names one.
pub open spec fn parent_of(class: Rc<ClassDecl>) -> Option<Seq<char>> {
    label_text(class.extends)
}

/// Whether the chain of parents from a class name ends within a number of classes.
pub open spec fn ancestry_ends(classes: Map<Seq<char>, Rc<ClassDecl>>, name: Seq<char>, limit: nat) -> bool
    decreases limit,
{
    if !classes.contains_key(name) {
        true
    } else {
        match parent_of(classes[name]) {
            None => limit > 0,
            Some(parent) => limit > 0 && ancestry_ends(classes, parent, (limit - 1) as nat),
        }
    }
}

/// The declared classes from the furthest ancestor down to a class.
pub open spec fn lineage(classes: Map<Seq<char>, Rc<ClassDecl>>, name: Seq<char>, limit: nat) -> Seq<Rc<ClassDecl>>
    decreases limit,
{
    if !classes.contains_key(name) || limit == 0 {
        Seq::empty()
    } else {
        match parent_of(classes[name]) {
            None => seq![classes[name]],
            Some(parent) => lineage(classes, parent, (limit - 1) as nat).push(classes[name]),
        }
    }
}

/// Decides whether the chain of parents from a class name ends.
pub fn class_ancestry_ends(classes: &NameMap<Rc<ClassDecl>>, name: &str) -> (ends: bool)
    ensures
        ends == ancestry_ends(classes@, name@, classes.entries@.len()),
{
    let mut limit: usize = classes.entries.len();
    let mut current: String = name.to_owned();
    loop
        invariant
            ancestry_ends(classes@, name@, classes.entries@.len()) == ancestry_ends(
                classes@,
                current@,
                limit as nat,
            ),
        decreases limit,
    {
        match classes.get(current.as_str()) {
            None => {
                return true;
            },
            Some(class) => {
                if limit == 0 {
                    return false;
                }
                match &class.extends {
                    None => {
                        return true;
                    },
                    Some(parent) => {
                        current = parent.clone();
                        limit -= 1;
                    },
                }
            },
        }
    }
}

/// The declared classes from the furthest ancestor down to a class.
fn class_lineage(classes: &NameMap<Rc<ClassDecl>>, name: &str, limit: usize) -> (chain: Vec<Rc<ClassDecl>>)
    ensures
        chain@ == lineage(classes@, name@, limit as nat),
    decreases limit,
{
    if limit == 0 {
        return Vec::new();
    }
    match classes.get(name) {
        None => Vec::new(),
        Some(class) => {
            let mut chain: Vec<Rc<ClassDecl>> = match &class.extends {
                None => Vec::new(),
                Some(parent) => class_lineage(classes, parent.as_str(), limit - 1),
            };
            chain.push(share(class));
            proof {
                if parent_of(classes@[name@]) is None {
                    assert(chain@ =~= seq![classes@[name@]]);
                }
            }
            chain
        },
    }
}

/// Whether a class declares a method of a name.
pub open spec fn declares(class: Rc<ClassDecl>, name: Seq<char>) -> bool {
    exists|i: int| 0 <= i < class.methods@.len() && (#[trigger] class.methods@[i]).node.name@ == name
}

/// The inherited methods that a class does not declare itself.
pub open spec fn unshadowed(inherited: Seq<Rc<Spanned<MethodDecl>>>, class: Rc<ClassDecl>) -> Seq<
    Rc<Spanned<MethodDecl>>,
> {
    inherited.filter(|method: Rc<Spanned<MethodDecl>>| !declares(class, method.node.name@))
}

/// The methods that a lineage gives from one class on, behind those inherited so far.
///
/// A class's own methods hide inherited ones of the same name; overloads that it declares together all stay.
pub open spec fn methods_over(
    chain: Seq<Rc<ClassDecl>>,
    from: int,
    inherited: Seq<Rc<Spanned<MethodDecl>>>,
) -> Seq<Rc<Spanned<MethodDecl>>>
    decreases chain.len() - from,
{
    if from < 0 || from >= chain.len() {
        inherited
    } else {
        methods_over(chain, from + 1, unshadowed(inherited, chain[from]) + chain[from].methods@)
    }
}

/// The properties without those of a name.
pub open spec fn without_property(properties: Seq<Rc<Spanned<PropertyDecl>>>, name: Seq<char>) -> Seq<
    Rc<Spanned<PropertyDecl>>,
> {
    properties.filter(|property: Rc<Spanned<PropertyDecl>>| property.node.name@ != name)
}

/// The properties behind a class's own ones, each of which replaces an earlier one of its name.
pub open spec fn properties_with(
    inherited: Seq<Rc<Spanned<PropertyDecl>>>,
    own: Seq<Rc<Spanned<PropertyDecl>>>,
    from: int,
) -> Seq<Rc<Spanned<PropertyDecl>>>
    decreases own.len() - from,
{
    if from < 0 || from >= own.len() {
        inherited
    } else {
        properties_with(without_property(inherited, own[from].node.name@).push(own[from]), own, from + 1)
    }
}

/// The properties that a lineage gives from one class on, behind those inherited so far.
pub open spec fn properties_over(
    chain: Seq<Rc<ClassDecl>>,
    from: int,
    inherited: Seq<Rc<Spanned<PropertyDecl>>>,
) -> Seq<Rc<Spanned<PropertyDecl>>>
    decreases chain.len() - from,
{
    if from < 0 || from >= chain.len() {
        inherited
    } else {
        properties_over(chain, from + 1, properties_with(inherited, chain[from].properties@, 0))
    }
}

/// Decides whether a class declares a method of a name.
fn declares_method(class: &Rc<ClassDecl>, name: &str) -> (found: bool)
    ensures
        found == declares(*class, name@),
{
    let mut i: usize = 0;
    while i < class.methods.len()
        invariant
            i <= class.methods@.len(),
            forall|j: int| 0 <= j < i ==> (#[trigger] class.methods@[j]).node.name@ != name@,
        decreases class.methods@.len() - i,
    {
        if same_text(class.methods[i].node.name.as_str(), name) {
            proof {
                assert(class.methods@[i as int].node.name@ == name@);
            }
            return true;
        }
        i += 1;
    }
    false
}

/// The inherited methods with those of a class.
fn add_methods(inherited: Vec<Rc<Spanned<MethodDecl>>>, class: &Rc<ClassDecl>) -> (methods: Vec<
    Rc<Spanned<MethodDecl>>,
>)
    ensures
        methods@ == unshadowed(inherited@, *class) + class.methods@,
{
    let mut methods: Vec<Rc<Spanned<MethodDecl>>> = Vec::new();
    let mut i: usize = 0;
    proof {
        reveal(Seq::filter);
        assert(unshadowed(inherited@.take(0), *class) =~= Seq::empty());
    }
    while i < inherited.len()
        invariant
            i <= inherited@.len(),
            methods@ == unshadowed(inherited@.take(i as int), *class),
        decreases inherited@.len() - i,
    {
        proof {
            reveal(Seq::filter);
            assert(inherited@.take(i + 1).drop_last() =~= inherited@.take(i as int));
            assert(inherited@.take(i + 1).last() == inherited@[i as int]);
        }
        if !declares_method(class, inherited[i].node.name.as_str()) {
            methods.push(share(&inherited[i]));
        }
        i += 1;
    }
    proof {
        assert(inherited@.take(i as int) =~= inherited@);
    }
    let mut k: usize = 0;
    while k < class.methods.len()
        invariant
            k <= class.methods@.len(),
            methods@ == unshadowed(inherited@, *class) + class.methods@.take(k as int),
        decreases class.methods@.len() - k,
    {
        methods.push(share(&class.methods[k]));
        proof {
            assert(class.methods@.take(k + 1) =~= class.methods@.take(k as int).push(class.methods@[k as int]));
            assert(methods@ =~= unshadowed(inherited@, *class) + class.methods@.take(k + 1));
        }
        k += 1;
    }
    proof {
        assert(class.methods@.take(k as int) =~= class.methods@);
    }
    methods
}

/// The properties without those of a name, and one more behind them.
fn replace_property(
    inherited: Vec<Rc<Spanned<PropertyDecl>>>,
    property: &Rc<Spanned<PropertyDecl>>,
) -> (properties: Vec<Rc<Spanned<PropertyDecl>>>)
    ensures
        properties@ == without_property(inherited@, property.node.name@).push(*property),
{
    let mut properties: Vec<Rc<Spanned<PropertyDecl>>> = Vec::new();
    let mut i: usize = 0;
    proof {
        reveal(Seq::filter);
        assert(without_property(inherited@.take(0), property.node.name@) =~= Seq::empty());
    }
    while i < inherited.len()
        invariant
            i <= inherited@.len(),
            properties@ == without_property(inherited@.take(i as int), property.node.name@),
        decreases inherited@.len() - i,
    {
        proof {
            reveal(Seq::filter);
            assert(inherited@.take(i + 1).drop_last() =~= inherited@.take(i as int));
            assert(inherited@.take(i + 1).last() == inherited@[i as int]);
        }
        if !same_text(inherited[i].node.name.as_str(), property.node.name.as_str()) {
            properties.push(share(&inherited[i]));
        }
        i += 1;
    }
    proof {
        assert(inherited@.take(i as int) =~= inherited@);
    }
    properties.push(share(property));
    properties
}

// ---------------------------------------------------------------------------
// Fields
// ---------------------------------------------------------------------------

/// What a field becomes with its default value.
pub open spec fn field_lowered(enums: Scope, field: FieldDecl, default: Option<ExprModel>) -> FieldModel {
    FieldModel {
        name: field.name@,
        ty: lowered(enums, field.ty.node),
        surface_type_name: None,
        visibility: field.visibility,
        default,
        alias: label_text(field.metadata.alias),
        description: label_text(field.metadata.description),
    }
}

/// What a run of fields is lowered to, from one of them on, behind those that are done.
pub open spec fn fields_run(
    enums: Scope,
    answers: Seq<ExprAnswer>,
    fields: Seq<Spanned<FieldDecl>>,
    from: int,
    done: Seq<FieldModel>,
) -> (Seq<ExprAnswer>, Result<Seq<FieldModel>, Stop>)
    decreases fields.len() - from,
{
    if from < 0 || from >= fields.len() {
        (answers, Ok(done))
    } else {
        let field = fields[from].node;
        match field.default {
            None => fields_run(enums, answers, fields, from + 1, done.push(field_lowered(enums, field, None))),
            Some(expr) => match answered(answers, expr) {
                (rest, Err(stop)) => (rest, Err(stop)),
                (rest, Ok((value, _))) => fields_run(
                    enums,
                    rest,
                    fields,
                    from + 1,
                    done.push(field_lowered(enums, field, Some(value))),
                ),
            },
        }
    }
}

/// What the fields of a lineage are lowered to, from one class on, behind those that are done.
pub open spec fn lineage_fields_run(
    enums: Scope,
    answers: Seq<ExprAnswer>,
    chain: Seq<Rc<ClassDecl>>,
    from: int,
    done: Seq<FieldModel>,
) -> (Seq<ExprAnswer>, Result<Seq<FieldModel>, Stop>)
    decreases chain.len() - from,
{
    if from < 0 || from >= chain.len() {
        (answers, Ok(done))
    } else {
        match fields_run(enums, answers, chain[from].fields@, 0, done) {
            (rest, Err(stop)) => (rest, Err(stop)),
            (rest, Ok(done)) => lineage_fields_run(enums, rest, chain, from + 1, done),
        }
    }
}

/// The default of a checked field.
pub open spec fn layout_default_run(
    answers: Seq<ExprAnswer>,
    class: Seq<char>,
    field: ClassLayoutField,
) -> (Seq<ExprAnswer>, Result<Option<ExprModel>, Stop>) {
    match field.default {
        None => (answers, Ok(None)),
        Some(ClassFieldDefaultInfo::Source(expr)) => match answered(answers, expr) {
            (rest, Err(stop)) => (rest, Err(stop)),
            (rest, Ok((value, _))) => (rest, Ok(Some(value))),
        },
        Some(ClassFieldDefaultInfo::PublicDependency(value)) => match value {
            PublicDefault::NotMaterializable => (
                answers,
                Err(
                    Stop::Error(
                        failure(
                            "checked class `"@ + class + "` default field `"@ + field.name@
                                + "` is not materializable"@,
                        ),
                    ),
                ),
            ),
            PublicDefault::NotLowerable => (
                answers,
                Err(
                    Stop::Error(
                        failure(
                            "checked class `"@ + class + "` default field `"@ + field.name@
                                + "` could not be lowered"@,
                        ),
                    ),
                ),
            ),
            PublicDefault::Lowered(value) => (answers, Ok(Some((*value).model()))),
        },
    }
}

/// What a run of checked fields is lowered to, from one of them on, behind those that are done.
pub open spec fn layout_fields_run(
    answers: Seq<ExprAnswer>,
    class: Seq<char>,
    fields: Seq<ClassLayoutField>,
    from: int,
    done: Seq<FieldModel>,
) -> (Seq<ExprAnswer>, Result<Seq<FieldModel>, Stop>)
    decreases fields.len() - from,
{
    if from < 0 || from >= fields.len() {
        (answers, Ok(done))
    } else {
        let field = fields[from];
        match layout_default_run(answers, class, field) {
            (rest, Err(stop)) => (rest, Err(stop)),
            (rest, Ok(default)) => match field.ty {
                Err(message) => (rest, Err(Stop::Error(failure(message@)))),
                Ok(ty) => layout_fields_run(
                    rest,
                    class,
                    fields,
                    from + 1,
                    done.push(
                        FieldModel {
                            name: field.name@,
                            ty: ty.model(),
                            surface_type_name: label_text(field.surface_type_name),
                            visibility: field.visibility,
                            default,
                            alias: label_text(field.alias),
                            description: label_text(field.description),
                        },
                    ),
                ),
            },
        }
    }
}

/// What a checked layout is lowered to. A layout with gaps is refused.
pub open spec fn layout_run(answers: Seq<ExprAnswer>, class: Seq<char>, layout: ClassLayout) -> (
    Seq<ExprAnswer>,
    Result<Seq<FieldModel>, Stop>,
) {
    if layout.missing_fields@.len() > 0 {
        (
            answers,
            Err(
                Stop::Error(
                    failure(
                        "checked class `"@ + class + "` layout is missing ordered fields: "@ + joined(
                            texts(layout.missing_fields@),
                            ", "@,
                        ),
                    ),
                ),
            ),
        )
    } else if layout.unmaterializable_defaults@.len() > 0 {
        (
            answers,
            Err(
                Stop::Error(
                    failure(
                        "checked class `"@ + class + "` has unmaterializable inherited defaults: "@ + joined(
                            texts(layout.unmaterializable_defaults@),
                            ", "@,
                        ),
                    ),
                ),
            ),
        )
    } else {
        layout_fields_run(answers, class, layout.fields@, 0, Seq::empty())
    }
}

/// What the fields of a class are lowered to: its checked layout where the type checker ran, else the fields of its
/// ancestors and its own.
pub open spec fn class_fields_run(context: LoweringModel, answers: Seq<ExprAnswer>, class: ClassDecl) -> (
    Seq<ExprAnswer>,
    Result<Seq<FieldModel>, Stop>,
) {
    match context.type_info {
        Some(info) => if info.class_layouts@.contains_key(class.name@) {
            layout_run(answers, class.name@, *info.class_layouts@[class.name@])
        } else {
            (
                answers,
                Err(
                    Stop::Error(
                        failure("checked class `"@ + class.name@ + "` has no lowering layout artifact"@),
                    ),
                ),
            )
        },
        None => {
            let inherited = match class.extends {
                Some(parent) => lineage_fields_run(
                    context.enums,
                    answers,
                    lineage(context.classes, parent@, context.class_count),
                    0,
                    Seq::empty(),
                ),
                None => (answers, Ok(Seq::empty())),
            };
            match inherited {
                (rest, Err(stop)) => (rest, Err(stop)),
                (rest, Ok(done)) => fields_run(context.enums, rest, class.fields@, 0, done),
            }
        },
    }
}

// ---------------------------------------------------------------------------
// Derives
// ---------------------------------------------------------------------------

/// Whether a field annotation names a Rust import directly.
pub open spec fn names_import(imports: Map<Seq<char>, ()>, annotation: FieldAnnotation) -> bool
    decreases annotation,
{
    match annotation {
        FieldAnnotation::Simple(name) | FieldAnnotation::ConstrainedPrimitive(name, _) => imports.contains_key(name@),
        FieldAnnotation::Qualified(segments) => segments@.len() > 0 && imports.contains_key(segments@[0]@),
        FieldAnnotation::Generic(base, args) => imports.contains_key(base@) || any_names_import(imports, args@),
        FieldAnnotation::Function(params, ret) => any_names_import(imports, params@) || names_import(imports, *ret),
        FieldAnnotation::Ref(inner) | FieldAnnotation::RefMut(inner) => names_import(imports, *inner),
        FieldAnnotation::Tuple(items) => any_names_import(imports, items@),
        FieldAnnotation::Unit | FieldAnnotation::SelfType | FieldAnnotation::IntLiteral(_)
        | FieldAnnotation::Infer => false,
    }
}

/// Whether any of some annotations names a Rust import directly.
pub open spec fn any_names_import(imports: Map<Seq<char>, ()>, annotations: Seq<FieldAnnotation>) -> bool
    decreases annotations,
{
    exists|i: int| 0 <= i < annotations.len() && names_import(imports, #[trigger] annotations[i])
}

/// Whether a type names a Rust import directly.
pub open spec fn type_names_import(imports: Map<Seq<char>, ()>, ty: Type) -> bool
    decreases ty,
{
    match ty {
        Type::Simple(name) => imports.contains_key(name@),
        Type::Generic(base, args) => imports.contains_key(base@) || any_type_names_import(imports, args@),
        Type::Function(params, ret) => any_type_names_import(imports, params@) || type_names_import(
            imports,
            (*ret).node,
        ),
        Type::Tuple(items) => any_type_names_import(imports, items@),
        Type::Unit | Type::SelfType => false,
    }
}

/// Whether any of some types names a Rust import directly.
pub open spec fn any_type_names_import(imports: Map<Seq<char>, ()>, types: Seq<Spanned<Type>>) -> bool
    decreases types,
{
    exists|i: int| 0 <= i < types.len() && type_names_import(imports, (#[trigger] types[i]).node)
}

/// Whether a field names a Rust import directly: in its annotation where that has a form of its own, else in its type.
pub open spec fn field_names_import(imports: Map<Seq<char>, ()>, field: FieldDecl) -> bool {
    match field.annotation {
        Some(annotation) => names_import(imports, annotation),
        None => type_names_import(imports, field.ty.node),
    }
}

/// Whether a private class holds Rust state that may have no debug rendering.
pub open spec fn opaque_state(imports: Map<Seq<char>, ()>, class: ClassDecl) -> bool {
    begins_with(class.name@, "_"@) && exists|i: int|
        0 <= i < class.fields@.len() && field_names_import(imports, (#[trigger] class.fields@[i]).node)
}

/// A list of names with one more where it does not have it.
pub open spec fn with_name(names: Seq<Seq<char>>, name: Seq<char>) -> Seq<Seq<char>> {
    if names.contains(name) {
        names
    } else {
        names.push(name)
    }
}

/// The derives of a class: those it asks for, and those that every class has. A class with opaque Rust state has a
/// debug rendering only where it asks for one.
pub open spec fn class_derives(asked: Seq<Seq<char>>, is_opaque: bool) -> Seq<Seq<char>> {
    let debugged = if is_opaque {
        asked
    } else {
        with_name(asked, DEBUG_DERIVE_NAME@)
    };
    with_name(
        with_name(with_name(debugged, CLONE_DERIVE_NAME@), FIELD_INFO_DERIVE_NAME@),
        INCAN_CLASS_DERIVE_NAME@,
    )
}

/// What a class is lowered to.
pub open spec fn class_run(
    context: LoweringModel,
    answers: Seq<ExprAnswer>,
    class: ClassDecl,
    surface: ClassSurface,
) -> (Seq<ExprAnswer>, Result<StructModel, Stop>) {
    match class_fields_run(context, answers, class) {
        (rest, Err(stop)) => (rest, Err(stop)),
        (rest, Ok(fields)) => (
            rest,
            Ok(
                StructModel {
                    kind: IrStructKind::Class,
                    name: class.name@,
                    docstring: label_text(class.docstring),
                    fields,
                    derives: class_derives(texts(surface.derives@), opaque_state(context.imports, class)),
                    visibility: surface.visibility,
                    type_params: surface.type_params@,
                    derive_rust_modules: surface.derive_rust_modules@,
                    lint_allows: surface.lint_allows@,
                },
            ),
        ),
    }
}

// ---------------------------------------------------------------------------
// Lowering
// ---------------------------------------------------------------------------

/// What lowering fields gave.
pub open spec fn fields_result(result: Result<Vec<StructField>, Interruption>) -> Result<Seq<FieldModel>, Stop> {
    match result {
        Ok(fields) => Ok(field_models(fields@)),
        Err(stop) => Err(stop.model()),
    }
}

/// What lowering a class gave.
pub open spec fn struct_result(result: Result<IrStruct, Interruption>) -> Result<StructModel, Stop> {
    match result {
        Ok(lowered) => Ok(lowered.model()),
        Err(stop) => Err(stop.model()),
    }
}

/// Adds a name to a list that does not have it.
fn add_name(names: &mut Vec<String>, name: &str)
    ensures
        texts(final(names)@) == with_name(texts(old(names)@), name@),
{
    let mut i: usize = 0;
    while i < names.len()
        invariant
            i <= names@.len(),
            forall|j: int| 0 <= j < i ==> (#[trigger] names@[j])@ != name@,
        decreases names@.len() - i,
    {
        if same_text(names[i].as_str(), name) {
            proof {
                assert(texts(names@)[i as int] == name@);
            }
            return;
        }
        i += 1;
    }
    proof {
        assert(!texts(names@).contains(name@));
    }
    names.push(name.to_owned());
    proof {
        assert(texts(names@) =~= texts(old(names)@).push(name@));
    }
}

/// Copies an optional text.
fn copy_text(text: &Option<String>) -> (copy: Option<String>)
    ensures
        copy == *text,
{
    match text {
        Some(text) => Some(text.clone()),
        None => None,
    }
}

impl AstLowering {
    /// Lowers a class to its flattened struct.
    ///
    /// Where the type checker ran, its parent-first layout is lowered; else the fields that the class and its
    /// ancestors spell.
    pub fn lower_class(&self, c: &ClassDecl, surface: ClassSurface, answers: &mut Vec<ExprAnswer>) -> (result: Result<
        IrStruct,
        Interruption,
    >)
        requires
            self.model().type_info is None && c.extends is Some ==> ancestry_ends(
                self.model().classes,
                c.extends->Some_0@,
                self.model().class_count,
            ),
        ensures
            class_run(self.model(), old(answers)@, *c, surface) == (final(answers)@, struct_result(result)),
    {
        let fields: Vec<StructField> = self.lower_class_fields(c, answers)?;
        let mut derives: Vec<String> = surface.derives;
        if !self.has_opaque_state(c) {
            add_name(&mut derives, DEBUG_DERIVE_NAME);
        }
        add_name(&mut derives, CLONE_DERIVE_NAME);
        add_name(&mut derives, FIELD_INFO_DERIVE_NAME);
        add_name(&mut derives, INCAN_CLASS_DERIVE_NAME);
        Ok(
            IrStruct {
                kind: IrStructKind::Class,
                name: c.name.clone(),
                docstring: copy_text(&c.docstring),
                fields,
                derives,
                visibility: surface.visibility,
                type_params: surface.type_params,
                derive_rust_modules: surface.derive_rust_modules,
                lint_allows: surface.lint_allows,
            },
        )
    }

    /// Lowers the fields of a class.
    fn lower_class_fields(&self, c: &ClassDecl, answers: &mut Vec<ExprAnswer>) -> (result: Result<
        Vec<StructField>,
        Interruption,
    >)
        requires
            self.model().type_info is None && c.extends is Some ==> ancestry_ends(
                self.model().classes,
                c.extends->Some_0@,
                self.model().class_count,
            ),
        ensures
            class_fields_run(self.model(), old(answers)@, *c) == (final(answers)@, fields_result(result)),
    {
        match &self.type_info {
            Some(info) => match info.class_layouts.get(c.name.as_str()) {
                Some(layout) => self.lower_class_layout(c.name.as_str(), layout, answers),
                None => Err(
                    Interruption::Error(
                        lowering_failure(
                            "checked class `".to_owned().concat(c.name.as_str()).concat(
                                "` has no lowering layout artifact",
                            ),
                        ),
                    ),
                ),
            },
            None => {
                let mut fields: Vec<StructField> = Vec::new();
                proof {
                    assert(field_models(fields@) =~= Seq::empty());
                }
                match &c.extends {
                    Some(parent) => {
                        fields = self.collect_inherited_fields(parent.as_str(), answers)?;
                    },
                    None => {},
                }
                self.lower_fields(&c.fields, fields, answers)
            },
        }
    }

    /// Lowers the fields of a checked layout.
    fn lower_class_layout(&self, class: &str, layout: &ClassLayout, answers: &mut Vec<ExprAnswer>) -> (result: Result<
        Vec<StructField>,
        Interruption,
    >)
        ensures
            layout_run(old(answers)@, class@, *layout) == (final(answers)@, fields_result(result)),
    {
        if layout.missing_fields.len() > 0 {
            return Err(
                Interruption::Error(
                    lowering_failure(
                        "checked class `".to_owned().concat(class).concat(
                            "` layout is missing ordered fields: ",
                        ).concat(join(&layout.missing_fields, ", ").as_str()),
                    ),
                ),
            );
        }
        if layout.unmaterializable_defaults.len() > 0 {
            return Err(
                Interruption::Error(
                    lowering_failure(
                        "checked class `".to_owned().concat(class).concat(
                            "` has unmaterializable inherited defaults: ",
                        ).concat(join(&layout.unmaterializable_defaults, ", ").as_str()),
                    ),
                ),
            );
        }
        let mut fields: Vec<StructField> = Vec::new();
        let mut i: usize = 0;
        proof {
            assert(field_models(fields@) =~= Seq::empty());
        }
        while i < layout.fields.len()
            invariant
                i <= layout.fields@.len(),
                layout_fields_run(old(answers)@, class@, layout.fields@, 0, Seq::empty()) == layout_fields_run(
                    answers@,
                    class@,
                    layout.fields@,
                    i as int,
                    field_models(fields@),
                ),
                layout.missing_fields@.len() == 0,
                layout.unmaterializable_defaults@.len() == 0,
            decreases layout.fields@.len() - i,
        {
            let ghost done = field_models(fields@);
            let field: &ClassLayoutField = &layout.fields[i];
            let default: Option<TypedExpr> = self.lower_layout_default(class, field, answers)?;
            let ty: IrType = match &field.ty {
                Ok(ty) => ty.clone(),
                Err(message) => {
                    return Err(Interruption::Error(lowering_failure(message.clone())));
                },
            };
            let lowered = StructField {
                name: field.name.clone(),
                ty,
                surface_type_name: copy_text(&field.surface_type_name),
                visibility: field.visibility,
                default,
                alias: copy_text(&field.alias),
                description: copy_text(&field.description),
            };
            fields.push(lowered);
            proof {
                assert(field_models(fields@) =~= done.push(lowered.model()));
            }
            i += 1;
        }
        Ok(fields)
    }

    /// Lowers the default of a checked field.
    fn lower_layout_default(&self, class: &str, field: &ClassLayoutField, answers: &mut Vec<ExprAnswer>) -> (result:
        Result<Option<TypedExpr>, Interruption>)
        ensures
            layout_default_run(old(answers)@, class@, *field) == (
                final(answers)@,
                match result {
                    Ok(Some(value)) => Ok(Some(value.model())),
                    Ok(None) => Ok(None),
                    Err(stop) => Err(stop.model()),
                },
            ),
    {
        match &field.default {
            None => Ok(None),
            Some(ClassFieldDefaultInfo::Source(expr)) => Ok(Some(take_answer(answers, expr)?.expr)),
            Some(ClassFieldDefaultInfo::PublicDependency(value)) => match value {
                PublicDefault::NotMaterializable => Err(
                    Interruption::Error(
                        lowering_failure(
                            "checked class `".to_owned().concat(class).concat("` default field `").concat(
                                field.name.as_str(),
                            ).concat("` is not materializable"),
                        ),
                    ),
                ),
                PublicDefault::NotLowerable => Err(
                    Interruption::Error(
                        lowering_failure(
                            "checked class `".to_owned().concat(class).concat("` default field `").concat(
                                field.name.as_str(),
                            ).concat("` could not be lowered"),
                        ),
                    ),
                ),
                PublicDefault::Lowered(value) => Ok(Some((**value).clone())),
            },
        }
    }

    /// Lowers a run of fields behind those that are done.
    fn lower_fields(&self, decls: &Vec<Spanned<FieldDecl>>, done: Vec<StructField>, answers: &mut Vec<ExprAnswer>) -> (
    result: Result<Vec<StructField>, Interruption>)
        ensures
            fields_run(self.model().enums, old(answers)@, decls@, 0, field_models(done@)) == (
                final(answers)@,
                fields_result(result),
            ),
    {
        let ghost start = field_models(done@);
        let mut fields: Vec<StructField> = done;
        let mut i: usize = 0;
        while i < decls.len()
            invariant
                i <= decls@.len(),
                start == field_models(done@),
                fields_run(self.model().enums, old(answers)@, decls@, 0, start) == fields_run(
                    self.model().enums,
                    answers@,
                    decls@,
                    i as int,
                    field_models(fields@),
                ),
            decreases decls@.len() - i,
        {
            let ghost before = field_models(fields@);
            let field: &FieldDecl = &decls[i].node;
            let default: Option<TypedExpr> = match &field.default {
                Some(expr) => Some(take_answer(answers, expr)?.expr),
                None => None,
            };
            let lowered = StructField {
                name: field.name.clone(),
                ty: self.lower_type(&field.ty.node),
                surface_type_name: None,
                visibility: field.visibility,
                default,
                alias: copy_text(&field.metadata.alias),
                description: copy_text(&field.metadata.description),
            };
            fields.push(lowered);
            proof {
                assert(field_models(fields@) =~= before.push(lowered.model()));
            }
            i += 1;
        }
        Ok(fields)
    }

    /// Collects the fields of a class and its ancestors, the furthest ancestor's first.
    pub fn collect_inherited_fields(&self, class_name: &str, answers: &mut Vec<ExprAnswer>) -> (result: Result<
        Vec<StructField>,
        Interruption,
    >)
        requires
            ancestry_ends(self.model().classes, class_name@, self.model().class_count),
        ensures
            lineage_fields_run(
                self.model().enums,
                old(answers)@,
                lineage(self.model().classes, class_name@, self.model().class_count),
                0,
                Seq::empty(),
            ) == (final(answers)@, fields_result(result)),
    {
        let chain: Vec<Rc<ClassDecl>> = class_lineage(
            &self.class_decls,
            class_name,
            self.class_decls.entries.len(),
        );
        let mut fields: Vec<StructField> = Vec::new();
        let mut i: usize = 0;
        proof {
            assert(field_models(fields@) =~= Seq::empty());
        }
        while i < chain.len()
            invariant
                i <= chain@.len(),
                chain@ == lineage(self.model().classes, class_name@, self.model().class_count),
                lineage_fields_run(self.model().enums, old(answers)@, chain@, 0, Seq::empty()) == lineage_fields_run(
                    self.model().enums,
                    answers@,
                    chain@,
                    i as int,
                    field_models(fields@),
                ),
            decreases chain@.len() - i,
        {
            fields = self.lower_fields(&chain[i].fields, fields, answers)?;
            i += 1;
        }
        Ok(fields)
    }

    /// Collects the methods of a class and its ancestors.
    pub fn collect_inherited_methods(&self, class_name: &str) -> (methods: Vec<Rc<Spanned<MethodDecl>>>)
        requires
            ancestry_ends(self.model().classes, class_name@, self.model().class_count),
        ensures
            methods@ == methods_over(
                lineage(self.model().classes, class_name@, self.model().class_count),
                0,
                Seq::empty(),
            ),
    {
        let chain: Vec<Rc<ClassDecl>> = class_lineage(
            &self.class_decls,
            class_name,
            self.class_decls.entries.len(),
        );
        let mut methods: Vec<Rc<Spanned<MethodDecl>>> = Vec::new();
        let mut i: usize = 0;
        while i < chain.len()
            invariant
                i <= chain@.len(),
                methods_over(chain@, 0, Seq::empty()) == methods_over(chain@, i as int, methods@),
            decreases chain@.len() - i,
        {
            methods = add_methods(methods, &chain[i]);
            i += 1;
        }
        methods
    }

    /// Collects the computed properties of a class and its ancestors.
    pub fn collect_inherited_properties(&self, class_name: &str) -> (properties: Vec<Rc<Spanned<PropertyDecl>>>)
        requires
            ancestry_ends(self.model().classes, class_name@, self.model().class_count),
        ensures
            properties@ == properties_over(
                lineage(self.model().classes, class_name@, self.model().class_count),
                0,
                Seq::empty(),
            ),
    {
        let chain: Vec<Rc<ClassDecl>> = class_lineage(
            &self.class_decls,
            class_name,
            self.class_decls.entries.len(),
        );
        let mut properties: Vec<Rc<Spanned<PropertyDecl>>> = Vec::new();
        let mut i: usize = 0;
        while i < chain.len()
            invariant
                i <= chain@.len(),
                properties_over(chain@, 0, Seq::empty()) == properties_over(chain@, i as int, properties@),
            decreases chain@.len() - i,
        {
            let own: &Vec<Rc<Spanned<PropertyDecl>>> = &chain[i].properties;
            let ghost before = properties@;
            let mut k: usize = 0;
            while k < own.len()
                invariant
                    k <= own@.len(),
                    properties_with(before, own@, 0) == properties_with(properties@, own@, k as int),
                decreases own@.len() - k,
            {
                properties = replace_property(properties, &own[k]);
                k += 1;
            }
            i += 1;
        }
        properties
    }

    /// Decides whether a private class holds Rust state that may have no debug rendering.
    fn has_opaque_state(&self, c: &ClassDecl) -> (found: bool)
        ensures
            found == opaque_state(self.model().imports, *c),
    {
        if !starts_with(c.name.as_str(), "_") {
            return false;
        }
        let mut i: usize = 0;
        while i < c.fields.len()
            invariant
                i <= c.fields@.len(),
                begins_with(c.name@, "_"@),
                forall|j: int|
                    0 <= j < i ==> !field_names_import(self.model().imports, (#[trigger] c.fields@[j]).node),
            decreases c.fields@.len() - i,
        {
            let field: &FieldDecl = &c.fields[i].node;
            let named: bool = match &field.annotation {
                Some(annotation) => self.field_uses_direct_rust_import(annotation),
                None => self.type_uses_direct_rust_import(&field.ty.node),
            };
            if named {
                proof {
                    assert(field_names_import(self.model().imports, c.fields@[i as int].node));
                }
                return true;
            }
            i += 1;
        }
        false
    }

    /// Decides whether a field annotation names a Rust import directly.
    pub fn field_uses_direct_rust_import(&self, ty: &FieldAnnotation) -> (found: bool)
        ensures
            found == names_import(self.model().imports, *ty),
        decreases ty,
    {
        match ty {
            FieldAnnotation::Simple(name) | FieldAnnotation::ConstrainedPrimitive(name, _) =>
            self.rust_import_aliases.contains_key(name.as_str()),
            FieldAnnotation::Qualified(segments) => segments.len() > 0 && self.rust_import_aliases.contains_key(
                segments[0].as_str(),
            ),
            FieldAnnotation::Generic(base, args) => self.rust_import_aliases.contains_key(base.as_str())
                || self.any_uses_direct_rust_import(args),
            FieldAnnotation::Function(params, ret) => self.any_uses_direct_rust_import(params)
                || self.field_uses_direct_rust_import(ret),
            FieldAnnotation::Ref(inner) | FieldAnnotation::RefMut(inner) => self.field_uses_direct_rust_import(inner),
            FieldAnnotation::Tuple(items) => self.any_uses_direct_rust_import(items),
            FieldAnnotation::Unit | FieldAnnotation::SelfType | FieldAnnotation::IntLiteral(_)
            | FieldAnnotation::Infer => false,
        }
    }

    /// Decides whether a type names a Rust import directly.
    pub fn type_uses_direct_rust_import(&self, ty: &Type) -> (found: bool)
        ensures
            found == type_names_import(self.model().imports, *ty),
        decreases ty,
    {
        match ty {
            Type::Simple(name) => self.rust_import_aliases.contains_key(name.as_str()),
            Type::Generic(base, args) => self.rust_import_aliases.contains_key(base.as_str())
                || self.any_type_uses_direct_rust_import(args),
            Type::Function(params, ret) => self.any_type_uses_direct_rust_import(params)
                || self.type_uses_direct_rust_import(&ret.node),
            Type::Tuple(items) => self.any_type_uses_direct_rust_import(items),
            Type::Unit | Type::SelfType => false,
        }
    }

    /// Decides whether any of some types names a Rust import directly.
    fn any_type_uses_direct_rust_import(&self, types: &Vec<Spanned<Type>>) -> (found: bool)
        ensures
            found == any_type_names_import(self.model().imports, types@),
        decreases types,
    {
        let mut i: usize = 0;
        while i < types.len()
            invariant
                i <= types@.len(),
                forall|j: int| 0 <= j < i ==> !type_names_import(self.model().imports, (#[trigger] types@[j]).node),
            decreases types@.len() - i,
        {
            if self.type_uses_direct_rust_import(&types[i].node) {
                proof {
                    assert(type_names_import(self.model().imports, types@[i as int].node));
                }
                return true;
            }
            i += 1;
        }
        false
    }

    /// Decides whether any of some annotations names a Rust import directly.
    fn any_uses_direct_rust_import(&self, types: &Vec<FieldAnnotation>) -> (found: bool)
        ensures
            found == any_names_import(self.model().imports, types@),
        decreases types,
    {
        let mut i: usize = 0;
        while i < types.len()
            invariant
                i <= types@.len(),
                forall|j: int| 0 <= j < i ==> !names_import(self.model().imports, #[trigger] types@[j]),
            decreases types@.len() - i,
        {
            if self.field_uses_direct_rust_import(&types[i]) {
                proof {
                    assert(names_import(self.model().imports, types@[i as int]));
                }
                return true;
            }
            i += 1;
        }
        false
    }
}

} // verus!
