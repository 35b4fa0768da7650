//! What holds of lowered declarations.

use crate::ast::{
    ClassDecl, Declaration, FieldAnnotation, FieldDecl, FunctionDecl, Param, PropertyDecl, Spanned, Type,
};
use crate::ir::{FieldModel, IrDeclKind, TypeModel};
use crate::lowering::classes::{
    any_names_import, any_type_names_import, class_fields_run, class_run, field_lowered, field_names_import,
    layout_run, lineage, names_import, opaque_state, properties_with, type_names_import, without_property,
    ClassSurface,
};
use crate::lowering::program::{
    decl_model, decl_step, param_lowered, rooted, signature_of, signatures_with, Progress, Request, SignatureModel,
};
use crate::lowering::types::{looked_up, lowered};
use crate::lowering::{failure, ClassLayout, ExprAnswer, LoweringModel, Scope, Stop};
use crate::text::{joined, texts};
use std::rc::Rc;
use vstd::prelude::*;

verus! {

broadcast use vstd::string::group_string_axioms;

// ---------------------------------------------------------------------------
// Imported types
// ---------------------------------------------------------------------------

/// Whether a type mentions a name, at whatever depth.
pub open spec fn mentions(ty: Type, name: Seq<char>) -> bool
    decreases ty,
{
    match ty {
        Type::Simple(text) => text@ == name,
        Type::Generic(base, args) => base@ == name || any_mentions(args@, name),
        Type::Function(params, ret) => any_mentions(params@, name) || mentions((*ret).node, name),
        Type::Tuple(items) => any_mentions(items@, name),
        Type::Unit | Type::SelfType => false,
    }
}

/// Whether any of some types mentions a name.
pub open spec fn any_mentions(types: Seq<Spanned<Type>>, name: Seq<char>) -> bool
    decreases types,
{
    exists|i: int| 0 <= i < types.len() && mentions((#[trigger] types[i]).node, name)
}

/// Whether an annotation mentions a name, at whatever depth. A qualified name mentions its first part.
pub open spec fn notes(annotation: FieldAnnotation, name: Seq<char>) -> bool
    decreases annotation,
{
    match annotation {
        FieldAnnotation::Simple(text) => text@ == name,
        FieldAnnotation::ConstrainedPrimitive(text, _) => text@ == name,
        FieldAnnotation::Qualified(segments) => segments@.len() > 0 && segments@[0]@ == name,
        FieldAnnotation::Generic(base, args) => base@ == name || any_notes(args@, name),
        FieldAnnotation::Function(params, ret) => any_notes(params@, name) || notes(*ret, name),
        FieldAnnotation::Ref(inner) => notes(*inner, name),
        FieldAnnotation::RefMut(inner) => notes(*inner, name),
        FieldAnnotation::Tuple(items) => any_notes(items@, name),
        FieldAnnotation::Unit | FieldAnnotation::SelfType | FieldAnnotation::IntLiteral(_)
        | FieldAnnotation::Infer => false,
    }
}

/// Whether any of some annotations mentions a name.
pub open spec fn any_notes(annotations: Seq<FieldAnnotation>, name: Seq<char>) -> bool
    decreases annotations,
{
    exists|i: int| 0 <= i < annotations.len() && notes(#[trigger] annotations[i], name)
}

/// A type names a Rust import exactly where it mentions, at whatever depth, a name that is imported.
pub proof fn law_imports_are_found_in_types(imports: Map<Seq<char>, ()>, ty: Type)
    ensures
        type_names_import(imports, ty) <==> exists|name: Seq<char>| #[trigger]
            imports.contains_key(name) && mentions(ty, name),
    decreases ty,
{
    match &ty {
        Type::Simple(name) => {
            if imports.contains_key(name@) {
                assert(mentions(ty, name@));
            }
        },
        Type::Generic(base, args) => {
            all_found(imports, args@);
            if imports.contains_key(base@) {
                assert(mentions(ty, base@));
            }
            if any_type_names_import(imports, args@) {
                let name = choose|name: Seq<char>| #[trigger] imports.contains_key(name) && any_mentions(args@, name);
                assert(mentions(ty, name));
            }
        },
        Type::Function(params, ret) => {
            all_found(imports, params@);
            law_imports_are_found_in_types(imports, (*ret).node);
            if any_type_names_import(imports, params@) {
                let name = choose|name: Seq<char>| #[trigger] imports.contains_key(name) && any_mentions(params@, name);
                assert(mentions(ty, name));
            }
            if type_names_import(imports, (*ret).node) {
                let name = choose|name: Seq<char>| #[trigger] imports.contains_key(name) && mentions((*ret).node, name);
                assert(mentions(ty, name));
            }
        },
        Type::Tuple(items) => {
            all_found(imports, items@);
            if any_type_names_import(imports, items@) {
                let name = choose|name: Seq<char>| #[trigger] imports.contains_key(name) && any_mentions(items@, name);
                assert(mentions(ty, name));
            }
        },
        Type::Unit | Type::SelfType => {},
    }
}

proof fn all_found(imports: Map<Seq<char>, ()>, types: Seq<Spanned<Type>>)
    ensures
        any_type_names_import(imports, types) <==> exists|name: Seq<char>| #[trigger]
            imports.contains_key(name) && any_mentions(types, name),
    decreases types,
{
    assert forall|i: int| 0 <= i < types.len() implies (type_names_import(imports, (#[trigger] types[i]).node)
        <==> exists|name: Seq<char>| #[trigger] imports.contains_key(name) && mentions(types[i].node, name)) by {
        law_imports_are_found_in_types(imports, types[i].node);
    }
    if any_type_names_import(imports, types) {
        let i = choose|i: int| 0 <= i < types.len() && type_names_import(imports, (#[trigger] types[i]).node);
        let name = choose|name: Seq<char>| #[trigger] imports.contains_key(name) && mentions(types[i].node, name);
        assert(any_mentions(types, name));
    }
    if exists|name: Seq<char>| #[trigger] imports.contains_key(name) && any_mentions(types, name) {
        let name = choose|name: Seq<char>| #[trigger] imports.contains_key(name) && any_mentions(types, name);
        let i = choose|i: int| 0 <= i < types.len() && mentions((#[trigger] types[i]).node, name);
        assert(type_names_import(imports, types[i].node));
    }
}

/// A field's annotation names a Rust import exactly where it mentions, at whatever depth, a name that is imported.
pub proof fn law_imports_are_found_in_annotations(imports: Map<Seq<char>, ()>, annotation: FieldAnnotation)
    ensures
        names_import(imports, annotation) <==> exists|name: Seq<char>| #[trigger]
            imports.contains_key(name) && notes(annotation, name),
    decreases annotation,
{
    match annotation {
        FieldAnnotation::Simple(name) => {
            if imports.contains_key(name@) {
                assert(notes(annotation, name@));
            }
        },
        FieldAnnotation::ConstrainedPrimitive(name, _) => {
            if imports.contains_key(name@) {
                assert(notes(annotation, name@));
            }
        },
        FieldAnnotation::Qualified(segments) => {
            if segments@.len() > 0 && imports.contains_key(segments@[0]@) {
                assert(notes(annotation, segments@[0]@));
            }
        },
        FieldAnnotation::Generic(base, args) => {
            all_noted(imports, args@);
            if imports.contains_key(base@) {
                assert(notes(annotation, base@));
            }
            if any_names_import(imports, args@) {
                let name = choose|name: Seq<char>| #[trigger] imports.contains_key(name) && any_notes(args@, name);
                assert(notes(annotation, name));
            }
        },
        FieldAnnotation::Function(params, ret) => {
            all_noted(imports, params@);
            law_imports_are_found_in_annotations(imports, *ret);
            if any_names_import(imports, params@) {
                let name = choose|name: Seq<char>| #[trigger] imports.contains_key(name) && any_notes(params@, name);
                assert(notes(annotation, name));
            }
            if names_import(imports, *ret) {
                let name = choose|name: Seq<char>| #[trigger] imports.contains_key(name) && notes(*ret, name);
                assert(notes(annotation, name));
            }
        },
        FieldAnnotation::Ref(inner) => {
            law_imports_are_found_in_annotations(imports, *inner);
            if names_import(imports, *inner) {
                let name = choose|name: Seq<char>| #[trigger] imports.contains_key(name) && notes(*inner, name);
                assert(notes(annotation, name));
            }
        },
        FieldAnnotation::RefMut(inner) => {
            law_imports_are_found_in_annotations(imports, *inner);
            if names_import(imports, *inner) {
                let name = choose|name: Seq<char>| #[trigger] imports.contains_key(name) && notes(*inner, name);
                assert(notes(annotation, name));
            }
        },
        FieldAnnotation::Tuple(items) => {
            all_noted(imports, items@);
            if any_names_import(imports, items@) {
                let name = choose|name: Seq<char>| #[trigger] imports.contains_key(name) && any_notes(items@, name);
                assert(notes(annotation, name));
            }
        },
        _ => {},
    }
}

proof fn all_noted(imports: Map<Seq<char>, ()>, annotations: Seq<FieldAnnotation>)
    ensures
        any_names_import(imports, annotations) <==> exists|name: Seq<char>| #[trigger]
            imports.contains_key(name) && any_notes(annotations, name),
    decreases annotations,
{
    assert forall|i: int| 0 <= i < annotations.len() implies (names_import(imports, #[trigger] annotations[i])
        <==> exists|name: Seq<char>| #[trigger] imports.contains_key(name) && notes(annotations[i], name)) by {
        law_imports_are_found_in_annotations(imports, annotations[i]);
    }
    if any_names_import(imports, annotations) {
        let i = choose|i: int| 0 <= i < annotations.len() && names_import(imports, #[trigger] annotations[i]);
        let name = choose|name: Seq<char>| #[trigger] imports.contains_key(name) && notes(annotations[i], name);
        assert(any_notes(annotations, name));
    }
    if exists|name: Seq<char>| #[trigger] imports.contains_key(name) && any_notes(annotations, name) {
        let name = choose|name: Seq<char>| #[trigger] imports.contains_key(name) && any_notes(annotations, name);
        let i = choose|i: int| 0 <= i < annotations.len() && notes(#[trigger] annotations[i], name);
        assert(names_import(imports, annotations[i]));
    }
}

/// A class is opaque where its name is private and one of its fields names an import: in its annotation, where it has
/// one, and else in its type.
pub proof fn law_private_classes_of_imports_are_opaque(imports: Map<Seq<char>, ()>, class: ClassDecl, at: int)
    ensures
        opaque_state(imports, class) ==> class.name@.len() > 0 && class.name@[0] == '_',
        class.name@.len() > 0 && class.name@[0] == '_' && 0 <= at < class.fields@.len() && field_names_import(
            imports,
            class.fields@[at].node,
        ) ==> opaque_state(imports, class),
        0 <= at < class.fields@.len() ==> (field_names_import(imports, class.fields@[at].node) <==> (
        match class.fields@[at].node.annotation {
            Some(annotation) => names_import(imports, annotation),
            None => type_names_import(imports, class.fields@[at].node.ty.node),
        })),
{
    reveal_strlit("_");
    if class.name@.len() > 0 {
        assert(class.name@.subrange(0, 1)[0] == class.name@[0]);
        if class.name@[0] == '_' {
            assert(class.name@.subrange(0, 1) =~= "_"@);
        }
    }
}

// ---------------------------------------------------------------------------
// Classes and fields
// ---------------------------------------------------------------------------

/// A lineage ends in its class, and in front of a class stands the lineage of its parent.
pub proof fn law_lineages_end_in_their_class(classes: Map<Seq<char>, Rc<ClassDecl>>, name: Seq<char>, limit: nat)
    requires
        limit > 0,
        classes.contains_key(name),
    ensures
        lineage(classes, name, limit).len() > 0,
        lineage(classes, name, limit).last() == classes[name],
        classes[name].extends matches Some(parent) ==> lineage(classes, name, limit).drop_last() == lineage(
            classes,
            parent@,
            (limit - 1) as nat,
        ),
        classes[name].extends is None ==> lineage(classes, name, limit).len() == 1,
{
    match &classes[name].extends {
        Some(parent) => {
            let before = lineage(classes, parent@, (limit - 1) as nat);
            assert(before.push(classes[name]).drop_last() =~= before);
        },
        None => {},
    }
}

/// A field keeps its name, its visibility, its alias and its description, and has the type of its annotation.
pub proof fn law_fields_keep_what_they_say(enums: Scope, field: FieldDecl)
    ensures
        ({
            let model = field_lowered(enums, field, None);
            &&& model.name == field.name@
            &&& model.ty == lowered(enums, field.ty.node)
            &&& model.visibility == field.visibility
            &&& model.default is None
            &&& field.metadata.alias matches Some(alias) ==> model.alias == Some(alias@)
            &&& field.metadata.alias is None ==> model.alias is None
            &&& field.metadata.description matches Some(text) ==> model.description == Some(text@)
            &&& field.metadata.description is None ==> model.description is None
        }),
{
}

/// Whether a class's own properties, from one place on, name a property.
pub open spec fn names_property(own: Seq<Rc<Spanned<PropertyDecl>>>, from: int, name: Seq<char>) -> bool {
    exists|i: int| from <= i < own.len() && (#[trigger] own[i]).node.name@ == name
}

/// A class has its own properties, of each name the last that it declares, and of those that it inherits the ones whose
/// name it does not declare.
pub proof fn law_own_properties_replace_inherited_ones(
    inherited: Seq<Rc<Spanned<PropertyDecl>>>,
    own: Seq<Rc<Spanned<PropertyDecl>>>,
    from: int,
    property: Rc<Spanned<PropertyDecl>>,
)
    requires
        0 <= from <= own.len(),
    ensures
        properties_with(inherited, own, from).contains(property) <==> {
            ||| inherited.contains(property) && !names_property(own, from, property.node.name@)
            ||| exists|i: int|
                from <= i < own.len() && #[trigger] own[i] == property && !names_property(
                    own,
                    i + 1,
                    property.node.name@,
                )
        },
    decreases own.len() - from,
{
    let name = property.node.name@;
    if from < own.len() {
        let kept = without_property(inherited, own[from].node.name@);
        let next = kept.push(own[from]);
        law_own_properties_replace_inherited_ones(next, own, from + 1, property);
        without(inherited, own[from].node.name@, property);
        pushed(kept, own[from], property);
        if names_property(own, from, name) && !names_property(own, from + 1, name) {
            let i = choose|i: int| from <= i < own.len() && (#[trigger] own[i]).node.name@ == name;
            assert(i == from);
        }
        if names_property(own, from + 1, name) {
            let i = choose|i: int| from + 1 <= i < own.len() && (#[trigger] own[i]).node.name@ == name;
            assert(own[i].node.name@ == name);
        }
        if exists|i: int| from <= i < own.len() && #[trigger] own[i] == property && !names_property(own, i + 1, name) {
            let i = choose|i: int|
                from <= i < own.len() && #[trigger] own[i] == property && !names_property(own, i + 1, name);
            assert(i == from || from + 1 <= i);
        }
    }
}

proof fn without(properties: Seq<Rc<Spanned<PropertyDecl>>>, name: Seq<char>, wanted: Rc<Spanned<PropertyDecl>>)
    ensures
        without_property(properties, name).contains(wanted) <==> properties.contains(wanted) && wanted.node.name@
            != name,
    decreases properties.len(),
{
    reveal(Seq::filter);
    if properties.len() > 0 {
        let front = properties.drop_last();
        let last = properties.last();
        let kept = without_property(front, name);
        without(front, name, wanted);
        assert(properties =~= front.push(last));
        pushed(front, last, wanted);
        pushed(kept, last, wanted);
        assert(without_property(properties, name) == if last.node.name@ != name {
            kept.push(last)
        } else {
            kept
        });
    }
}

proof fn pushed(
    front: Seq<Rc<Spanned<PropertyDecl>>>,
    last: Rc<Spanned<PropertyDecl>>,
    wanted: Rc<Spanned<PropertyDecl>>,
)
    ensures
        front.push(last).contains(wanted) <==> front.contains(wanted) || last == wanted,
{
    let all = front.push(last);
    if front.contains(wanted) {
        let i = choose|i: int| 0 <= i < front.len() && front[i] == wanted;
        assert(all[i] == wanted);
    }
    assert(all[front.len() as int] == last);
}

/// A checked layout with gaps is refused: missing fields are named before defaults that cannot be made, each list in
/// its order. A layout without gaps and fields gives none.
pub proof fn law_layouts_with_gaps_are_refused(answers: Seq<ExprAnswer>, class: Seq<char>, layout: ClassLayout)
    ensures
        layout.missing_fields@.len() > 0 ==> layout_run(answers, class, layout) == (
            answers,
            Err::<Seq<FieldModel>, Stop>(
                Stop::Error(
                    failure(
                        "checked class `"@ + class + "` layout is missing ordered fields: "@ + joined(
                            texts(layout.missing_fields@),
                            ", "@,
                        ),
                    ),
                ),
            ),
        ),
        layout.missing_fields@.len() == 0 && layout.unmaterializable_defaults@.len() > 0 ==> layout_run(
            answers,
            class,
            layout,
        ) == (
            answers,
            Err::<Seq<FieldModel>, Stop>(
                Stop::Error(
                    failure(
                        "checked class `"@ + class + "` has unmaterializable inherited defaults: "@ + joined(
                            texts(layout.unmaterializable_defaults@),
                            ", "@,
                        ),
                    ),
                ),
            ),
        ),
        layout.missing_fields@.len() == 0 && layout.unmaterializable_defaults@.len() == 0 && layout.fields@.len() == 0
            ==> layout_run(answers, class, layout) == (answers, Ok::<Seq<FieldModel>, Stop>(Seq::empty())),
{
}

/// A class is lowered under its name to a structure with its own type parameters and visibility, and with the fields
/// that its declarations give.
pub proof fn law_classes_become_structures(
    context: LoweringModel,
    answers: Seq<ExprAnswer>,
    class: ClassDecl,
    surface: ClassSurface,
)
    ensures
        match (class_run(context, answers, class, surface), class_fields_run(context, answers, class)) {
            ((rest, Ok(model)), (left, Ok(fields))) => {
                &&& rest == left
                &&& model.kind is Class
                &&& model.name == class.name@
                &&& model.fields == fields
                &&& model.visibility == surface.visibility
                &&& model.type_params == surface.type_params@
                &&& model.derive_rust_modules == surface.derive_rust_modules@
                &&& model.lint_allows == surface.lint_allows@
            },
            ((rest, Err(stop)), (left, Err(reason))) => rest == left && stop == reason,
            _ => false,
        },
{
}

// ---------------------------------------------------------------------------
// Programs
// ---------------------------------------------------------------------------

/// The last function of a name is registered under it, with its parameters in order and its return type, and no other
/// name is registered.
pub proof fn law_functions_are_registered_by_name(
    enums: Scope,
    known: Map<Seq<char>, SignatureModel>,
    decls: Seq<Spanned<Declaration>>,
    from: int,
    name: Seq<char>,
)
    requires
        0 <= from,
    ensures
        signatures_with(enums, known, decls, from).contains_key(name) <==> known.contains_key(name) || exists|i: int|
            from <= i < decls.len() && declares_function((#[trigger] decls[i]).node, name),
        forall|i: int|
            from <= i < decls.len() && declares_function((#[trigger] decls[i]).node, name) && (forall|j: int|
                i < j < decls.len() ==> !declares_function((#[trigger] decls[j]).node, name)) ==> signatures_with(
                enums,
                known,
                decls,
                from,
            )[name] == signature_at(enums, decls, i),
    decreases decls.len() - from,
{
    if from < decls.len() {
        let more = match &decls[from].node {
            Declaration::Function(f) => known.insert(f.name@, signature_at(enums, decls, from)),
            _ => known,
        };
        law_functions_are_registered_by_name(enums, more, decls, from + 1, name);
        assert(signatures_with(enums, known, decls, from) == signatures_with(enums, more, decls, from + 1));
        if declares_function(decls[from].node, name) && forall|j: int|
            from < j < decls.len() ==> !declares_function((#[trigger] decls[j]).node, name) {
            kept(enums, more, decls, from + 1, name);
        }
    }
}

proof fn kept(
    enums: Scope,
    known: Map<Seq<char>, SignatureModel>,
    decls: Seq<Spanned<Declaration>>,
    from: int,
    name: Seq<char>,
)
    requires
        0 <= from,
        known.contains_key(name),
        forall|j: int| from <= j < decls.len() ==> !declares_function((#[trigger] decls[j]).node, name),
    ensures
        signatures_with(enums, known, decls, from)[name] == known[name],
    decreases decls.len() - from,
{
    if from < decls.len() {
        assert(!declares_function(decls[from].node, name));
        let more = match &decls[from].node {
            Declaration::Function(f) => known.insert(f.name@, signature_at(enums, decls, from)),
            _ => known,
        };
        kept(enums, more, decls, from + 1, name);
    }
}

/// Whether a declaration is a function of a name.
pub open spec fn declares_function(decl: Declaration, name: Seq<char>) -> bool {
    match decl {
        Declaration::Function(f) => f.name@ == name,
        _ => false,
    }
}

/// The signature of the function at a place.
pub open spec fn signature_at(enums: Scope, decls: Seq<Spanned<Declaration>>, at: int) -> SignatureModel {
    match decls[at].node {
        Declaration::Function(f) => signature_of(enums, *f),
        _ => arbitrary(),
    }
}

/// A parameter keeps its name and whether it is mutable, and has the type of its annotation; a function keeps its
/// parameters in order.
pub proof fn law_signatures_keep_their_parameters(enums: Scope, f: FunctionDecl, param: Param)
    ensures
        param_lowered(enums, param).name == param.name@,
        param_lowered(enums, param).ty == lowered(enums, param.ty.node),
        param_lowered(enums, param).mutability is Mutable <==> param.is_mut,
        !param_lowered(enums, param).is_self,
        signature_of(enums, f).return_type == lowered(enums, f.return_type.node),
        signature_of(enums, f).params.len() == f.params@.len(),
        forall|i: int|
            0 <= i < f.params@.len() ==> (#[trigger] signature_of(enums, f).params[i]).name == f.params@[i].node.name@,
{
}

/// A declaration that is lowered adds itself to the program, one that fails adds its failure, and a docstring adds
/// nothing. The program starts where a function named `main` is declared.
pub proof fn law_declarations_add_themselves(context: LoweringModel, p: Progress, decl: Declaration, at: int)
    ensures
        decl is Docstring ==> decl_step(context, p, decl, at) == (p, None::<Request>),
        !(decl is Docstring) && !(decl is Model) && !(decl is Class) ==> ({
            let (after, stop) = decl_step(context, p, decl, at);
            &&& p.given.declarations.len() == 0 ==> stop is Some && after == p
            &&& p.given.declarations.len() > 0 ==> stop is None && (match p.given.declarations[0] {
                Ok(done) => {
                    &&& after.declarations == p.declarations.push(decl_model(done))
                    &&& after.errors == p.errors
                    &&& (done.kind matches IrDeclKind::Function(f) && f.name@ == "main"@) ==> after.entry_point == Some(
                        "main"@,
                    )
                    &&& !(done.kind matches IrDeclKind::Function(f) && f.name@ == "main"@) ==> after.entry_point
                        == p.entry_point
                },
                Err(error) => after.errors == p.errors.push(error.model()) && after.declarations == p.declarations
                    && after.entry_point == p.entry_point,
            })
        }),
{
}

/// A constant is known by its annotated type in the outermost scope.
pub proof fn law_constants_are_known_everywhere(scopes: Seq<Scope>, name: Seq<char>, ty: TypeModel)
    requires
        scopes.len() == 1,
    ensures
        looked_up(rooted(scopes, name, ty), name) == ty,
{
}

} // verus!
