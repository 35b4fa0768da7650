//! Which bodies can be executed directly, apart from how and in which order they are checked.

use crate::body_ir::{
    AggregateKind, ArgumentElement, Body, BodyIrModule, CallableTarget, Callee, CollectionTypeId, HirSourceSpan,
    IncanPrimitiveType, IncanType, LocalDecl, LocalId, Operand, Place, Rvalue, Statement, StatementKind,
};
use crate::replacement::admission::{
    ambiguous, arguments_refusal, binding_refusal, body_refusal, callable_body, first_named, free_function_refusal,
    repeats_binding, same_binding,
};
use crate::replacement::admitted::{
    admits_all, bindable, law_parameters_are_refused_or_bindable, law_profile_refuses_what_it_does_not_admit,
};
use crate::replacement::profile::{all_single, element_operand, element_operands};
use crate::replacement::typing::{
    closed_under_range, closed_under_ranges, declaration, item_locals, items_types_refusal, iterated_by,
    iterated_locals, list_local_refusal, listed_by, listed_locals, pair_local_refusal, range_locals,
    range_locals_refusal, statement_types_refusal, tuple_locals, tuples_by, types_refusal,
};
use crate::replacement::value::ValueModel;
use std::rc::Rc;
use vstd::prelude::*;

verus! {

broadcast use vstd::string::group_string_axioms;

// ---------------------------------------------------------------------------
// Declared types
// ---------------------------------------------------------------------------

/// Whether a type is `int`, `bool`, `str` or the unit type.
pub open spec fn is_scalar(ty: IncanType) -> bool {
    match ty {
        IncanType::Primitive(primitive) => primitive == IncanPrimitiveType::Int || primitive
            == IncanPrimitiveType::Bool || primitive == IncanPrimitiveType::Str || primitive
            == IncanPrimitiveType::Unit,
        _ => false,
    }
}

/// Whether a type is a tuple of two scalars, in either of its spellings.
pub open spec fn is_pair(ty: IncanType) -> bool {
    match ty {
        IncanType::Tuple(items) => items@.len() == 2 && is_scalar(items@[0]) && is_scalar(items@[1]),
        IncanType::Generic { collection, args } => collection == Some(CollectionTypeId::Tuple) && args@.len() == 2
            && is_scalar(args@[0]) && is_scalar(args@[1]),
        _ => false,
    }
}

/// What a collection is declared as.
pub ghost enum Shape {
    /// An integer.
    Int,
    /// A tuple of two scalars.
    Pair,
    /// A list of integers.
    Ints,
    /// A list of tuples of two scalars.
    Pairs,
}

/// Whether a type has a shape.
pub open spec fn shaped(ty: IncanType, shape: Shape) -> bool {
    match shape {
        Shape::Int => ty == IncanType::Primitive(IncanPrimitiveType::Int),
        Shape::Pair => is_pair(ty),
        Shape::Ints | Shape::Pairs => match ty {
            IncanType::Generic { collection, args } => collection == Some(CollectionTypeId::List) && args@.len() == 1
                && (if shape is Ints {
                args@[0] == IncanType::Primitive(IncanPrimitiveType::Int)
            } else {
                is_pair(args@[0])
            }),
            _ => false,
        },
    }
}

/// Whether the first declaration of a local gives it a type of a shape.
#[verifier::opaque]
pub open spec fn declared(locals: Seq<LocalDecl>, local: LocalId, shape: Shape) -> bool {
    exists|i: int|
        0 <= i < locals.len() && (#[trigger] locals[i]).id == local && shaped(locals[i].ty, shape) && forall|j: int|
            0 <= j < i ==> (#[trigger] locals[j]).id != local
}

proof fn declared_agrees(locals: Seq<LocalDecl>, from: int, local: LocalId, shape: Shape)
    requires
        0 <= from <= locals.len(),
        forall|j: int| 0 <= j < from ==> (#[trigger] locals[j]).id != local,
    ensures
        declared(locals, local, shape) <==> (declaration(locals, from, local) matches Some(decl) && shaped(decl.ty, shape)),
    decreases locals.len() - from,
{
    reveal(declared);
    if from < locals.len() {
        if locals[from].id == local {
            if declared(locals, local, shape) {
                let i = choose|i: int|
                    0 <= i < locals.len() && (#[trigger] locals[i]).id == local && shaped(locals[i].ty, shape) && forall|j: int|
                        0 <= j < i ==> (#[trigger] locals[j]).id != local;
                assert(i == from);
            }
        } else {
            declared_agrees(locals, from + 1, local, shape);
        }
    }
}

/// Whether all statements of a run find the locals of their collections declared as they use them.
pub open spec fn all_typed(locals: Seq<LocalDecl>, stmts: Seq<Statement>, ranges: Set<LocalId>) -> bool
    decreases stmts, 0int,
{
    forall|i: int| 0 <= i < stmts.len() ==> typed(locals, #[trigger] stmts[i], ranges)
}

/// Whether a statement finds the locals of its collections declared as it uses them: pairs for tuples, lists of pairs
/// for lists, and an item and an iterator that fit each other for iterations.
pub open spec fn typed(locals: Seq<LocalDecl>, statement: Statement, ranges: Set<LocalId>) -> bool
    decreases statement, 0int,
{
    match statement.kind {
        StatementKind::Assign { place, rvalue: Rvalue::Aggregate(AggregateKind::Tuple, _) } => place.projection@.len()
            == 0 && declared(locals, place.local, Shape::Pair),
        StatementKind::Assign { place, rvalue: Rvalue::Aggregate(AggregateKind::List, elements) } => {
            &&& place.projection@.len() == 0 && declared(locals, place.local, Shape::Pairs)
            &&& forall|i: int|
                0 <= i < elements@.len() ==> (#[trigger] elements@[i] matches ArgumentElement::One(operand) && (
                operand matches Operand::Place(read) ==> read.place.projection@.len() == 0 && declared(
                    locals,
                    read.place.local,
                    Shape::Pair,
                )))
        },
        StatementKind::IterNext { destination, iterator: Operand::Place(iterator), protocol } => protocol is Builtin
            ==> {
            &&& iterator.place.projection@.len() == 0 && destination.projection@.len() == 0
            &&& ranges.contains(iterator.place.local) ==> declared(locals, destination.local, Shape::Int) && declared(
                locals,
                iterator.place.local,
                Shape::Ints,
            )
            &&& !ranges.contains(iterator.place.local) ==> declared(locals, destination.local, Shape::Pair) && declared(
                locals,
                iterator.place.local,
                Shape::Pairs,
            )
        },
        StatementKind::If { then_block, else_block, .. } => {
            &&& all_typed(locals, then_block.stmts@, ranges)
            &&& else_block matches Some(block) ==> all_typed(locals, block.stmts@, ranges)
        },
        StatementKind::Loop { body } => all_typed(locals, body.stmts@, ranges),
        _ => true,
    }
}

proof fn kinds_agree(body: &Body, local: LocalId, span: HirSourceSpan, role: Seq<char>)
    ensures
        pair_local_refusal(*body, local, span, role) is None <==> declared(
            body.locals@,
            local,
            Shape::Pair,
        ),
        list_local_refusal(*body, local, span, role) is None <==> declared(
            body.locals@,
            local,
            Shape::Pairs,
        ),
{
    declared_agrees(body.locals@, 0, local, Shape::Pair);
    declared_agrees(body.locals@, 0, local, Shape::Pairs);
}

proof fn items_agree(body: &Body, elements: Seq<ArgumentElement>, from: int, span: HirSourceSpan)
    requires
        0 <= from,
    ensures
        items_types_refusal(*body, element_operands(elements), from, span) is None <==> forall|i: int|
            from <= i < elements.len() ==> (element_operand(#[trigger] elements[i]) matches Operand::Place(read)
                ==> read.place.projection@.len() == 0 && declared(
                body.locals@,
                read.place.local,
                Shape::Pair,
            )),
    decreases elements.len() - from,
{
    if from < elements.len() {
        match element_operand(elements[from]) {
            Operand::Place(read) => {
                kinds_agree(body, read.place.local, span, "list aggregate element"@);
            },
            _ => {},
        }
        items_agree(body, elements, from + 1, span);
        assert(element_operands(elements)[from] == element_operand(elements[from]));
    }
}

proof fn list_agrees(body: &Body, elements: Seq<ArgumentElement>, span: HirSourceSpan)
    ensures
        all_single(elements) && items_types_refusal(*body, element_operands(elements), 0, span) is None <==> forall|
            i: int,
        |
            0 <= i < elements.len() ==> (#[trigger] elements[i] matches ArgumentElement::One(operand) && (
            operand matches Operand::Place(read) ==> read.place.projection@.len() == 0 && declared(
                body.locals@,
                read.place.local,
                Shape::Pair,
            ))),
{
    items_agree(body, elements, 0, span);
    if all_single(elements) {
        assert forall|i: int| 0 <= i < elements.len() implies (#[trigger] elements[i]) is One by {}
    } else {
        let i = choose|i: int| 0 <= i < elements.len() && !((#[trigger] elements[i]) is One);
        assert(!(elements[i] is One));
    }
}

proof fn range_agrees(body: &Body, destination: &Place, iterator: LocalId, span: HirSourceSpan)
    ensures
        range_locals_refusal(*body, *destination, iterator, span) is None <==> destination.projection@.len() == 0
            && declared(body.locals@, destination.local, Shape::Int) && declared(body.locals@, iterator, Shape::Ints),
{
    declared_agrees(body.locals@, 0, destination.local, Shape::Int);
    declared_agrees(body.locals@, 0, iterator, Shape::Ints);
}

/// A run of statements is refused for its types exactly where one of them does not find its locals declared as it uses
/// them.
pub proof fn law_types_are_refused_where_they_do_not_fit(
    body: &Body,
    stmts: Seq<Statement>,
    from: int,
    ranges: Set<LocalId>,
)
    requires
        0 <= from,
    ensures
        types_refusal(*body, stmts, from, ranges) is None <==> forall|i: int|
            from <= i < stmts.len() ==> typed(body.locals@, #[trigger] stmts[i], ranges),
    decreases stmts, stmts.len() - from,
{
    if from < stmts.len() {
        statement_agrees(body, stmts[from], ranges);
        law_types_are_refused_where_they_do_not_fit(body, stmts, from + 1, ranges);
    }
}

proof fn statement_agrees(body: &Body, statement: Statement, ranges: Set<LocalId>)
    ensures
        statement_types_refusal(*body, statement, ranges) is None <==> typed(body.locals@, statement, ranges),
    decreases statement, 0int,
{
    let span = statement.span;
    match &statement.kind {
        StatementKind::Assign { place, rvalue: Rvalue::Aggregate(AggregateKind::Tuple, _) } => {
            kinds_agree(body, place.local, span, "tuple aggregate destination"@);
        },
        StatementKind::Assign { place, rvalue: Rvalue::Aggregate(AggregateKind::List, elements) } => {
            kinds_agree(body, place.local, span, "list aggregate destination"@);
            list_agrees(body, elements@, span);
        },
        StatementKind::IterNext { destination, iterator: Operand::Place(iterator), protocol } => {
            kinds_agree(body, destination.local, span, "builtin collection iteration destination"@);
            kinds_agree(body, iterator.place.local, span, "builtin collection iterator"@);
            range_agrees(body, destination, iterator.place.local, span);
        },
        StatementKind::If { then_block, else_block, .. } => {
            law_types_are_refused_where_they_do_not_fit(body, then_block.stmts@, 0, ranges);
            match else_block {
                Some(block) => law_types_are_refused_where_they_do_not_fit(body, block.stmts@, 0, ranges),
                None => {},
            }
        },
        StatementKind::Loop { body: repeated } => {
            law_types_are_refused_where_they_do_not_fit(body, repeated.stmts@, 0, ranges);
        },
        _ => {},
    }
}

// ---------------------------------------------------------------------------
// Locals with a part to play
// ---------------------------------------------------------------------------

/// What a local is used for.
pub ghost enum Part {
    /// A builtin iteration gives it its items.
    Item,
    /// A tuple is built for it.
    Built,
    /// It is an item of a list.
    Listed,
}

/// Whether a statement, or one inside its branches and its loop, uses a local for a part.
pub open spec fn plays(statement: Statement, local: LocalId, part: Part) -> bool
    decreases statement, 0int,
{
    match statement.kind {
        StatementKind::If { then_block, else_block, .. } => any_plays(then_block.stmts@, local, part) || (
        else_block matches Some(block) && any_plays(block.stmts@, local, part)),
        StatementKind::Loop { body } => any_plays(body.stmts@, local, part),
        StatementKind::IterNext { destination, protocol, .. } => part is Item && protocol is Builtin
            && destination.local == local,
        StatementKind::Assign { place, rvalue: Rvalue::Aggregate(AggregateKind::Tuple, _) } => part is Built
            && place.projection@.len() == 0 && place.local == local,
        StatementKind::Assign { rvalue: Rvalue::Aggregate(AggregateKind::List, elements), .. } => part is Listed
            && exists|i: int|
            0 <= i < elements@.len() && (#[trigger] elements@[i] matches ArgumentElement::One(Operand::Place(read))
                && read.place.projection@.len() == 0 && read.place.local == local),
        _ => false,
    }
}

/// Whether any statement of a run uses a local for a part.
pub open spec fn any_plays(stmts: Seq<Statement>, local: LocalId, part: Part) -> bool
    decreases stmts, 0int,
{
    exists|i: int| 0 <= i < stmts.len() && plays(#[trigger] stmts[i], local, part)
}

/// The locals that a body iterates into, builds tuples for and puts into lists are those of all its statements, at
/// whatever depth.
pub proof fn law_locals_are_found_at_every_depth(stmts: Seq<Statement>, local: LocalId)
    ensures
        iterated_locals(stmts).contains(local) <==> any_plays(stmts, local, Part::Item),
        tuple_locals(stmts).contains(local) <==> any_plays(stmts, local, Part::Built),
        listed_locals(stmts).contains(local) <==> any_plays(stmts, local, Part::Listed),
    decreases stmts, 0int,
{
    if stmts.len() > 0 {
        let rest = stmts.drop_last();
        law_locals_are_found_at_every_depth(rest, local);
        found_by(stmts.last(), local);
        any_of_last(stmts, local, Part::Item);
        any_of_last(stmts, local, Part::Built);
        any_of_last(stmts, local, Part::Listed);
    }
}

proof fn any_of_last(stmts: Seq<Statement>, local: LocalId, part: Part)
    requires
        stmts.len() > 0,
    ensures
        any_plays(stmts, local, part) <==> any_plays(stmts.drop_last(), local, part) || plays(
            stmts.last(),
            local,
            part,
        ),
{
    let rest = stmts.drop_last();
    if any_plays(rest, local, part) {
        let i = choose|i: int| 0 <= i < rest.len() && plays(#[trigger] rest[i], local, part);
        assert(plays(stmts[i], local, part));
    }
    if any_plays(stmts, local, part) {
        let i = choose|i: int| 0 <= i < stmts.len() && plays(#[trigger] stmts[i], local, part);
        if i < rest.len() {
            assert(plays(rest[i], local, part));
        }
    }
}

proof fn found_by(statement: Statement, local: LocalId)
    ensures
        iterated_by(statement).contains(local) <==> plays(statement, local, Part::Item),
        tuples_by(statement).contains(local) <==> plays(statement, local, Part::Built),
        listed_by(statement).contains(local) <==> plays(statement, local, Part::Listed),
    decreases statement, 1int,
{
    match &statement.kind {
        StatementKind::If { then_block, else_block, .. } => {
            law_locals_are_found_at_every_depth(then_block.stmts@, local);
            match else_block {
                Some(block) => law_locals_are_found_at_every_depth(block.stmts@, local),
                None => {},
            }
        },
        StatementKind::Loop { body } => law_locals_are_found_at_every_depth(body.stmts@, local),
        StatementKind::Assign { rvalue: Rvalue::Aggregate(AggregateKind::List, elements), .. } => {
            items_found(elements@, local);
        },
        _ => {},
    }
}

proof fn items_found(elements: Seq<ArgumentElement>, local: LocalId)
    ensures
        item_locals(elements).contains(local) <==> exists|i: int|
            0 <= i < elements.len() && (#[trigger] elements[i] matches ArgumentElement::One(Operand::Place(read))
                && read.place.projection@.len() == 0 && read.place.local == local),
    decreases elements.len(),
{
    if elements.len() > 0 {
        let rest = elements.drop_last();
        items_found(rest, local);
        if item_locals(rest).contains(local) {
            let i = choose|i: int|
                0 <= i < rest.len() && (#[trigger] rest[i] matches ArgumentElement::One(Operand::Place(read))
                    && read.place.projection@.len() == 0 && read.place.local == local);
            assert(elements[i] == rest[i]);
        }
        assert(elements.last() == elements[elements.len() - 1]);
        assert forall|i: int| 0 <= i < elements.len() - 1 implies #[trigger] elements[i] == rest[i] by {}
    }
}

/// A local that a call of `range` fills holds a range, and so does every local that takes a range over from another. In
/// a body without such calls no local holds one.
pub proof fn law_ranges_come_from_range(stmts: Seq<Statement>, at: int)
    requires
        0 <= at < stmts.len(),
    ensures
        match stmts[at].kind {
            StatementKind::Call {
                destination: Some(place),
                callee: Callee::Function(CallableTarget::Named(target)),
                ..
            } => target.name@ == "range"@ && place.projection@.len() == 0 ==> range_locals(stmts).contains(place.local),
            StatementKind::Assign { place, rvalue: Rvalue::Use(Operand::Place(source)) } => place.projection@.len()
                == 0 && source.place.projection@.len() == 0 && range_locals(stmts).contains(source.place.local)
                ==> range_locals(stmts).contains(place.local),
            _ => true,
        },
        (forall|i: int| 0 <= i < stmts.len() ==> (#[trigger] stmts[i]).kind is Return || stmts[i].kind is Drop
            || stmts[i].kind is Assign || stmts[i].kind is Assert || stmts[i].kind is IterNext) ==> range_locals(stmts)
            == Set::<LocalId>::empty(),
{
    assert forall|ranges: Set<LocalId>| #[trigger] closed_under_ranges(stmts, ranges) implies closed_under_range(
        stmts[at],
        ranges,
    ) by {
        closed_at(stmts, at, ranges);
    }
    if forall|i: int| 0 <= i < stmts.len() ==> (#[trigger] stmts[i]).kind is Return || stmts[i].kind is Drop
        || stmts[i].kind is Assign || stmts[i].kind is Assert || stmts[i].kind is IterNext {
        none_made(stmts);
        assert(closed_under_ranges(stmts, Set::<LocalId>::empty()));
        assert(range_locals(stmts) =~= Set::<LocalId>::empty());
    }
}

proof fn closed_at(stmts: Seq<Statement>, at: int, ranges: Set<LocalId>)
    requires
        0 <= at < stmts.len(),
        closed_under_ranges(stmts, ranges),
    ensures
        closed_under_range(stmts[at], ranges),
    decreases stmts.len(),
{
    if at < stmts.len() - 1 {
        closed_at(stmts.drop_last(), at, ranges);
    }
}

proof fn none_made(stmts: Seq<Statement>)
    requires
        forall|i: int| 0 <= i < stmts.len() ==> (#[trigger] stmts[i]).kind is Return || stmts[i].kind is Drop
            || stmts[i].kind is Assign || stmts[i].kind is Assert || stmts[i].kind is IterNext,
    ensures
        closed_under_ranges(stmts, Set::<LocalId>::empty()),
    decreases stmts.len(),
{
    if stmts.len() > 0 {
        none_made(stmts.drop_last());
        assert(stmts.last() == stmts[stmts.len() - 1]);
        assert(closed_under_range(stmts.last(), Set::<LocalId>::empty()));
    }
}

// ---------------------------------------------------------------------------
// Bodies and functions
// ---------------------------------------------------------------------------

/// Whether a body can be executed directly: it is not `async`, spells every binding once, finds its locals declared as
/// it uses them, and has nothing but admitted parameters and statements.
pub open spec fn executable(body: Body) -> bool {
    let stmts = body.block.stmts@;
    &&& !body.is_async
    &&& forall|i: int, j: int|
        0 <= i < j < body.locals@.len() ==> !same_binding(#[trigger] body.locals@[i], #[trigger] body.locals@[j])
    &&& all_typed(body.locals@, stmts, range_locals(stmts))
    &&& bindable(body.params@)
    &&& admits_all(
        stmts,
        body.yields,
        Set::new(|local: LocalId| any_plays(stmts, local, Part::Item)),
        Set::new(|local: LocalId| any_plays(stmts, local, Part::Built) && any_plays(stmts, local, Part::Listed)),
    )
}

/// A body is refused exactly where it cannot be executed directly.
pub proof fn law_bodies_are_refused_or_executable(body: &Body)
    ensures
        body_refusal(*body) is None <==> executable(*body),
{
    let stmts = body.block.stmts@;
    bindings_agree(body.locals@, 0);
    if binding_refusal(body.locals@, 0) is None {
        assert forall|i: int, j: int| 0 <= i < j < body.locals@.len() implies !same_binding(
            #[trigger] body.locals@[i],
            #[trigger] body.locals@[j],
        ) by {
            assert(!repeats_binding(body.locals@, j));
        }
    } else if forall|i: int, j: int|
        0 <= i < j < body.locals@.len() ==> !same_binding(#[trigger] body.locals@[i], #[trigger] body.locals@[j]) {
        assert forall|j: int| 0 <= j < body.locals@.len() implies !(#[trigger] repeats_binding(body.locals@, j)) by {}
    }
    law_types_are_refused_where_they_do_not_fit(body, stmts, 0, range_locals(stmts));
    law_parameters_are_refused_or_bindable(body.params@);
    let iterated = Set::new(|local: LocalId| any_plays(stmts, local, Part::Item));
    let pairs = Set::new(
        |local: LocalId| any_plays(stmts, local, Part::Built) && any_plays(stmts, local, Part::Listed),
    );
    assert forall|local: LocalId| iterated_locals(stmts).contains(local) == iterated.contains(local) && tuple_locals(
        stmts,
    ).intersect(listed_locals(stmts)).contains(local) == pairs.contains(local) by {
        law_locals_are_found_at_every_depth(stmts, local);
    }
    assert(iterated_locals(stmts) =~= iterated);
    assert(tuple_locals(stmts).intersect(listed_locals(stmts)) =~= pairs);
    law_profile_refuses_what_it_does_not_admit(stmts, 0, body.yields, iterated, pairs);
}

proof fn bindings_agree(locals: Seq<LocalDecl>, from: int)
    requires
        0 <= from,
    ensures
        binding_refusal(locals, from) is None <==> forall|j: int|
            from <= j < locals.len() ==> !(#[trigger] repeats_binding(locals, j)),
    decreases locals.len() - from,
{
    if from < locals.len() {
        bindings_agree(locals, from + 1);
    }
}

/// Bindings are the same where the source spells both and gives them one name.
pub proof fn law_bindings_are_told_by_name(a: LocalDecl, b: LocalDecl)
    ensures
        same_binding(a, b) <==> a.origin is UserBinding && b.origin is UserBinding && a.name is Some && b.name is Some
            && a.name->Some_0@ == b.name->Some_0@,
{
}

/// A call by name reaches the one body of that name; where there is none, or more than one, it reaches nothing.
pub proof fn law_names_reach_their_only_body(module: BodyIrModule, name: Seq<char>, span: HirSourceSpan, at: int)
    requires
        0 <= at < module.bodies@.len(),
        module.bodies@[at].name@ == name,
    ensures
        callable_body(module, name, span) is Ok <==> forall|i: int|
            0 <= i < module.bodies@.len() && i != at ==> (#[trigger] module.bodies@[i]).name@ != name,
        callable_body(module, name, span) matches Ok(body) ==> body == module.bodies@[at],
{
    let bodies = module.bodies@;
    first_is(bodies, 0, name, at);
    if callable_body(module, name, span) is Ok {
        assert forall|i: int| 0 <= i < bodies.len() && i != at implies (#[trigger] bodies[i]).name@ != name by {
            if bodies[i].name@ == name {
                if i < at {
                    assert(bodies[i].name@ == name && bodies[at].name@ == name);
                } else {
                    assert(bodies[at].name@ == name && bodies[i].name@ == name);
                }
                assert(ambiguous(bodies, name));
            }
        }
    }
}

proof fn first_is(bodies: Seq<Rc<Body>>, from: int, name: Seq<char>, at: int)
    requires
        0 <= from <= at < bodies.len(),
        bodies[at].name@ == name,
    ensures
        first_named(bodies, from, name) is Some,
        (forall|i: int| from <= i < at ==> (#[trigger] bodies[i]).name@ != name) ==> first_named(bodies, from, name)
            == Some(bodies[at]),
    decreases at - from,
{
    if bodies[from].name@ != name {
        first_is(bodies, from + 1, name, at);
    }
}

/// A function that is found, is no generator, gets no more arguments than it has parameters, and only scalars, runs in a
/// module without a `range` of its own exactly where its body can be executed directly.
pub proof fn law_functions_are_refused_or_executable(
    module: BodyIrModule,
    name: Seq<char>,
    args: Seq<ValueModel>,
    at: int,
)
    requires
        0 <= at < module.bodies@.len(),
        module.bodies@[at].name@ == name,
        forall|i: int| 0 <= i < at ==> (#[trigger] module.bodies@[i]).name@ != name,
    ensures
        free_function_refusal(module, name, args) is None <==> {
            &&& !module.bodies@[at].yields
            &&& args.len() <= module.bodies@[at].params@.len()
            &&& forall|i: int|
                0 <= i < args.len() ==> #[trigger] args[i] is Int || args[i] is Bool || args[i] is Str || args[i] is Unit
            &&& forall|i: int| 0 <= i < module.bodies@.len() ==> (#[trigger] module.bodies@[i]).name@ != "range"@
            &&& executable(*module.bodies@[at])
        },
{
    first_is(module.bodies@, 0, name, at);
    law_bodies_are_refused_or_executable(&*module.bodies@[at]);
    arguments_agree(args, 0, module.bodies@[at].span);
    if exists|i: int| 0 <= i < module.bodies@.len() && (#[trigger] module.bodies@[i]).name@ == "range"@ {
        let i = choose|i: int| 0 <= i < module.bodies@.len() && (#[trigger] module.bodies@[i]).name@ == "range"@;
        first_is(module.bodies@, 0, "range"@, i);
    } else {
        none_named(module.bodies@, 0, "range"@);
    }
}

proof fn none_named(bodies: Seq<Rc<Body>>, from: int, name: Seq<char>)
    requires
        0 <= from,
        forall|i: int| from <= i < bodies.len() ==> (#[trigger] bodies[i]).name@ != name,
    ensures
        first_named(bodies, from, name) is None,
    decreases bodies.len() - from,
{
    if from < bodies.len() {
        assert(bodies[from].name@ != name);
        none_named(bodies, from + 1, name);
    }
}

proof fn arguments_agree(args: Seq<ValueModel>, from: int, span: HirSourceSpan)
    requires
        0 <= from,
    ensures
        arguments_refusal(args, from, span) is None <==> forall|i: int|
            from <= i < args.len() ==> #[trigger] args[i] is Int || args[i] is Bool || args[i] is Str || args[i] is Unit,
    decreases args.len() - from,
{
    if from < args.len() {
        arguments_agree(args, from + 1, span);
    }
}

} // verus!
