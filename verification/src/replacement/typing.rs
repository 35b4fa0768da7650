//! Facts about a body's locals that the profile rests on: what iterates, what is a pair, what is a range, and
//! whether declared types agree.

use crate::body_ir::{
    AggregateKind, ArgumentElement, Block, Body, CallableTarget, Callee, CollectionTypeId, HirSourceSpan,
    IncanPrimitiveType, IncanType, IterProtocol, LocalDecl, LocalId, Operand, Place, Rvalue, Statement,
    StatementKind,
};
use crate::replacement::error::{unsupported, ErrorModel, ReplacementExecutionError};
use crate::replacement::profile::{
    all_single, bare_local, bare_refusal, denoted, element_operands, fixed_operands, refuse, verdict, LocalSet,
};
use crate::text::same_text;
use vstd::prelude::*;

verus! {

broadcast use vstd::string::group_string_axioms;

// ---------------------------------------------------------------------------
// Types
// ---------------------------------------------------------------------------

/// Whether a type is a scalar that collections hold.
pub open spec fn scalar_type(ty: IncanType) -> bool {
    ty matches IncanType::Primitive(p) && (p is Int || p is Bool || p is Str || p is Unit)
}

/// Whether type arguments are two scalars.
pub open spec fn two_scalars(args: Seq<IncanType>) -> bool {
    args.len() == 2 && scalar_type(args[0]) && scalar_type(args[1])
}

/// Whether a type is a pair of scalars.
pub open spec fn pair_type(ty: IncanType) -> bool {
    match ty {
        IncanType::Tuple(elements) => two_scalars(elements@),
        IncanType::Generic { collection, args } => collection == Some(CollectionTypeId::Tuple) && two_scalars(args@),
        _ => false,
    }
}

/// Whether a type is a list of pairs of scalars.
pub open spec fn pair_list_type(ty: IncanType) -> bool {
    ty matches IncanType::Generic { collection, args } && collection == Some(CollectionTypeId::List) && args@.len()
        == 1 && pair_type(args@[0])
}

/// Whether a type is the integer type.
pub open spec fn int_type(ty: IncanType) -> bool {
    ty == IncanType::Primitive(IncanPrimitiveType::Int)
}

/// Whether a type is the list type that stands for a range.
pub open spec fn range_type(ty: IncanType) -> bool {
    ty matches IncanType::Generic { collection, args } && collection == Some(CollectionTypeId::List) && args@.len()
        == 1 && int_type(args@[0])
}

/// Decides whether a type is a scalar that collections hold.
pub fn is_collection_scalar_type(ty: &IncanType) -> (yes: bool)
    ensures
        yes == scalar_type(*ty),
{
    match ty {
        IncanType::Primitive(IncanPrimitiveType::Int) => true,
        IncanType::Primitive(IncanPrimitiveType::Bool) => true,
        IncanType::Primitive(IncanPrimitiveType::Str) => true,
        IncanType::Primitive(IncanPrimitiveType::Unit) => true,
        _ => false,
    }
}

/// Decides whether type arguments are two scalars.
fn are_two_scalars(args: &Vec<IncanType>) -> (yes: bool)
    ensures
        yes == two_scalars(args@),
{
    args.len() == 2 && is_collection_scalar_type(&args[0]) && is_collection_scalar_type(&args[1])
}

/// Decides whether a type is a pair of scalars.
pub fn is_scalar_pair_tuple_type(ty: &IncanType) -> (yes: bool)
    ensures
        yes == pair_type(*ty),
{
    match ty {
        IncanType::Tuple(elements) => are_two_scalars(elements),
        IncanType::Generic { collection: Some(CollectionTypeId::Tuple), args } => are_two_scalars(args),
        _ => false,
    }
}

/// Decides whether a type is a list of pairs of scalars.
pub fn is_scalar_pair_list_type(ty: &IncanType) -> (yes: bool)
    ensures
        yes == pair_list_type(*ty),
{
    match ty {
        IncanType::Generic { collection: Some(CollectionTypeId::List), args } => args.len() == 1
            && is_scalar_pair_tuple_type(&args[0]),
        _ => false,
    }
}

/// Decides whether a type is the integer type.
pub fn is_int_type(ty: &IncanType) -> (yes: bool)
    ensures
        yes == int_type(*ty),
{
    matches!(ty, IncanType::Primitive(IncanPrimitiveType::Int))
}

/// Decides whether a type is the list type that stands for a range.
pub fn is_range_iterator_type(ty: &IncanType) -> (yes: bool)
    ensures
        yes == range_type(*ty),
{
    match ty {
        IncanType::Generic { collection: Some(CollectionTypeId::List), args } => args.len() == 1 && is_int_type(
            &args[0],
        ),
        _ => false,
    }
}

/// The first declaration of a local from a place in the run on.
pub open spec fn declaration(locals: Seq<LocalDecl>, from: int, local: LocalId) -> Option<LocalDecl>
    decreases locals.len() - from,
{
    if from < 0 || from >= locals.len() {
        None
    } else if locals[from].id == local {
        Some(locals[from])
    } else {
        declaration(locals, from + 1, local)
    }
}

/// The declaration of a local, or a refusal of a body that declares none.
pub fn declared_local_type<'a>(body: &'a Body, local: LocalId, span: HirSourceSpan) -> (found: Result<
    &'a LocalDecl,
    ReplacementExecutionError,
>)
    ensures
        match found {
            Ok(decl) => declaration(body.locals@, 0, local) == Some(*decl),
            Err(error) => declaration(body.locals@, 0, local) is None && Some(error@) == refuse(
                "Body-IR local without a declared type"@,
                span,
            ),
        },
{
    let mut i: usize = 0;
    while i < body.locals.len()
        invariant
            i <= body.locals@.len(),
            declaration(body.locals@, 0, local) == declaration(body.locals@, i as int, local),
        decreases body.locals@.len() - i,
    {
        if body.locals[i].id == local {
            return Ok(&body.locals[i]);
        }
        i += 1;
    }
    Err(unsupported("Body-IR local without a declared type", span))
}

/// The refusal of a local that is not declared as a pair of scalars.
pub open spec fn pair_local_refusal(body: Body, local: LocalId, span: HirSourceSpan, role: Seq<char>) -> Option<
    ErrorModel,
> {
    match declaration(body.locals@, 0, local) {
        None => refuse("Body-IR local without a declared type"@, span),
        Some(decl) => if pair_type(decl.ty) {
            None
        } else {
            refuse(role + " has Body-IR type `"@ + decl.ty_text@ + "`, not tuple[scalar, scalar]"@, span)
        },
    }
}

/// The refusal of a local that is not declared as a list of pairs of scalars.
pub open spec fn list_local_refusal(body: Body, local: LocalId, span: HirSourceSpan, role: Seq<char>) -> Option<
    ErrorModel,
> {
    match declaration(body.locals@, 0, local) {
        None => refuse("Body-IR local without a declared type"@, span),
        Some(decl) => if pair_list_type(decl.ty) {
            None
        } else {
            refuse(role + " has Body-IR type `"@ + decl.ty_text@ + "`, not list[tuple[scalar, scalar]]"@, span)
        },
    }
}

/// The refusal of a range iteration whose locals are not declared as an integer and a range.
pub open spec fn range_locals_refusal(body: Body, destination: Place, iterator: LocalId, span: HirSourceSpan) -> Option<
    ErrorModel,
> {
    match bare_refusal(destination, span) {
        Some(error) => Some(error),
        None => match declaration(body.locals@, 0, destination.local) {
            None => refuse("Body-IR local without a declared type"@, span),
            Some(item) => if !int_type(item.ty) {
                refuse(
                    "range iteration destination has Body-IR type `"@ + item.ty_text@ + "`, not int"@,
                    span,
                )
            } else {
                match declaration(body.locals@, 0, iterator) {
                    None => refuse("Body-IR local without a declared type"@, span),
                    Some(source) => if range_type(source.ty) {
                        None
                    } else {
                        refuse(
                            "range iteration iterator has Body-IR type `"@ + source.ty_text@ + "`, not list[int]"@,
                            span,
                        )
                    },
                }
            },
        },
    }
}

/// Checks that a local is declared as a pair of scalars.
fn validate_scalar_pair_tuple_local_type(body: &Body, local: LocalId, span: HirSourceSpan, role: &str) -> (outcome: Result<
    (),
    ReplacementExecutionError,
>)
    ensures
        verdict(outcome) == pair_local_refusal(*body, local, span, role@),
{
    let decl: &LocalDecl = declared_local_type(body, local, span)?;
    if is_scalar_pair_tuple_type(&decl.ty) {
        Ok(())
    } else {
        Err(
            unsupported(
                role.to_owned().concat(" has Body-IR type `").concat(decl.ty_text.as_str()).concat(
                    "`, not tuple[scalar, scalar]",
                ).as_str(),
                span,
            ),
        )
    }
}

/// Checks that a local is declared as a list of pairs of scalars.
fn validate_scalar_pair_list_local_type(body: &Body, local: LocalId, span: HirSourceSpan, role: &str) -> (outcome: Result<
    (),
    ReplacementExecutionError,
>)
    ensures
        verdict(outcome) == list_local_refusal(*body, local, span, role@),
{
    let decl: &LocalDecl = declared_local_type(body, local, span)?;
    if is_scalar_pair_list_type(&decl.ty) {
        Ok(())
    } else {
        Err(
            unsupported(
                role.to_owned().concat(" has Body-IR type `").concat(decl.ty_text.as_str()).concat(
                    "`, not list[tuple[scalar, scalar]]",
                ).as_str(),
                span,
            ),
        )
    }
}

/// Checks the declared types of a range iteration.
fn validate_range_iteration_local_types(
    body: &Body,
    destination: &Place,
    iterator: LocalId,
    span: HirSourceSpan,
) -> (outcome: Result<(), ReplacementExecutionError>)
    ensures
        verdict(outcome) == range_locals_refusal(*body, *destination, iterator, span),
{
    let destination: LocalId = bare_local(destination, span)?;
    let item: &LocalDecl = declared_local_type(body, destination, span)?;
    if !is_int_type(&item.ty) {
        return Err(
            unsupported(
                "range iteration destination has Body-IR type `".to_owned().concat(item.ty_text.as_str()).concat(
                    "`, not int",
                ).as_str(),
                span,
            ),
        );
    }
    let source: &LocalDecl = declared_local_type(body, iterator, span)?;
    if is_range_iterator_type(&source.ty) {
        Ok(())
    } else {
        Err(
            unsupported(
                "range iteration iterator has Body-IR type `".to_owned().concat(source.ty_text.as_str()).concat(
                    "`, not list[int]",
                ).as_str(),
                span,
            ),
        )
    }
}

// ---------------------------------------------------------------------------
// Locals that iterate, and locals that hold pairs for lists
// ---------------------------------------------------------------------------

/// The locals that a run of statements polls builtin iterators into, nested control flow included in the run.
pub open spec fn iterated_locals(stmts: Seq<Statement>) -> Set<LocalId>
    decreases stmts, 0int,
{
    if stmts.len() == 0 {
        Set::empty()
    } else {
        iterated_locals(stmts.drop_last()).union(iterated_by(stmts.last()))
    }
}

/// The locals that one statement polls builtin iterators into.
pub open spec fn iterated_by(statement: Statement) -> Set<LocalId>
    decreases statement, 1int,
{
    match statement.kind {
        StatementKind::If { then_block, else_block, .. } => match else_block {
            Some(block) => iterated_locals(then_block.stmts@).union(iterated_locals(block.stmts@)),
            None => iterated_locals(then_block.stmts@),
        },
        StatementKind::Loop { body } => iterated_locals(body.stmts@),
        StatementKind::IterNext { destination, protocol, .. } => if protocol is Builtin {
            Set::empty().insert(destination.local)
        } else {
            Set::empty()
        },
        _ => Set::empty(),
    }
}

/// Collects the locals that builtin polling writes to.
pub fn builtin_iteration_destinations(block: &Block) -> (destinations: LocalSet)
    ensures
        destinations@ == iterated_locals(block.stmts@),
{
    let mut destinations: LocalSet = LocalSet::new();
    collect_builtin_iteration_destinations(&block.stmts, &mut destinations);
    proof {
        assert(destinations@ =~= iterated_locals(block.stmts@));
    }
    destinations
}

/// Recurses through control flow to collect the locals that builtin polling writes to.
fn collect_builtin_iteration_destinations(stmts: &Vec<Statement>, destinations: &mut LocalSet)
    ensures
        final(destinations)@ == old(destinations)@.union(iterated_locals(stmts@)),
    decreases stmts, 0int,
{
    let ghost before = destinations@;
    let mut i: usize = 0;
    while i < stmts.len()
        invariant
            i <= stmts@.len(),
            destinations@ == before.union(iterated_locals(stmts@.take(i as int))),
        decreases stmts@.len() - i,
    {
        collect_iterated_by(&stmts[i], destinations);
        proof {
            assert(stmts@.take(i + 1).drop_last() =~= stmts@.take(i as int));
            assert(destinations@ =~= before.union(iterated_locals(stmts@.take(i + 1))));
        }
        i += 1;
    }
    proof {
        assert(stmts@.take(i as int) =~= stmts@);
    }
}

/// Collects the locals that one statement polls into.
fn collect_iterated_by(statement: &Statement, destinations: &mut LocalSet)
    ensures
        final(destinations)@ == old(destinations)@.union(iterated_by(*statement)),
    decreases statement, 1int,
{
    let ghost before = destinations@;
    match &statement.kind {
        StatementKind::If { then_block, else_block, .. } => {
            collect_builtin_iteration_destinations(&then_block.stmts, destinations);
            match else_block {
                Some(block) => collect_builtin_iteration_destinations(&block.stmts, destinations),
                None => {},
            }
        },
        StatementKind::Loop { body } => collect_builtin_iteration_destinations(&body.stmts, destinations),
        StatementKind::IterNext { destination, protocol: IterProtocol::Builtin, .. } => {
            let _ = destinations.insert(destination.local);
        },
        _ => {},
    }
    proof {
        assert(destinations@ =~= before.union(iterated_by(*statement)));
    }
}

/// The bare locals among the items of an aggregate.
pub open spec fn item_locals(elements: Seq<ArgumentElement>) -> Set<LocalId>
    decreases elements.len(),
{
    if elements.len() == 0 {
        Set::empty()
    } else {
        let rest = item_locals(elements.drop_last());
        match elements.last() {
            ArgumentElement::One(Operand::Place(read)) => if read.place.projection@.len() == 0 {
                rest.insert(read.place.local)
            } else {
                rest
            },
            _ => rest,
        }
    }
}

/// The bare locals that a run of statements builds tuples into.
pub open spec fn tuple_locals(stmts: Seq<Statement>) -> Set<LocalId>
    decreases stmts, 0int,
{
    if stmts.len() == 0 {
        Set::empty()
    } else {
        tuple_locals(stmts.drop_last()).union(tuples_by(stmts.last()))
    }
}

/// The bare locals that one statement builds tuples into.
pub open spec fn tuples_by(statement: Statement) -> Set<LocalId>
    decreases statement, 1int,
{
    match statement.kind {
        StatementKind::Assign { place, rvalue: Rvalue::Aggregate(AggregateKind::Tuple, _) } => if place.projection@.len()
            == 0 {
            Set::empty().insert(place.local)
        } else {
            Set::empty()
        },
        StatementKind::If { then_block, else_block, .. } => match else_block {
            Some(block) => tuple_locals(then_block.stmts@).union(tuple_locals(block.stmts@)),
            None => tuple_locals(then_block.stmts@),
        },
        StatementKind::Loop { body } => tuple_locals(body.stmts@),
        _ => Set::empty(),
    }
}

/// The bare locals that a run of statements puts into lists.
pub open spec fn listed_locals(stmts: Seq<Statement>) -> Set<LocalId>
    decreases stmts, 0int,
{
    if stmts.len() == 0 {
        Set::empty()
    } else {
        listed_locals(stmts.drop_last()).union(listed_by(stmts.last()))
    }
}

/// The bare locals that one statement puts into lists.
pub open spec fn listed_by(statement: Statement) -> Set<LocalId>
    decreases statement, 1int,
{
    match statement.kind {
        StatementKind::Assign { rvalue: Rvalue::Aggregate(AggregateKind::List, elements), .. } => item_locals(
            elements@,
        ),
        StatementKind::If { then_block, else_block, .. } => match else_block {
            Some(block) => listed_locals(then_block.stmts@).union(listed_locals(block.stmts@)),
            None => listed_locals(then_block.stmts@),
        },
        StatementKind::Loop { body } => listed_locals(body.stmts@),
        _ => Set::empty(),
    }
}

/// Collects the tuple locals that are items of a list.
pub fn scalar_tuple_collection_elements(block: &Block) -> (pairs: LocalSet)
    ensures
        pairs@ == tuple_locals(block.stmts@).intersect(listed_locals(block.stmts@)),
{
    let mut tuples: LocalSet = LocalSet::new();
    let mut listed: LocalSet = LocalSet::new();
    collect_scalar_tuple_collection_locals(&block.stmts, &mut tuples, &mut listed);
    proof {
        assert(tuples@ =~= tuple_locals(block.stmts@));
        assert(listed@ =~= listed_locals(block.stmts@));
    }
    tuples.intersection(&listed)
}

/// Recurses through control flow to collect tuple destinations and list items.
fn collect_scalar_tuple_collection_locals(stmts: &Vec<Statement>, tuples: &mut LocalSet, listed: &mut LocalSet)
    ensures
        final(tuples)@ == old(tuples)@.union(tuple_locals(stmts@)),
        final(listed)@ == old(listed)@.union(listed_locals(stmts@)),
    decreases stmts, 0int,
{
    let ghost tuples_before = tuples@;
    let ghost listed_before = listed@;
    let mut i: usize = 0;
    while i < stmts.len()
        invariant
            i <= stmts@.len(),
            tuples@ == tuples_before.union(tuple_locals(stmts@.take(i as int))),
            listed@ == listed_before.union(listed_locals(stmts@.take(i as int))),
        decreases stmts@.len() - i,
    {
        collect_tuples_and_items_by(&stmts[i], tuples, listed);
        proof {
            assert(stmts@.take(i + 1).drop_last() =~= stmts@.take(i as int));
            assert(tuples@ =~= tuples_before.union(tuple_locals(stmts@.take(i + 1))));
            assert(listed@ =~= listed_before.union(listed_locals(stmts@.take(i + 1))));
        }
        i += 1;
    }
    proof {
        assert(stmts@.take(i as int) =~= stmts@);
    }
}

/// Collects the bare locals among the items of an aggregate.
fn collect_item_locals(elements: &Vec<ArgumentElement>, listed: &mut LocalSet)
    ensures
        final(listed)@ == old(listed)@.union(item_locals(elements@)),
{
    let ghost before = listed@;
    let mut i: usize = 0;
    while i < elements.len()
        invariant
            i <= elements@.len(),
            listed@ == before.union(item_locals(elements@.take(i as int))),
        decreases elements@.len() - i,
    {
        match &elements[i] {
            ArgumentElement::One(Operand::Place(read)) => {
                if read.place.projection.is_empty() {
                    let _ = listed.insert(read.place.local);
                }
            },
            _ => {},
        }
        proof {
            assert(elements@.take(i + 1).drop_last() =~= elements@.take(i as int));
            assert(listed@ =~= before.union(item_locals(elements@.take(i + 1))));
        }
        i += 1;
    }
    proof {
        assert(elements@.take(i as int) =~= elements@);
    }
}

/// Collects the tuple destinations and list items of one statement.
fn collect_tuples_and_items_by(statement: &Statement, tuples: &mut LocalSet, listed: &mut LocalSet)
    ensures
        final(tuples)@ == old(tuples)@.union(tuples_by(*statement)),
        final(listed)@ == old(listed)@.union(listed_by(*statement)),
    decreases statement, 1int,
{
    let ghost tuples_before = tuples@;
    let ghost listed_before = listed@;
    match &statement.kind {
        StatementKind::Assign { place, rvalue: Rvalue::Aggregate(kind, elements) } => match kind {
            AggregateKind::Tuple => {
                if place.projection.is_empty() {
                    let _ = tuples.insert(place.local);
                }
            },
            AggregateKind::List => collect_item_locals(elements, listed),
            _ => {},
        },
        StatementKind::If { then_block, else_block, .. } => {
            collect_scalar_tuple_collection_locals(&then_block.stmts, tuples, listed);
            match else_block {
                Some(block) => collect_scalar_tuple_collection_locals(&block.stmts, tuples, listed),
                None => {},
            }
        },
        StatementKind::Loop { body } => collect_scalar_tuple_collection_locals(&body.stmts, tuples, listed),
        _ => {},
    }
    proof {
        assert(tuples@ =~= tuples_before.union(tuples_by(*statement)));
        assert(listed@ =~= listed_before.union(listed_by(*statement)));
    }
}

// ---------------------------------------------------------------------------
// Locals that hold ranges
// ---------------------------------------------------------------------------

/// Whether a callee is the `range` builtin by its source spelling.
pub open spec fn calls_range(callee: Callee) -> bool {
    callee matches Callee::Function(CallableTarget::Named(target)) && target.name@ == "range"@
}

/// The local that one statement makes a range, given which locals already hold ranges.
pub open spec fn range_made(statement: Statement, ranges: Set<LocalId>) -> Option<LocalId> {
    match statement.kind {
        StatementKind::Call { destination: Some(place), callee, .. } => if calls_range(callee)
            && place.projection@.len() == 0 {
            Some(place.local)
        } else {
            None
        },
        StatementKind::Assign { place, rvalue: Rvalue::Use(Operand::Place(source)) } => if place.projection@.len()
            == 0 && source.place.projection@.len() == 0 && ranges.contains(source.place.local) {
            Some(place.local)
        } else {
            None
        },
        _ => None,
    }
}

/// Whether a set holds every range that a run of statements makes, and every alias of a range it holds.
pub open spec fn closed_under_ranges(stmts: Seq<Statement>, ranges: Set<LocalId>) -> bool
    decreases stmts, 0int,
{
    if stmts.len() == 0 {
        true
    } else {
        closed_under_ranges(stmts.drop_last(), ranges) && closed_under_range(stmts.last(), ranges)
    }
}

/// Whether a set holds every range that one statement makes, and every alias of a range it holds.
pub open spec fn closed_under_range(statement: Statement, ranges: Set<LocalId>) -> bool
    decreases statement, 1int,
{
    match statement.kind {
        StatementKind::If { then_block, else_block, .. } => closed_under_ranges(then_block.stmts@, ranges) && match else_block {
            Some(block) => closed_under_ranges(block.stmts@, ranges),
            None => true,
        },
        StatementKind::Loop { body } => closed_under_ranges(body.stmts@, ranges),
        _ => range_made(statement, ranges) matches Some(local) ==> ranges.contains(local),
    }
}

/// The locals that hold ranges: those in every set that is closed under making and aliasing ranges.
pub open spec fn range_locals(stmts: Seq<Statement>) -> Set<LocalId> {
    Set::new(
        |local: LocalId|
            forall|ranges: Set<LocalId>| #[trigger] closed_under_ranges(stmts, ranges) ==> ranges.contains(local),
    )
}

/// The locals that statements of a run could make ranges.
spec fn range_candidates(stmts: Seq<Statement>) -> Set<LocalId>
    decreases stmts, 0int,
{
    if stmts.len() == 0 {
        Set::empty()
    } else {
        range_candidates(stmts.drop_last()).union(range_candidates_by(stmts.last()))
    }
}

/// The locals that one statement could make ranges.
spec fn range_candidates_by(statement: Statement) -> Set<LocalId>
    decreases statement, 1int,
{
    match statement.kind {
        StatementKind::If { then_block, else_block, .. } => match else_block {
            Some(block) => range_candidates(then_block.stmts@).union(range_candidates(block.stmts@)),
            None => range_candidates(then_block.stmts@),
        },
        StatementKind::Loop { body } => range_candidates(body.stmts@),
        StatementKind::Call { destination: Some(place), .. } => Set::empty().insert(place.local),
        StatementKind::Assign { place, .. } => Set::empty().insert(place.local),
        _ => Set::empty(),
    }
}

/// Only finitely many locals can be ranges.
proof fn lemma_candidates_finite(stmts: Seq<Statement>)
    ensures
        range_candidates(stmts).finite(),
    decreases stmts, 0int,
{
    if stmts.len() > 0 {
        lemma_candidates_finite(stmts.drop_last());
        lemma_candidates_by_finite(stmts.last());
    }
}

/// Only finitely many locals can be ranges by one statement.
proof fn lemma_candidates_by_finite(statement: Statement)
    ensures
        range_candidates_by(statement).finite(),
    decreases statement, 1int,
{
    match statement.kind {
        StatementKind::If { then_block, else_block, .. } => {
            lemma_candidates_finite(then_block.stmts@);
            match else_block {
                Some(block) => {
                    lemma_candidates_finite(block.stmts@);
                },
                None => {},
            }
        },
        StatementKind::Loop { body } => {
            lemma_candidates_finite(body.stmts@);
        },
        _ => {},
    }
}

/// What one pass over statements does to a set of ranges: it only grows, by nothing that a closed set lacks, and
/// when it stays as it is it is closed.
spec fn range_pass(closed: spec_fn(Set<LocalId>) -> bool, before: Set<LocalId>, after: Set<LocalId>) -> bool {
    &&& before.subset_of(after)
    &&& forall|ranges: Set<LocalId>| #[trigger] closed(ranges) && before.subset_of(ranges) ==> after.subset_of(ranges)
    &&& after == before ==> closed(before)
}

/// Extends a set of ranges by one pass over a run of statements.
fn collect_range_iterator_locals(stmts: &Vec<Statement>, ranges: &mut LocalSet) -> (changed: bool)
    ensures
        range_pass(|r: Set<LocalId>| closed_under_ranges(stmts@, r), old(ranges)@, final(ranges)@),
        changed == (final(ranges)@ != old(ranges)@),
        final(ranges)@.subset_of(old(ranges)@.union(range_candidates(stmts@))),
    decreases stmts, 0int,
{
    let ghost before = ranges@;
    let mut changed: bool = false;
    let mut i: usize = 0;
    while i < stmts.len()
        invariant
            i <= stmts@.len(),
            before.subset_of(ranges@),
            forall|r: Set<LocalId>| #[trigger]
                closed_under_ranges(stmts@.take(i as int), r) && before.subset_of(r) ==> ranges@.subset_of(r),
            ranges@ == before ==> closed_under_ranges(stmts@.take(i as int), before),
            changed == (ranges@ != before),
            ranges@.subset_of(before.union(range_candidates(stmts@.take(i as int)))),
        decreases stmts@.len() - i,
    {
        let ghost middle = ranges@;
        let grew: bool = collect_ranges_by(&stmts[i], ranges);
        proof {
            let now = stmts@.take(i + 1);
            assert(now.drop_last() =~= stmts@.take(i as int));
            assert(now.last() == stmts@[i as int]);
            let step = |r: Set<LocalId>| closed_under_range(stmts@[i as int], r);
            assert forall|r: Set<LocalId>| #[trigger] closed_under_ranges(now, r) && before.subset_of(r) implies ranges@.subset_of(
                r,
            ) by {
                assert(closed_under_ranges(stmts@.take(i as int), r));
                assert(middle.subset_of(r));
                assert(step(r));
            }
            if ranges@ == before {
                assert(middle =~= before);
                assert(step(before));
            }
            assert(grew || changed ==> ranges@ != before) by {
                if ranges@ == before {
                    assert(middle =~= before);
                }
            }
        }
        changed = grew || changed;
        i += 1;
    }
    proof {
        assert(stmts@.take(i as int) =~= stmts@);
        let whole = |r: Set<LocalId>| closed_under_ranges(stmts@, r);
        assert forall|r: Set<LocalId>| #[trigger] whole(r) && before.subset_of(r) implies ranges@.subset_of(r) by {
            assert(closed_under_ranges(stmts@, r));
        }
        assert(range_pass(whole, before, ranges@));
    }
    changed
}

/// Extends a set of ranges by what one statement makes.
fn collect_ranges_by(statement: &Statement, ranges: &mut LocalSet) -> (changed: bool)
    ensures
        range_pass(|r: Set<LocalId>| closed_under_range(*statement, r), old(ranges)@, final(ranges)@),
        changed == (final(ranges)@ != old(ranges)@),
        final(ranges)@.subset_of(old(ranges)@.union(range_candidates_by(*statement))),
    decreases statement, 1int,
{
    let ghost before = ranges@;
    let ghost whole = |r: Set<LocalId>| closed_under_range(*statement, r);
    let changed: bool = match &statement.kind {
        StatementKind::If { then_block, else_block, .. } => {
            let grew: bool = collect_range_iterator_locals(&then_block.stmts, ranges);
            let ghost middle = ranges@;
            let ghost first = |r: Set<LocalId>| closed_under_ranges(then_block.stmts@, r);
            match else_block {
                Some(block) => {
                    let grew_too: bool = collect_range_iterator_locals(&block.stmts, ranges);
                    proof {
                        let second = |r: Set<LocalId>| closed_under_ranges(block.stmts@, r);
                        assert forall|r: Set<LocalId>| #[trigger]
                            whole(r) && before.subset_of(r) implies ranges@.subset_of(r) by {
                            assert(first(r));
                            assert(second(r));
                        }
                        if ranges@ == before {
                            assert(middle =~= before);
                            assert(first(before));
                            assert(second(before));
                        }
                        assert((grew || grew_too) == (ranges@ != before)) by {
                            if ranges@ == before {
                                assert(middle =~= before);
                            }
                        }
                    }
                    grew || grew_too
                },
                None => {
                    proof {
                        assert forall|r: Set<LocalId>| #[trigger]
                            whole(r) && before.subset_of(r) implies ranges@.subset_of(r) by {
                            assert(first(r));
                        }
                        if ranges@ == before {
                            assert(first(before));
                        }
                    }
                    grew
                },
            }
        },
        StatementKind::Loop { body } => {
            let grew: bool = collect_range_iterator_locals(&body.stmts, ranges);
            proof {
                let inner = |r: Set<LocalId>| closed_under_ranges(body.stmts@, r);
                assert forall|r: Set<LocalId>| #[trigger]
                    whole(r) && before.subset_of(r) implies ranges@.subset_of(r) by {
                    assert(inner(r));
                }
                if ranges@ == before {
                    assert(inner(before));
                }
            }
            grew
        },
        StatementKind::Call {
            destination: Some(place),
            callee: Callee::Function(CallableTarget::Named(target)),
            ..
        } => if place.projection.is_empty() && same_text(target.name.as_str(), "range") {
            let added: bool = ranges.insert(place.local);
            proof {
                assert(before.contains(place.local) ==> before.insert(place.local) =~= before);
                assert(!before.contains(place.local) ==> !(before.insert(place.local) =~= before)) by {
                    assert(before.insert(place.local).contains(place.local));
                }
            }
            added
        } else {
            false
        },
        StatementKind::Assign { place, rvalue: Rvalue::Use(Operand::Place(source)) } => if place.projection.is_empty()
            && source.place.projection.is_empty() && ranges.contains(source.place.local) {
            let added: bool = ranges.insert(place.local);
            proof {
                assert(before.contains(place.local) ==> before.insert(place.local) =~= before);
                assert(!before.contains(place.local) ==> !(before.insert(place.local) =~= before)) by {
                    assert(before.insert(place.local).contains(place.local));
                }
            }
            added
        } else {
            false
        },
        _ => false,
    };
    proof {
        assert forall|r: Set<LocalId>| #[trigger] whole(r) && before.subset_of(r) implies ranges@.subset_of(r) by {
            assert(closed_under_range(*statement, r));
        }
        if ranges@ == before {
            assert(whole(before));
        }
        assert(range_pass(whole, before, ranges@));
    }
    changed
}

/// Collects the locals that hold ranges, passing over the body until nothing is added.
pub fn range_iterator_locals(block: &Block) -> (ranges: LocalSet)
    ensures
        ranges@ == range_locals(block.stmts@),
{
    let mut ranges: LocalSet = LocalSet::new();
    let ghost candidates = range_candidates(block.stmts@);
    let ghost whole = |r: Set<LocalId>| closed_under_ranges(block.stmts@, r);
    let mut more: bool = true;
    proof {
        lemma_candidates_finite(block.stmts@);
    }
    while more
        invariant
            candidates == range_candidates(block.stmts@),
            candidates.finite(),
            whole == (|r: Set<LocalId>| closed_under_ranges(block.stmts@, r)),
            ranges@.subset_of(candidates),
            forall|r: Set<LocalId>| #[trigger] whole(r) ==> ranges@.subset_of(r),
            !more ==> whole(ranges@),
        decreases candidates.difference(ranges@).len() + (if more { 1nat } else { 0nat }),
    {
        let ghost before = ranges@;
        more = collect_range_iterator_locals(&block.stmts, &mut ranges);
        proof {
            assert(range_pass(whole, before, ranges@));
            assert(before.union(candidates) =~= candidates);
            if more {
                let l = choose|l: LocalId| ranges@.contains(l) && !before.contains(l);
                assert(exists|l: LocalId| ranges@.contains(l) && !before.contains(l)) by {
                    if forall|l: LocalId| ranges@.contains(l) ==> before.contains(l) {
                        assert(ranges@ =~= before);
                    }
                }
                let left = candidates.difference(before);
                let now = candidates.difference(ranges@);
                assert(left.contains(l));
                assert(now.subset_of(left.remove(l)));
                vstd::set_lib::lemma_len_subset(now, left.remove(l));
            } else {
                assert(ranges@ =~= before);
            }
        }
    }
    proof {
        assert forall|l: LocalId| ranges@.contains(l) == range_locals(block.stmts@).contains(l) by {
            if ranges@.contains(l) {
                assert forall|r: Set<LocalId>| #[trigger] closed_under_ranges(block.stmts@, r) implies r.contains(
                    l,
                ) by {
                    assert(whole(r));
                }
            }
            if range_locals(block.stmts@).contains(l) {
                assert(whole(ranges@));
                assert(closed_under_ranges(block.stmts@, ranges@));
            }
        }
        assert(ranges@ =~= range_locals(block.stmts@));
    }
    ranges
}

// ---------------------------------------------------------------------------
// Declared types of collections and iterations
// ---------------------------------------------------------------------------

/// The first refusal among the items of a list aggregate: every item that is read must be a bare pair local.
pub open spec fn items_types_refusal(body: Body, operands: Seq<Operand>, from: int, span: HirSourceSpan) -> Option<
    ErrorModel,
>
    decreases operands.len() - from,
{
    if from < 0 || from >= operands.len() {
        None
    } else {
        let item = match operands[from] {
            Operand::Constant(_) => None,
            Operand::Place(read) => match bare_refusal(read.place, span) {
                Some(error) => Some(error),
                None => pair_local_refusal(body, read.place.local, span, "list aggregate element"@),
            },
        };
        match item {
            Some(error) => Some(error),
            None => items_types_refusal(body, operands, from + 1, span),
        }
    }
}

/// The first refusal of declared types among statements from a place in the run on.
pub open spec fn types_refusal(body: Body, stmts: Seq<Statement>, from: int, ranges: Set<LocalId>) -> Option<ErrorModel>
    decreases stmts, stmts.len() - from,
{
    if from < 0 || from >= stmts.len() {
        None
    } else {
        match statement_types_refusal(body, stmts[from], ranges) {
            Some(error) => Some(error),
            None => types_refusal(body, stmts, from + 1, ranges),
        }
    }
}

/// The refusal of the declared types that one statement relies on.
pub open spec fn statement_types_refusal(body: Body, statement: Statement, ranges: Set<LocalId>) -> Option<ErrorModel>
    decreases statement, 0int,
{
    let span = statement.span;
    match statement.kind {
        StatementKind::Assign { place, rvalue: Rvalue::Aggregate(AggregateKind::Tuple, _) } => match bare_refusal(
            place,
            span,
        ) {
            Some(error) => Some(error),
            None => pair_local_refusal(body, place.local, span, "tuple aggregate destination"@),
        },
        StatementKind::Assign { place, rvalue: Rvalue::Aggregate(AggregateKind::List, elements) } => match bare_refusal(
            place,
            span,
        ) {
            Some(error) => Some(error),
            None => match list_local_refusal(body, place.local, span, "list aggregate destination"@) {
                Some(error) => Some(error),
                None => if !all_single(elements@) {
                    refuse("list aggregate with a spread element"@, span)
                } else {
                    items_types_refusal(body, element_operands(elements@), 0, span)
                },
            },
        },
        StatementKind::IterNext { destination, iterator: Operand::Place(iterator), protocol } => if protocol is Builtin {
            match bare_refusal(iterator.place, span) {
                Some(error) => Some(error),
                None => if ranges.contains(iterator.place.local) {
                    range_locals_refusal(body, destination, iterator.place.local, span)
                } else {
                    match bare_refusal(destination, span) {
                        Some(error) => Some(error),
                        None => match pair_local_refusal(
                            body,
                            destination.local,
                            span,
                            "builtin collection iteration destination"@,
                        ) {
                            Some(error) => Some(error),
                            None => list_local_refusal(
                                body,
                                iterator.place.local,
                                span,
                                "builtin collection iterator"@,
                            ),
                        },
                    }
                },
            }
        } else {
            None
        },
        StatementKind::If { then_block, else_block, .. } => match types_refusal(body, then_block.stmts@, 0, ranges) {
            Some(error) => Some(error),
            None => match else_block {
                Some(block) => types_refusal(body, block.stmts@, 0, ranges),
                None => None,
            },
        },
        StatementKind::Loop { body: repeated } => types_refusal(body, repeated.stmts@, 0, ranges),
        _ => None,
    }
}

/// Checks the declared types of a list aggregate's items.
fn validate_item_types(body: &Body, operands: &Vec<&Operand>, span: HirSourceSpan) -> (outcome: Result<
    (),
    ReplacementExecutionError,
>)
    ensures
        verdict(outcome) == items_types_refusal(*body, denoted(operands@), 0, span),
{
    let mut i: usize = 0;
    while i < operands.len()
        invariant
            i <= operands@.len(),
            items_types_refusal(*body, denoted(operands@), 0, span) == items_types_refusal(
                *body,
                denoted(operands@),
                i as int,
                span,
            ),
        decreases operands@.len() - i,
    {
        match operands[i] {
            Operand::Constant(_) => {},
            Operand::Place(read) => {
                let local: LocalId = bare_local(&read.place, span)?;
                validate_scalar_pair_tuple_local_type(body, local, span, "list aggregate element")?;
            },
        }
        i += 1;
    }
    Ok(())
}

/// Checks every list, tuple and builtin iteration of a run of statements against the declared types.
pub fn validate_collection_local_types(body: &Body, stmts: &Vec<Statement>, ranges: &LocalSet) -> (outcome: Result<
    (),
    ReplacementExecutionError,
>)
    ensures
        verdict(outcome) == types_refusal(*body, stmts@, 0, ranges@),
    decreases stmts, 0int,
{
    let mut i: usize = 0;
    while i < stmts.len()
        invariant
            i <= stmts@.len(),
            types_refusal(*body, stmts@, 0, ranges@) == types_refusal(*body, stmts@, i as int, ranges@),
        decreases stmts@.len() - i,
    {
        validate_statement_types(body, &stmts[i], ranges)?;
        i += 1;
    }
    Ok(())
}

/// Checks one statement against the declared types.
fn validate_statement_types(body: &Body, statement: &Statement, ranges: &LocalSet) -> (outcome: Result<
    (),
    ReplacementExecutionError,
>)
    ensures
        verdict(outcome) == statement_types_refusal(*body, *statement, ranges@),
    decreases statement, 0int,
{
    let span: HirSourceSpan = statement.span;
    match &statement.kind {
        StatementKind::Assign { place, rvalue: Rvalue::Aggregate(kind, elements) } => match kind {
            AggregateKind::Tuple => {
                let local: LocalId = bare_local(place, span)?;
                validate_scalar_pair_tuple_local_type(body, local, span, "tuple aggregate destination")
            },
            AggregateKind::List => {
                let local: LocalId = bare_local(place, span)?;
                validate_scalar_pair_list_local_type(body, local, span, "list aggregate destination")?;
                match fixed_operands(elements) {
                    Some(fixed) => validate_item_types(body, &fixed, span),
                    None => Err(unsupported("list aggregate with a spread element", span)),
                }
            },
            _ => Ok(()),
        },
        StatementKind::IterNext {
            destination,
            iterator: Operand::Place(iterator),
            protocol: IterProtocol::Builtin,
        } => {
            let source: LocalId = bare_local(&iterator.place, span)?;
            if ranges.contains(source) {
                validate_range_iteration_local_types(body, destination, source, span)
            } else {
                let item: LocalId = bare_local(destination, span)?;
                validate_scalar_pair_tuple_local_type(
                    body,
                    item,
                    span,
                    "builtin collection iteration destination",
                )?;
                validate_scalar_pair_list_local_type(body, source, span, "builtin collection iterator")
            }
        },
        StatementKind::If { then_block, else_block, .. } => {
            validate_collection_local_types(body, &then_block.stmts, ranges)?;
            match else_block {
                Some(block) => validate_collection_local_types(body, &block.stmts, ranges),
                None => Ok(()),
            }
        },
        StatementKind::Loop { body: repeated } => validate_collection_local_types(body, &repeated.stmts, ranges),
        _ => Ok(()),
    }
}

} // verus!
