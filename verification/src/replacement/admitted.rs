//! What the replacement profile admits, apart from how and in which order it is checked.

use crate::body_ir::{
    AggregateKind, ArgumentBinding, ArgumentElement, CallableParam, CallableParamDefault, CallableTarget, Callee,
    HirSourceSpan, LocalCallableTarget, LocalId, Operand, PlaceElem, Rvalue, Statement, StatementKind,
};
use crate::replacement::profile::{
    aggregate_refusal, all_single, bare_refusal, call_refusal, default_refusal, element_operand, element_operands,
    generator_refusal, generator_statement_refusal, list_items_refusal, operand_refusal, operands_refusal,
    optional_refusal, params_refusal, read_refusal, repeats_local, rvalue_refusal, statement_refusal,
    statements_refusal,
};
use vstd::prelude::*;

verus! {

// ---------------------------------------------------------------------------
// What is admitted
// ---------------------------------------------------------------------------

/// Whether an operand can be read: a literal, a local as a whole, an element at an index that can be read, or one of
/// the two fields of a pair that is iterated over, with a known ownership decision.
pub open spec fn readable(operand: Operand, iterated: Set<LocalId>) -> bool
    decreases operand,
{
    match operand {
        Operand::Constant(_) => true,
        Operand::Place(read) => !(read.fact is Unknown) && read.place.projection@.len() <= 1 && (
        read.place.projection@.len() == 1 ==> (match read.place.projection@[0] {
            PlaceElem::Field(field) => (field@ == "0"@ || field@ == "1"@) && iterated.contains(read.place.local),
            PlaceElem::Index(index) => readable(*index, iterated),
            PlaceElem::Slice => false,
        })),
    }
}

/// Whether all operands of a run can be read.
pub open spec fn all_readable(operands: Seq<Operand>, iterated: Set<LocalId>) -> bool {
    forall|i: int| 0 <= i < operands.len() ==> #[trigger] readable(operands[i], iterated)
}

/// Whether no element of a list splices, and all of them can be read.
pub open spec fn plain(elements: Seq<ArgumentElement>, iterated: Set<LocalId>) -> bool {
    forall|i: int|
        0 <= i < elements.len() ==> (#[trigger] elements[i] matches ArgumentElement::One(operand) && readable(
            operand,
            iterated,
        ))
}

/// Whether every argument of a call is known to go to a slot of its own, from a place of its own.
pub open spec fn bound_apart(binding: ArgumentBinding) -> bool {
    match binding {
        ArgumentBinding::Resolved { arguments, .. } => forall|i: int, j: int|
            0 <= i < j < arguments@.len() ==> (#[trigger] arguments@[i]).slot != (#[trigger] arguments@[j]).slot
                && arguments@[i].written_position != arguments@[j].written_position,
        ArgumentBinding::UnresolvedPositional => false,
    }
}

/// Whether a callee can be called with so many arguments.
pub open spec fn callable(callee: Callee, count: nat, iterated: Set<LocalId>) -> bool {
    match callee {
        Callee::Function(CallableTarget::Named(target)) => target.name@ == "range"@ || bound_apart(target.binding),
        Callee::Function(CallableTarget::Local(target)) => readable(Operand::Place(target.operand), iterated)
            && bound_apart(target.binding),
        Callee::Method(target) => {
            ||| target.name@ == "collect"@ && count == 1
            ||| (target.name@ == "map"@ || target.name@ == "filter"@) && count == 2 && (
            target.binding is UnresolvedPositional || bound_apart(target.binding))
        },
        Callee::Helper(helper) => helper is StrConcat,
        Callee::ProviderOperation(_) => false,
    }
}

/// Whether an aggregate can be built for a local: a pair where the local holds an item of a list, and a list of such
/// pairs.
pub open spec fn buildable(
    kind: AggregateKind,
    elements: Seq<ArgumentElement>,
    iterated: Set<LocalId>,
    pairs: Set<LocalId>,
    destination: LocalId,
) -> bool {
    plain(elements, iterated) && match kind {
        AggregateKind::Tuple => elements.len() == 2 && pairs.contains(destination),
        AggregateKind::List => forall|i: int|
            0 <= i < elements.len() ==> (element_operand(#[trigger] elements[i]) matches Operand::Place(read)
                && read.place.projection@.len() == 0 && pairs.contains(read.place.local)),
        AggregateKind::Dict | AggregateKind::SetLiteral | AggregateKind::Constructor(_) => false,
    }
}

/// Whether a computed value is admitted.
pub open spec fn computable(
    rvalue: Rvalue,
    iterated: Set<LocalId>,
    pairs: Set<LocalId>,
    destination: LocalId,
) -> bool
    decreases rvalue, 0int,
{
    match rvalue {
        Rvalue::Use(operand) | Rvalue::UnaryOp(_, operand) => readable(operand, iterated),
        Rvalue::BinaryOp(_, left, right) => readable(left, iterated) && readable(right, iterated),
        Rvalue::Aggregate(kind, elements) => buildable(kind, elements@, iterated, pairs, destination),
        Rvalue::Closure { params, captured_operands, body } => {
            &&& captured_operands@.len() == body.capture_locals@.len()
            &&& all_readable(captured_operands@, iterated)
            &&& bindable(params@)
            &&& admits_all(body.stmts@, false, iterated, pairs)
            &&& readable(body.result, iterated)
        },
        Rvalue::Generator { source, captured_operands, body } => {
            &&& readable(source, iterated)
            &&& all_readable(captured_operands@, iterated)
            &&& admits_all(body.stmts@, true, iterated, pairs)
        },
        Rvalue::Format(_) | Rvalue::Match { .. } => false,
    }
}

/// Whether the parameters of a callable have locals of their own and defaults that are admitted.
pub open spec fn bindable(params: Seq<CallableParam>) -> bool
    decreases params, 1int,
{
    &&& forall|i: int, j: int| 0 <= i < j < params.len() ==> (#[trigger] params[i]).local != (#[trigger] params[j]).local
    &&& forall|i: int| 0 <= i < params.len() ==> defaults((#[trigger] params[i]).default)
}

/// Whether the default of a parameter is admitted.
pub open spec fn defaults(default: CallableParamDefault) -> bool
    decreases default, 0int,
{
    match default {
        CallableParamDefault::Source(computation) => admits_all(computation.stmts@, false, Set::empty(), Set::empty())
            && readable(computation.result, Set::empty()),
        _ => true,
    }
}

/// Whether all statements of a run are admitted, in a generator or outside.
pub open spec fn admits_all(
    stmts: Seq<Statement>,
    generates: bool,
    iterated: Set<LocalId>,
    pairs: Set<LocalId>,
) -> bool
    decreases stmts, 1int,
{
    forall|i: int| 0 <= i < stmts.len() ==> admits(#[trigger] stmts[i], generates, iterated, pairs)
}

/// Whether a statement is admitted: with what it reads, writes and calls, and with all statements inside it. Only a
/// generator yields, and it does not return.
pub open spec fn admits(statement: Statement, generates: bool, iterated: Set<LocalId>, pairs: Set<LocalId>) -> bool
    decreases statement, 0int,
{
    match statement.kind {
        StatementKind::Assign { place, rvalue } => place.projection@.len() == 0 && computable(
            rvalue,
            iterated,
            pairs,
            place.local,
        ),
        StatementKind::Call { destination, callee, args, .. } => {
            &&& destination matches Some(place) && place.projection@.len() == 0
            &&& plain(args@, iterated)
            &&& callable(callee, args@.len(), iterated)
        },
        StatementKind::If { cond, then_block, else_block } => {
            &&& readable(cond, iterated)
            &&& admits_all(then_block.stmts@, generates, iterated, pairs)
            &&& else_block matches Some(block) ==> admits_all(block.stmts@, generates, iterated, pairs)
        },
        StatementKind::Loop { body } => admits_all(body.stmts@, generates, iterated, pairs),
        StatementKind::Return { value } => !generates && (value matches Some(value) ==> readable(value, iterated)),
        StatementKind::Yield { value } => generates && readable(value, iterated),
        StatementKind::Break { value } => value is None,
        StatementKind::Assert { cond, message, .. } => readable(cond, iterated) && (message matches Some(message)
            ==> readable(message, iterated)),
        StatementKind::Expr { value } => readable(value, iterated),
        StatementKind::IterNext { destination, iterator, protocol } => protocol is Builtin
            && destination.projection@.len() == 0 && readable(iterator, iterated),
        StatementKind::Continue | StatementKind::Drop { .. } => true,
        StatementKind::Await { .. } | StatementKind::Race { .. } | StatementKind::TryPropagate { .. }
        | StatementKind::Unsupported { .. } => false,
    }
}

// ---------------------------------------------------------------------------
// Checking refuses exactly the rest
// ---------------------------------------------------------------------------

proof fn operand_agrees(operand: &Operand, span: HirSourceSpan, iterated: Set<LocalId>)
    ensures
        operand_refusal(*operand, span, iterated) is None <==> readable(*operand, iterated),
    decreases operand,
{
    match operand {
        Operand::Constant(_) => {},
        Operand::Place(read) => {
            if read.place.projection@.len() == 1 {
                match read.place.projection@[0] {
                    PlaceElem::Index(index) => {
                        operand_agrees(&*index, span, iterated);
                    },
                    _ => {},
                }
                assert(read_refusal(read.place, span, iterated) is None <==> (match read.place.projection@[0] {
                    PlaceElem::Field(field) => (field@ == "0"@ || field@ == "1"@) && iterated.contains(
                        read.place.local,
                    ),
                    PlaceElem::Index(index) => operand_refusal(*index, span, iterated) is None,
                    PlaceElem::Slice => false,
                }));
            } else {
                assert(read_refusal(read.place, span, iterated) is None <==> read.place.projection@.len() == 0);
            }
        },
    }
}

proof fn operands_agree(operands: Seq<Operand>, from: int, span: HirSourceSpan, iterated: Set<LocalId>)
    requires
        0 <= from,
    ensures
        operands_refusal(operands, from, span, iterated) is None <==> forall|i: int|
            from <= i < operands.len() ==> #[trigger] readable(operands[i], iterated),
    decreases operands.len() - from,
{
    if from < operands.len() {
        let first = operands[from];
        operand_agrees(&first, span, iterated);
        operands_agree(operands, from + 1, span, iterated);
        if operands_refusal(operands, from, span, iterated) is None {
            assert forall|i: int| from <= i < operands.len() implies #[trigger] readable(operands[i], iterated) by {}
        } else if forall|i: int| from <= i < operands.len() ==> #[trigger] readable(operands[i], iterated) {
            assert(readable(operands[from], iterated));
        }
    }
}

proof fn elements_agree(elements: Seq<ArgumentElement>, span: HirSourceSpan, iterated: Set<LocalId>)
    ensures
        all_single(elements) && operands_refusal(element_operands(elements), 0, span, iterated) is None <==> plain(
            elements,
            iterated,
        ),
{
    let operands = element_operands(elements);
    operands_agree(operands, 0, span, iterated);
    if all_single(elements) && operands_refusal(operands, 0, span, iterated) is None {
        assert forall|i: int| 0 <= i < elements.len() implies (#[trigger] elements[i] matches ArgumentElement::One(
            operand,
        ) && readable(operand, iterated)) by {
            assert(readable(operands[i], iterated));
        }
    }
    if plain(elements, iterated) {
        assert forall|i: int| 0 <= i < operands.len() implies #[trigger] readable(operands[i], iterated) by {
            assert(elements[i] is One);
        }
        assert forall|i: int| 0 <= i < elements.len() implies (#[trigger] elements[i]) is One by {}
    }
}

proof fn call_agrees(callee: &Callee, args: Seq<ArgumentElement>, span: HirSourceSpan, iterated: Set<LocalId>)
    ensures
        call_refusal(*callee, args, span, iterated) is None <==> plain(args, iterated) && callable(
            *callee,
            args.len(),
            iterated,
        ),
{
    elements_agree(args, span, iterated);
    match callee {
        Callee::Function(CallableTarget::Local(target)) => {
            operand_is_place(target, span, iterated);
        },
        Callee::Method(target) => {
            reveal_strlit("collect");
            reveal_strlit("map");
            reveal_strlit("filter");
            assert("collect"@.len() == 7 && "map"@.len() == 3 && "filter"@.len() == 6);
        },
        _ => {},
    }
}

proof fn operand_is_place(target: &LocalCallableTarget, span: HirSourceSpan, iterated: Set<LocalId>)
    ensures
        operand_refusal(Operand::Place(target.operand), span, iterated) is None <==> readable(
            Operand::Place(target.operand),
            iterated,
        ),
{
    operand_agrees(&Operand::Place(target.operand), span, iterated);
}

proof fn items_agree(
    elements: Seq<ArgumentElement>,
    from: int,
    span: HirSourceSpan,
    iterated: Set<LocalId>,
    pairs: Set<LocalId>,
)
    requires
        0 <= from,
    ensures
        list_items_refusal(element_operands(elements), from, span, iterated, pairs) is None <==> forall|i: int|
            from <= i < elements.len() ==> (element_operand(#[trigger] elements[i]) matches Operand::Place(read)
                && read.place.projection@.len() == 0 && pairs.contains(read.place.local) && readable(
                element_operand(elements[i]),
                iterated,
            )),
    decreases elements.len() - from,
{
    let operands = element_operands(elements);
    if from < elements.len() {
        let first = operands[from];
        operand_agrees(&first, span, iterated);
        items_agree(elements, from + 1, span, iterated, pairs);
        assert(operands[from] == element_operand(elements[from]));
    }
}

proof fn aggregate_agrees(
    kind: &AggregateKind,
    elements: Seq<ArgumentElement>,
    span: HirSourceSpan,
    iterated: Set<LocalId>,
    pairs: Set<LocalId>,
    destination: LocalId,
)
    ensures
        aggregate_refusal(*kind, elements, span, iterated, pairs, destination) is None <==> buildable(
            *kind,
            elements,
            iterated,
            pairs,
            destination,
        ),
{
    elements_agree(elements, span, iterated);
    items_agree(elements, 0, span, iterated, pairs);
    operands_agree(element_operands(elements), 0, span, iterated);
    if kind is List && all_single(elements) {
        if list_items_refusal(element_operands(elements), 0, span, iterated, pairs) is None {
            assert forall|i: int| 0 <= i < elements.len() implies (#[trigger] elements[i] matches ArgumentElement::One(
                operand,
            ) && readable(operand, iterated)) by {
                assert(elements[i] is One);
            }
        }
        if buildable(*kind, elements, iterated, pairs, destination) {
            assert forall|i: int| 0 <= i < elements.len() implies readable(
                element_operand(#[trigger] elements[i]),
                iterated,
            ) by {}
        }
    }
}

/// A run of statements is refused exactly where one of them is not admitted, wherever it stands, and a statement exactly
/// where anything in it is not.
pub proof fn law_profile_refuses_what_it_does_not_admit(
    stmts: Seq<Statement>,
    from: int,
    generates: bool,
    iterated: Set<LocalId>,
    pairs: Set<LocalId>,
)
    requires
        0 <= from,
    ensures
        (if generates {
            generator_refusal(stmts, from, iterated, pairs)
        } else {
            statements_refusal(stmts, from, iterated, pairs)
        }) is None <==> forall|i: int|
            from <= i < stmts.len() ==> admits(#[trigger] stmts[i], generates, iterated, pairs),
    decreases stmts, stmts.len() - from,
{
    if from < stmts.len() {
        statement_agrees(stmts[from], generates, iterated, pairs);
        law_profile_refuses_what_it_does_not_admit(stmts, from + 1, generates, iterated, pairs);
    }
}

proof fn statement_agrees(statement: Statement, generates: bool, iterated: Set<LocalId>, pairs: Set<LocalId>)
    ensures
        (if generates {
            generator_statement_refusal(statement, iterated, pairs)
        } else {
            statement_refusal(statement, iterated, pairs)
        }) is None <==> admits(statement, generates, iterated, pairs),
    decreases statement, 2int,
{
    let span = statement.span;
    match &statement.kind {
        StatementKind::Assign { place, rvalue } => {
            assert(statement_refusal(statement, iterated, pairs) is None <==> bare_refusal(*place, span) is None
                && rvalue_refusal(*rvalue, span, iterated, pairs, place.local) is None);
            rvalue_agrees(rvalue, span, iterated, pairs, place.local);
        },
        StatementKind::Call { destination, callee, args, .. } => {
            assert(statement_refusal(statement, iterated, pairs) is None <==> (destination matches Some(place)
                && bare_refusal(*place, span) is None && call_refusal(*callee, args@, span, iterated) is None));
            call_agrees(callee, args@, span, iterated);
        },
        StatementKind::If { cond, then_block, else_block } => {
            operand_agrees(cond, span, iterated);
            law_profile_refuses_what_it_does_not_admit(then_block.stmts@, 0, generates, iterated, pairs);
            match else_block {
                Some(block) => {
                    law_profile_refuses_what_it_does_not_admit(block.stmts@, 0, generates, iterated, pairs);
                },
                None => {},
            }
        },
        StatementKind::Loop { body } => {
            law_profile_refuses_what_it_does_not_admit(body.stmts@, 0, generates, iterated, pairs);
        },
        StatementKind::Return { value } => {
            assert(statement_refusal(statement, iterated, pairs) == optional_refusal(*value, span, iterated));
            optional_agrees(value, span, iterated);
        },
        StatementKind::Assert { cond, message, .. } => {
            operand_agrees(cond, span, iterated);
            optional_agrees(message, span, iterated);
            assert(statement_refusal(statement, iterated, pairs) is None <==> operand_refusal(*cond, span, iterated)
                is None && optional_refusal(*message, span, iterated) is None);
        },
        StatementKind::Expr { value } => {
            operand_agrees(value, span, iterated);
            assert(statement_refusal(statement, iterated, pairs) == operand_refusal(*value, span, iterated));
        },
        StatementKind::Yield { value } => {
            operand_agrees(value, span, iterated);
            assert(statement_refusal(statement, iterated, pairs) is Some);
        },
        StatementKind::IterNext { destination, iterator, protocol } => {
            operand_agrees(iterator, span, iterated);
            assert(statement_refusal(statement, iterated, pairs) is None <==> protocol is Builtin && bare_refusal(
                *destination,
                span,
            ) is None && operand_refusal(*iterator, span, iterated) is None);
        },
        _ => {
            assert(statement_refusal(statement, iterated, pairs) is None <==> admits(
                statement,
                generates,
                iterated,
                pairs,
            ));
        },
    }
}

proof fn optional_agrees(operand: &Option<Operand>, span: HirSourceSpan, iterated: Set<LocalId>)
    ensures
        optional_refusal(*operand, span, iterated) is None <==> (*operand matches Some(operand) ==> readable(
            operand,
            iterated,
        )),
{
    match operand {
        Some(operand) => operand_agrees(operand, span, iterated),
        None => {},
    }
}

proof fn rvalue_agrees(
    rvalue: &Rvalue,
    span: HirSourceSpan,
    iterated: Set<LocalId>,
    pairs: Set<LocalId>,
    destination: LocalId,
)
    ensures
        rvalue_refusal(*rvalue, span, iterated, pairs, destination) is None <==> computable(
            *rvalue,
            iterated,
            pairs,
            destination,
        ),
    decreases rvalue, 1int,
{
    match rvalue {
        Rvalue::Use(operand) => operand_agrees(operand, span, iterated),
        Rvalue::UnaryOp(_, operand) => operand_agrees(operand, span, iterated),
        Rvalue::BinaryOp(_, left, right) => {
            operand_agrees(left, span, iterated);
            operand_agrees(right, span, iterated);
        },
        Rvalue::Aggregate(kind, elements) => {
            aggregate_agrees(kind, elements@, span, iterated, pairs, destination);
        },
        Rvalue::Closure { params, captured_operands, body } => {
            law_parameters_are_refused_or_bindable(params@);
            operands_agree(captured_operands@, 0, span, iterated);
            law_profile_refuses_what_it_does_not_admit(body.stmts@, 0, false, iterated, pairs);
            operand_agrees(&body.result, span, iterated);
        },
        Rvalue::Generator { source, captured_operands, body } => {
            operand_agrees(source, span, iterated);
            operands_agree(captured_operands@, 0, span, iterated);
            law_profile_refuses_what_it_does_not_admit(body.stmts@, 0, true, iterated, pairs);
        },
        Rvalue::Format(_) | Rvalue::Match { .. } => {},
    }
}

/// The parameters of a callable are refused exactly where two share a local or a default is not admitted.
pub proof fn law_parameters_are_refused_or_bindable(params: Seq<CallableParam>)
    ensures
        params_refusal(params, 0) is None <==> bindable(params),
    decreases params, params.len() + 1,
{
    params_agree(params, 0);
    if params_refusal(params, 0) is None {
        assert forall|i: int, j: int| 0 <= i < j < params.len() implies (#[trigger] params[i]).local != (
        #[trigger] params[j]).local by {
            assert(!repeats_local(params, j) && defaults(params[j].default));
        }
    } else if bindable(params) {
        assert forall|j: int| 0 <= j < params.len() implies !repeats_local(params, j) && defaults(
            (#[trigger] params[j]).default,
        ) by {}
    }
}

proof fn params_agree(params: Seq<CallableParam>, from: int)
    requires
        0 <= from,
    ensures
        params_refusal(params, from) is None <==> forall|i: int|
            from <= i < params.len() ==> !repeats_local(params, i) && defaults((#[trigger] params[i]).default),
    decreases params, params.len() - from,
{
    if from < params.len() {
        default_agrees(params[from].default);
        params_agree(params, from + 1);
    }
}

proof fn default_agrees(default: CallableParamDefault)
    ensures
        default_refusal(default) is None <==> defaults(default),
    decreases default, 0int,
{
    match &default {
        CallableParamDefault::Source(computation) => {
            law_profile_refuses_what_it_does_not_admit(computation.stmts@, 0, false, Set::empty(), Set::empty());
            operand_agrees(&computation.result, computation.span, Set::empty());
        },
        _ => {},
    }
}

} // verus!
