//! The admitted profile: what is checked of a body before any of it executes.

use crate::body_ir::{
    AggregateKind, ArgumentBinding, ArgumentElement, Block, BoundArgument, CallableParam, CallableParamDefault,
    CallableTarget, Callee, GeneratorBody, HelperOp, HirSourceSpan, IterProtocol, LocalId, Operand, OwnershipFact,
    Place, PlaceElem, Rvalue, Statement, StatementKind,
};
use crate::replacement::error::{unsupported, ErrorModel, ReplacementExecutionError};
use crate::replacement::value::scalar;
use crate::text::same_text;
use vstd::prelude::*;

verus! {

broadcast use vstd::string::group_string_axioms;

/// What a check says: nothing, or the refusal.
pub open spec fn verdict(outcome: Result<(), ReplacementExecutionError>) -> Option<ErrorModel> {
    match outcome {
        Ok(_) => None,
        Err(error) => Some(error@),
    }
}

/// The refusal of a construct at a place in the source.
pub open spec fn refuse(description: Seq<char>, span: HirSourceSpan) -> Option<ErrorModel> {
    Some(ErrorModel::Unsupported(description, span))
}

// ---------------------------------------------------------------------------
// Sets of locals
// ---------------------------------------------------------------------------

/// A set of locals.
pub struct LocalSet {
    items: Vec<LocalId>,
}

impl View for LocalSet {
    type V = Set<LocalId>;

    closed spec fn view(&self) -> Set<LocalId> {
        self.items@.to_set()
    }
}

impl LocalSet {
    /// The empty set.
    pub fn new() -> (set: Self)
        ensures
            set@ == Set::<LocalId>::empty(),
    {
        let set = LocalSet { items: Vec::new() };
        proof {
            assert(set@ =~= Set::<LocalId>::empty());
        }
        set
    }

    /// Whether a local is in the set.
    pub fn contains(&self, local: LocalId) -> (found: bool)
        ensures
            found == self@.contains(local),
    {
        let mut i: usize = 0;
        while i < self.items.len()
            invariant
                i <= self.items@.len(),
                forall|j: int| 0 <= j < i ==> self.items@[j] != local,
            decreases self.items@.len() - i,
        {
            if self.items[i] == local {
                proof {
                    assert(self.items@.contains(self.items@[i as int]));
                }
                return true;
            }
            i += 1;
        }
        false
    }

    /// Adds a local and says whether it was not yet in the set.
    pub fn insert(&mut self, local: LocalId) -> (added: bool)
        ensures
            final(self)@ == old(self)@.insert(local),
            added == !old(self)@.contains(local),
    {
        if self.contains(local) {
            proof {
                assert(self@.insert(local) =~= self@);
            }
            return false;
        }
        let ghost before = self.items@;
        self.items.push(local);
        proof {
            assert forall|l: LocalId| self.items@.contains(l) <==> before.contains(l) || l == local by {
                if before.contains(l) {
                    let k = choose|k: int| 0 <= k < before.len() && before[k] == l;
                    assert(self.items@[k] == l);
                }
                if l == local {
                    assert(self.items@[before.len() as int] == l);
                }
            }
            assert(self@ =~= old(self)@.insert(local));
        }
        true
    }

    /// The locals that are in both sets.
    pub fn intersection(&self, other: &LocalSet) -> (both: LocalSet)
        ensures
            both@ == self@.intersect(other@),
    {
        let mut both = LocalSet::new();
        let mut i: usize = 0;
        while i < self.items.len()
            invariant
                i <= self.items@.len(),
                forall|l: LocalId|
                    #[trigger] both@.contains(l) <==> other@.contains(l) && exists|j: int|
                        0 <= j < i && self.items@[j] == l,
            decreases self.items@.len() - i,
        {
            let local: LocalId = self.items[i];
            let ghost before = both@;
            if other.contains(local) {
                let _ = both.insert(local);
            }
            proof {
                assert forall|l: LocalId| #[trigger]
                    both@.contains(l) <==> other@.contains(l) && exists|j: int|
                        0 <= j < i + 1 && self.items@[j] == l by {
                    if other@.contains(l) && exists|j: int| 0 <= j < i + 1 && self.items@[j] == l {
                        let j = choose|j: int| 0 <= j < i + 1 && self.items@[j] == l;
                        if j < i {
                            assert(before.contains(l));
                        }
                    }
                    if before.contains(l) {
                        let j = choose|j: int| 0 <= j < i && self.items@[j] == l;
                        assert(self.items@[j] == l);
                    }
                    if l == local {
                        assert(self.items@[i as int] == l);
                    }
                }
            }
            i += 1;
        }
        proof {
            assert(both@ =~= self@.intersect(other@));
        }
        both
    }
}

// ---------------------------------------------------------------------------
// Labels
// ---------------------------------------------------------------------------

/// The name of a compiler-owned helper.
pub open spec fn helper_spelling(helper: HelperOp) -> Seq<char> {
    match helper {
        HelperOp::StrConcat => "str_concat"@,
        HelperOp::StrEq => "str_eq"@,
        HelperOp::StrNe => "str_ne"@,
        HelperOp::StrLt => "str_lt"@,
        HelperOp::StrLe => "str_le"@,
        HelperOp::StrGt => "str_gt"@,
        HelperOp::StrGe => "str_ge"@,
        HelperOp::ListConcat => "list_concat"@,
    }
}

/// Names a compiler-owned helper.
pub fn helper_label(helper: HelperOp) -> (label: &'static str)
    ensures
        label@ == helper_spelling(helper),
{
    match helper {
        HelperOp::StrConcat => "str_concat",
        HelperOp::StrEq => "str_eq",
        HelperOp::StrNe => "str_ne",
        HelperOp::StrLt => "str_lt",
        HelperOp::StrLe => "str_le",
        HelperOp::StrGt => "str_gt",
        HelperOp::StrGe => "str_ge",
        HelperOp::ListConcat => "list_concat",
    }
}

/// The name of a callee in diagnostics.
pub open spec fn callee_spelling(callee: Callee) -> Seq<char> {
    match callee {
        Callee::Function(CallableTarget::Named(target)) => "function `"@ + target.name@ + "`"@,
        Callee::Function(CallableTarget::Local(target)) => "function `"@ + target.label@ + "`"@,
        Callee::Method(target) => "method `"@ + target.name@ + "`"@,
        Callee::Helper(helper) => "runtime helper `"@ + helper_spelling(helper) + "`"@,
        Callee::ProviderOperation(plan) => "provider operation `"@ + plan.operation.declaration_name@ + "`"@,
    }
}

/// Names a callee in diagnostics.
pub fn callee_label(callee: &Callee) -> (label: String)
    ensures
        label@ == callee_spelling(*callee),
{
    match callee {
        Callee::Function(CallableTarget::Named(target)) => "function `".to_owned().concat(
            target.name.as_str(),
        ).concat("`"),
        Callee::Function(CallableTarget::Local(target)) => "function `".to_owned().concat(
            target.label.as_str(),
        ).concat("`"),
        Callee::Method(target) => "method `".to_owned().concat(target.name.as_str()).concat("`"),
        Callee::Helper(helper) => "runtime helper `".to_owned().concat(helper_label(*helper)).concat("`"),
        Callee::ProviderOperation(plan) => "provider operation `".to_owned().concat(
            plan.operation.declaration_name.as_str(),
        ).concat("`"),
    }
}

/// The name of an aggregate kind in diagnostics.
pub open spec fn aggregate_spelling(kind: AggregateKind) -> Seq<char> {
    match kind {
        AggregateKind::Tuple => "tuple"@,
        AggregateKind::List => "list"@,
        AggregateKind::Dict => "dict"@,
        AggregateKind::SetLiteral => "set"@,
        AggregateKind::Constructor(_) => "constructor"@,
    }
}

/// Names an aggregate kind in diagnostics.
pub fn aggregate_label(kind: &AggregateKind) -> (label: &'static str)
    ensures
        label@ == aggregate_spelling(*kind),
{
    match kind {
        AggregateKind::Tuple => "tuple",
        AggregateKind::List => "list",
        AggregateKind::Dict => "dict",
        AggregateKind::SetLiteral => "set",
        AggregateKind::Constructor(_) => "constructor",
    }
}

// ---------------------------------------------------------------------------
// Places, operands and element lists
// ---------------------------------------------------------------------------

/// The refusal of a place that is more than a bare local.
pub open spec fn bare_refusal(place: Place, span: HirSourceSpan) -> Option<ErrorModel> {
    if place.projection@.len() == 0 {
        None
    } else {
        refuse("place projection"@, span)
    }
}

/// The local of a bare place.
pub fn bare_local(place: &Place, span: HirSourceSpan) -> (local: Result<LocalId, ReplacementExecutionError>)
    ensures
        match local {
            Ok(l) => l == place.local && bare_refusal(*place, span) is None,
            Err(error) => bare_refusal(*place, span) == Some(error@),
        },
{
    if place.projection.is_empty() {
        Ok(place.local)
    } else {
        Err(unsupported("place projection", span))
    }
}

/// Checks that a place is a bare local.
pub fn validate_bare_local(place: &Place, span: HirSourceSpan) -> (outcome: Result<(), ReplacementExecutionError>)
    ensures
        verdict(outcome) == bare_refusal(*place, span),
{
    match bare_local(place, span) {
        Ok(_) => Ok(()),
        Err(error) => Err(error),
    }
}

/// Whether a field name is one of the two numeric tuple fields.
pub open spec fn tuple_field(field: Seq<char>) -> bool {
    field == "0"@ || field == "1"@
}

/// Decides whether a field name is one of the two numeric tuple fields.
pub fn is_tuple_field(field: &str) -> (yes: bool)
    ensures
        yes == tuple_field(field@),
{
    same_text(field, "0") || same_text(field, "1")
}

/// The refusal of a read: only bare locals, the numeric fields of an iterated pair, and one index are admitted.
pub open spec fn read_refusal(place: Place, span: HirSourceSpan, iterated: Set<LocalId>) -> Option<ErrorModel>
    decreases place,
{
    if place.projection@.len() == 0 {
        None
    } else if place.projection@.len() == 1 {
        match place.projection@[0] {
            PlaceElem::Field(field) => if !tuple_field(field@) {
                refuse(
                    "non-numeric tuple field projection outside the scalar tuple collection profile"@,
                    span,
                )
            } else if iterated.contains(place.local) {
                None
            } else {
                refuse("tuple field projection outside a scalar tuple collection iteration"@, span)
            },
            PlaceElem::Index(index) => operand_refusal(*index, span, iterated),
            PlaceElem::Slice => refuse("slice projection outside the scalar tuple collection profile"@, span),
        }
    } else {
        refuse("nested place projection outside the scalar tuple collection profile"@, span)
    }
}

/// The refusal of an operand.
pub open spec fn operand_refusal(operand: Operand, span: HirSourceSpan, iterated: Set<LocalId>) -> Option<ErrorModel>
    decreases operand,
{
    match operand {
        Operand::Constant(_) => None,
        Operand::Place(read) => match read_refusal(read.place, span, iterated) {
            Some(error) => Some(error),
            None => if read.fact is Unknown {
                refuse("unknown ownership fact"@, span)
            } else {
                None
            },
        },
    }
}

/// Admits only the one-level numeric tuple fields of iterated pairs, and one index.
fn validate_read_place(place: &Place, span: HirSourceSpan, iterated: &LocalSet) -> (outcome: Result<
    (),
    ReplacementExecutionError,
>)
    ensures
        verdict(outcome) == read_refusal(*place, span, iterated@),
    decreases place,
{
    if place.projection.is_empty() {
        return Ok(());
    }
    if place.projection.len() > 1 {
        return Err(unsupported("nested place projection outside the scalar tuple collection profile", span));
    }
    match &place.projection[0] {
        PlaceElem::Field(field) => if !is_tuple_field(field.as_str()) {
            Err(
                unsupported("non-numeric tuple field projection outside the scalar tuple collection profile", span),
            )
        } else if iterated.contains(place.local) {
            Ok(())
        } else {
            Err(unsupported("tuple field projection outside a scalar tuple collection iteration", span))
        },
        PlaceElem::Index(index) => validate_operand_profile(index, span, iterated),
        PlaceElem::Slice => Err(unsupported("slice projection outside the scalar tuple collection profile", span)),
    }
}

/// Checks an operand's place shape and ownership decision.
pub fn validate_operand_profile(operand: &Operand, span: HirSourceSpan, iterated: &LocalSet) -> (outcome: Result<
    (),
    ReplacementExecutionError,
>)
    ensures
        verdict(outcome) == operand_refusal(*operand, span, iterated@),
    decreases operand,
{
    match operand {
        Operand::Constant(_) => Ok(()),
        Operand::Place(read) => {
            validate_read_place(&read.place, span, iterated)?;
            if matches!(read.fact, OwnershipFact::Unknown) {
                return Err(unsupported("unknown ownership fact", span));
            }
            Ok(())
        },
    }
}

/// Whether no element of a list splices.
pub open spec fn all_single(elements: Seq<ArgumentElement>) -> bool {
    forall|i: int| 0 <= i < elements.len() ==> (#[trigger] elements[i]) is One
}

/// The operand of one element.
pub open spec fn element_operand(element: ArgumentElement) -> Operand {
    match element {
        ArgumentElement::One(operand) => operand,
        ArgumentElement::Spread(operand) => operand,
    }
}

/// The operands of a list of elements.
pub open spec fn element_operands(elements: Seq<ArgumentElement>) -> Seq<Operand> {
    Seq::new(elements.len(), |i: int| element_operand(elements[i]))
}

/// The operands that a list of references denotes.
pub open spec fn denoted(operands: Seq<&Operand>) -> Seq<Operand> {
    Seq::new(operands.len(), |i: int| *operands[i])
}

/// The fixed operands of an element list, or `None` when any element splices.
pub fn fixed_operands(elements: &Vec<ArgumentElement>) -> (operands: Option<Vec<&Operand>>)
    ensures
        match operands {
            Some(fixed) => all_single(elements@) && denoted(fixed@) == element_operands(elements@),
            None => !all_single(elements@),
        },
{
    let mut fixed: Vec<&Operand> = Vec::new();
    let mut i: usize = 0;
    while i < elements.len()
        invariant
            i <= elements@.len(),
            fixed@.len() == i,
            forall|j: int| 0 <= j < i ==> (#[trigger] elements@[j]) is One,
            forall|j: int| 0 <= j < i ==> *(#[trigger] fixed@[j]) == element_operand(elements@[j]),
        decreases elements@.len() - i,
    {
        match &elements[i] {
            ArgumentElement::One(operand) => fixed.push(operand),
            ArgumentElement::Spread(_) => {
                proof {
                    assert(!(elements@[i as int] is One));
                }
                return None;
            },
        }
        i += 1;
    }
    proof {
        assert(denoted(fixed@) =~= element_operands(elements@));
    }
    Some(fixed)
}

/// The first refusal among operands from a place in the run on.
pub open spec fn operands_refusal(
    operands: Seq<Operand>,
    from: int,
    span: HirSourceSpan,
    iterated: Set<LocalId>,
) -> Option<ErrorModel>
    decreases operands.len() - from,
{
    if from < 0 || from >= operands.len() {
        None
    } else {
        match operand_refusal(operands[from], span, iterated) {
            Some(error) => Some(error),
            None => operands_refusal(operands, from + 1, span, iterated),
        }
    }
}

/// Checks a run of operands.
fn validate_operands(operands: &Vec<Operand>, span: HirSourceSpan, iterated: &LocalSet) -> (outcome: Result<
    (),
    ReplacementExecutionError,
>)
    ensures
        verdict(outcome) == operands_refusal(operands@, 0, span, iterated@),
{
    let mut i: usize = 0;
    while i < operands.len()
        invariant
            i <= operands@.len(),
            operands_refusal(operands@, 0, span, iterated@) == operands_refusal(
                operands@,
                i as int,
                span,
                iterated@,
            ),
        decreases operands@.len() - i,
    {
        validate_operand_profile(&operands[i], span, iterated)?;
        i += 1;
    }
    Ok(())
}

/// Checks a run of referenced operands.
fn validate_operand_refs(operands: &Vec<&Operand>, span: HirSourceSpan, iterated: &LocalSet) -> (outcome: Result<
    (),
    ReplacementExecutionError,
>)
    ensures
        verdict(outcome) == operands_refusal(denoted(operands@), 0, span, iterated@),
{
    let mut i: usize = 0;
    while i < operands.len()
        invariant
            i <= operands@.len(),
            operands_refusal(denoted(operands@), 0, span, iterated@) == operands_refusal(
                denoted(operands@),
                i as int,
                span,
                iterated@,
            ),
        decreases operands@.len() - i,
    {
        validate_operand_profile(operands[i], span, iterated)?;
        i += 1;
    }
    Ok(())
}

// ---------------------------------------------------------------------------
// Calls
// ---------------------------------------------------------------------------

/// Whether a binding names every slot and every written position at most once.
pub open spec fn distinct_arguments(arguments: Seq<BoundArgument>) -> bool {
    forall|i: int, j: int|
        0 <= i < j < arguments.len() ==> (#[trigger] arguments[i]).slot != (#[trigger] arguments[j]).slot
            && arguments[i].written_position != arguments[j].written_position
}

/// Whether a binding is one that a dispatcher can carry out.
pub open spec fn dispatchable(binding: ArgumentBinding) -> bool {
    binding matches ArgumentBinding::Resolved { arguments, .. } && distinct_arguments(arguments@)
}

/// Decides whether a binding is one that a dispatcher can carry out.
pub fn validate_argument_binding_profile(binding: &ArgumentBinding) -> (yes: bool)
    ensures
        yes == dispatchable(*binding),
{
    match binding {
        ArgumentBinding::UnresolvedPositional => false,
        ArgumentBinding::Resolved { arguments, .. } => {
            let mut i: usize = 0;
            while i < arguments.len()
                invariant
                    i <= arguments@.len(),
                    forall|a: int, b: int|
                        0 <= a < b < i ==> (#[trigger] arguments@[a]).slot != (#[trigger] arguments@[b]).slot
                            && arguments@[a].written_position != arguments@[b].written_position,
                    *binding matches ArgumentBinding::Resolved { arguments: all, .. } && all == *arguments,
                decreases arguments@.len() - i,
            {
                let mut j: usize = 0;
                while j < i
                    invariant
                        j <= i < arguments@.len(),
                        forall|a: int|
                            0 <= a < j ==> (#[trigger] arguments@[a]).slot != arguments@[i as int].slot
                                && arguments@[a].written_position != arguments@[i as int].written_position,
                        *binding matches ArgumentBinding::Resolved { arguments: all, .. } && all == *arguments,
                    decreases i - j,
                {
                    if arguments[j].slot == arguments[i].slot || arguments[j].written_position
                        == arguments[i].written_position {
                        return false;
                    }
                    j += 1;
                }
                i += 1;
            }
            true
        },
    }
}

/// Whether a callee with fixed arguments is one that the executor dispatches.
pub open spec fn dispatched(callee: Callee, count: nat) -> bool {
    match callee {
        Callee::Helper(HelperOp::StrConcat) => true,
        Callee::Function(CallableTarget::Named(target)) => target.name@ == "range"@ || dispatchable(target.binding),
        Callee::Function(CallableTarget::Local(target)) => dispatchable(target.binding),
        Callee::Method(target) => if target.name@ == "collect"@ {
            count == 1
        } else if target.name@ == "map"@ || target.name@ == "filter"@ {
            count == 2 && (target.binding is UnresolvedPositional || dispatchable(target.binding))
        } else {
            false
        },
        _ => false,
    }
}

/// The refusal of a call.
pub open spec fn call_refusal(
    callee: Callee,
    args: Seq<ArgumentElement>,
    span: HirSourceSpan,
    iterated: Set<LocalId>,
) -> Option<ErrorModel> {
    if !all_single(args) {
        refuse("call to "@ + callee_spelling(callee) + " with a spread argument"@, span)
    } else {
        let receiver = match callee {
            Callee::Function(CallableTarget::Local(target)) => operand_refusal(
                Operand::Place(target.operand),
                span,
                iterated,
            ),
            _ => None,
        };
        match receiver {
            Some(error) => Some(error),
            None => if !dispatched(callee, args.len()) {
                refuse("call to "@ + callee_spelling(callee), span)
            } else {
                operands_refusal(element_operands(args), 0, span, iterated)
            },
        }
    }
}

/// Checks one call before the executor dispatches it.
fn validate_call_profile(
    callee: &Callee,
    args: &Vec<ArgumentElement>,
    span: HirSourceSpan,
    iterated: &LocalSet,
) -> (outcome: Result<(), ReplacementExecutionError>)
    ensures
        verdict(outcome) == call_refusal(*callee, args@, span, iterated@),
{
    let fixed: Vec<&Operand> = match fixed_operands(args) {
        Some(fixed) => fixed,
        None => {
            return Err(
                unsupported(
                    "call to ".to_owned().concat(callee_label(callee).as_str()).concat(
                        " with a spread argument",
                    ).as_str(),
                    span,
                ),
            );
        },
    };
    proof {
        assert(fixed@.len() == denoted(fixed@).len());
        assert(args@.len() == element_operands(args@).len());
    }
    let supported: bool = match callee {
        Callee::Helper(HelperOp::StrConcat) => true,
        Callee::Function(CallableTarget::Named(target)) => same_text(target.name.as_str(), "range")
            || validate_argument_binding_profile(&target.binding),
        Callee::Function(CallableTarget::Local(target)) => {
            validate_read_place(&target.operand.place, span, iterated)?;
            if matches!(target.operand.fact, OwnershipFact::Unknown) {
                return Err(unsupported("unknown ownership fact", span));
            }
            validate_argument_binding_profile(&target.binding)
        },
        Callee::Method(target) => if same_text(target.name.as_str(), "collect") {
            fixed.len() == 1
        } else if same_text(target.name.as_str(), "map") || same_text(target.name.as_str(), "filter") {
            fixed.len() == 2 && (matches!(target.binding, ArgumentBinding::UnresolvedPositional)
                || validate_argument_binding_profile(&target.binding))
        } else {
            false
        },
        _ => false,
    };
    if !supported {
        return Err(unsupported("call to ".to_owned().concat(callee_label(callee).as_str()).as_str(), span));
    }
    validate_operand_refs(&fixed, span, iterated)
}

// ---------------------------------------------------------------------------
// Aggregates
// ---------------------------------------------------------------------------

/// The first refusal among the items of a list aggregate from a place in the run on: every item must be a bare
/// local that holds a pair built for a list.
pub open spec fn list_items_refusal(
    operands: Seq<Operand>,
    from: int,
    span: HirSourceSpan,
    iterated: Set<LocalId>,
    pairs: Set<LocalId>,
) -> Option<ErrorModel>
    decreases operands.len() - from,
{
    if from < 0 || from >= operands.len() {
        None
    } else {
        let item = match operands[from] {
            Operand::Constant(_) => refuse(
                "list aggregate outside the list[tuple[scalar, scalar]] profile"@,
                span,
            ),
            Operand::Place(read) => if read.place.projection@.len() != 0 || !pairs.contains(read.place.local) {
                refuse("list aggregate outside the list[tuple[scalar, scalar]] profile"@, span)
            } else {
                operand_refusal(operands[from], span, iterated)
            },
        };
        match item {
            Some(error) => Some(error),
            None => list_items_refusal(operands, from + 1, span, iterated, pairs),
        }
    }
}

/// The refusal of an aggregate.
pub open spec fn aggregate_refusal(
    kind: AggregateKind,
    elements: Seq<ArgumentElement>,
    span: HirSourceSpan,
    iterated: Set<LocalId>,
    pairs: Set<LocalId>,
    destination: LocalId,
) -> Option<ErrorModel> {
    if !all_single(elements) {
        refuse(aggregate_spelling(kind) + " aggregate with a spread element"@, span)
    } else {
        match kind {
            AggregateKind::Tuple => if elements.len() == 2 && pairs.contains(destination) {
                operands_refusal(element_operands(elements), 0, span, iterated)
            } else {
                refuse("tuple aggregate outside the two-scalar collection-element profile"@, span)
            },
            AggregateKind::List => list_items_refusal(element_operands(elements), 0, span, iterated, pairs),
            _ => refuse(aggregate_spelling(kind) + " aggregate"@, span),
        }
    }
}

/// Checks the items of a list aggregate.
fn validate_list_items(
    operands: &Vec<&Operand>,
    span: HirSourceSpan,
    iterated: &LocalSet,
    pairs: &LocalSet,
) -> (outcome: Result<(), ReplacementExecutionError>)
    ensures
        verdict(outcome) == list_items_refusal(denoted(operands@), 0, span, iterated@, pairs@),
{
    let mut i: usize = 0;
    while i < operands.len()
        invariant
            i <= operands@.len(),
            list_items_refusal(denoted(operands@), 0, span, iterated@, pairs@) == list_items_refusal(
                denoted(operands@),
                i as int,
                span,
                iterated@,
                pairs@,
            ),
        decreases operands@.len() - i,
    {
        match operands[i] {
            Operand::Constant(_) => {
                return Err(unsupported("list aggregate outside the list[tuple[scalar, scalar]] profile", span));
            },
            Operand::Place(read) => {
                if !read.place.projection.is_empty() || !pairs.contains(read.place.local) {
                    return Err(unsupported("list aggregate outside the list[tuple[scalar, scalar]] profile", span));
                }
                validate_operand_profile(operands[i], span, iterated)?;
            },
        }
        i += 1;
    }
    Ok(())
}

/// Checks the narrow aggregate vocabulary that scalar-pair collections need.
fn validate_aggregate_profile(
    kind: &AggregateKind,
    elements: &Vec<ArgumentElement>,
    span: HirSourceSpan,
    iterated: &LocalSet,
    pairs: &LocalSet,
    destination: LocalId,
) -> (outcome: Result<(), ReplacementExecutionError>)
    ensures
        verdict(outcome) == aggregate_refusal(*kind, elements@, span, iterated@, pairs@, destination),
{
    let fixed: Vec<&Operand> = match fixed_operands(elements) {
        Some(fixed) => fixed,
        None => {
            return Err(
                unsupported(
                    aggregate_label(kind).to_owned().concat(" aggregate with a spread element").as_str(),
                    span,
                ),
            );
        },
    };
    proof {
        assert(fixed@.len() == denoted(fixed@).len());
        assert(elements@.len() == element_operands(elements@).len());
    }
    match kind {
        AggregateKind::Tuple => if fixed.len() == 2 && pairs.contains(destination) {
            validate_operand_refs(&fixed, span, iterated)
        } else {
            Err(unsupported("tuple aggregate outside the two-scalar collection-element profile", span))
        },
        AggregateKind::List => validate_list_items(&fixed, span, iterated, pairs),
        _ => Err(unsupported(aggregate_label(kind).to_owned().concat(" aggregate").as_str(), span)),
    }
}

// ---------------------------------------------------------------------------
// Statements, rvalues, callables and generators
// ---------------------------------------------------------------------------

/// The first refusal among statements from a place in the run on.
pub open spec fn statements_refusal(
    stmts: Seq<Statement>,
    from: int,
    iterated: Set<LocalId>,
    pairs: Set<LocalId>,
) -> Option<ErrorModel>
    decreases stmts, stmts.len() - from,
{
    if from < 0 || from >= stmts.len() {
        None
    } else {
        match statement_refusal(stmts[from], iterated, pairs) {
            Some(error) => Some(error),
            None => statements_refusal(stmts, from + 1, iterated, pairs),
        }
    }
}

/// The refusal of an optional operand.
pub open spec fn optional_refusal(
    operand: Option<Operand>,
    span: HirSourceSpan,
    iterated: Set<LocalId>,
) -> Option<ErrorModel> {
    match operand {
        Some(operand) => operand_refusal(operand, span, iterated),
        None => None,
    }
}

/// The refusal of one statement.
pub open spec fn statement_refusal(
    statement: Statement,
    iterated: Set<LocalId>,
    pairs: Set<LocalId>,
) -> Option<ErrorModel>
    decreases statement, 0int,
{
    let span = statement.span;
    match statement.kind {
        StatementKind::Assign { place, rvalue } => match bare_refusal(place, span) {
            Some(error) => Some(error),
            None => rvalue_refusal(rvalue, span, iterated, pairs, place.local),
        },
        StatementKind::Call { destination, callee, args, .. } => match destination {
            None => refuse("discarded call result"@, span),
            Some(place) => match bare_refusal(place, span) {
                Some(error) => Some(error),
                None => call_refusal(callee, args@, span, iterated),
            },
        },
        StatementKind::Drop { .. } => None,
        StatementKind::If { cond, then_block, else_block } => match operand_refusal(cond, span, iterated) {
            Some(error) => Some(error),
            None => match statements_refusal(then_block.stmts@, 0, iterated, pairs) {
                Some(error) => Some(error),
                None => match else_block {
                    Some(block) => statements_refusal(block.stmts@, 0, iterated, pairs),
                    None => None,
                },
            },
        },
        StatementKind::Loop { body } => statements_refusal(body.stmts@, 0, iterated, pairs),
        StatementKind::Break { value } => match value {
            Some(_) => refuse("value-carrying loop break"@, span),
            None => None,
        },
        StatementKind::Continue => None,
        StatementKind::Return { value } => optional_refusal(value, span, iterated),
        StatementKind::Assert { cond, message, .. } => match operand_refusal(cond, span, iterated) {
            Some(error) => Some(error),
            None => optional_refusal(message, span, iterated),
        },
        StatementKind::Expr { value } => operand_refusal(value, span, iterated),
        StatementKind::IterNext { destination, iterator, protocol } => match protocol {
            IterProtocol::Builtin => match bare_refusal(destination, span) {
                Some(error) => Some(error),
                None => operand_refusal(iterator, span, iterated),
            },
            IterProtocol::Method => refuse("non-range iteration"@, span),
        },
        StatementKind::Yield { .. } => refuse("generator yield"@, span),
        StatementKind::Await { .. } => refuse("async await suspension"@, span),
        StatementKind::Race { .. } => refuse("async race selection"@, span),
        StatementKind::TryPropagate { .. } => refuse("try propagation"@, span),
        StatementKind::Unsupported { description } => refuse(description@, span),
    }
}

/// The refusal of an rvalue.
pub open spec fn rvalue_refusal(
    rvalue: Rvalue,
    span: HirSourceSpan,
    iterated: Set<LocalId>,
    pairs: Set<LocalId>,
    destination: LocalId,
) -> Option<ErrorModel>
    decreases rvalue, 0int,
{
    match rvalue {
        Rvalue::Use(operand) => operand_refusal(operand, span, iterated),
        Rvalue::UnaryOp(_, operand) => operand_refusal(operand, span, iterated),
        Rvalue::BinaryOp(_, left, right) => match operand_refusal(left, span, iterated) {
            Some(error) => Some(error),
            None => operand_refusal(right, span, iterated),
        },
        Rvalue::Aggregate(kind, elements) => aggregate_refusal(
            kind,
            elements@,
            span,
            iterated,
            pairs,
            destination,
        ),
        Rvalue::Format(_) => refuse("f-string"@, span),
        Rvalue::Closure { params, captured_operands, body } => if captured_operands@.len()
            != body.capture_locals@.len() {
            refuse("callable capture metadata mismatch"@, span)
        } else {
            match params_refusal(params@, 0) {
                Some(error) => Some(error),
                None => match operands_refusal(captured_operands@, 0, span, iterated) {
                    Some(error) => Some(error),
                    None => match statements_refusal(body.stmts@, 0, iterated, pairs) {
                        Some(error) => Some(error),
                        None => operand_refusal(body.result, span, iterated),
                    },
                },
            }
        },
        Rvalue::Generator { source, captured_operands, body } => match operand_refusal(source, span, iterated) {
            Some(error) => Some(error),
            None => match operands_refusal(captured_operands@, 0, span, iterated) {
                Some(error) => Some(error),
                None => generator_refusal(body.stmts@, 0, iterated, pairs),
            },
        },
        Rvalue::Match { .. } => refuse("match expression"@, span),
    }
}

/// Whether an earlier parameter of a run takes the same local.
pub open spec fn repeats_local(params: Seq<CallableParam>, at: int) -> bool {
    exists|j: int| 0 <= j < at && (#[trigger] params[j]).local == params[at].local
}

/// The first refusal among parameters from a place in the run on.
pub open spec fn params_refusal(params: Seq<CallableParam>, from: int) -> Option<ErrorModel>
    decreases params, params.len() - from,
{
    if from < 0 || from >= params.len() {
        None
    } else if repeats_local(params, from) {
        refuse("duplicate callable parameter local"@, params[from].span)
    } else {
        match default_refusal(params[from].default) {
            Some(error) => Some(error),
            None => params_refusal(params, from + 1),
        }
    }
}

/// The refusal of a parameter's default.
pub open spec fn default_refusal(default: CallableParamDefault) -> Option<ErrorModel>
    decreases default, 0int,
{
    match default {
        CallableParamDefault::Source(computation) => match statements_refusal(
            computation.stmts@,
            0,
            Set::empty(),
            Set::empty(),
        ) {
            Some(error) => Some(error),
            None => operand_refusal(computation.result, computation.span, Set::empty()),
        },
        _ => None,
    }
}

/// The first refusal among the statements of a generator from a place in the run on: yields are admitted there,
/// and returns are not.
pub open spec fn generator_refusal(
    stmts: Seq<Statement>,
    from: int,
    iterated: Set<LocalId>,
    pairs: Set<LocalId>,
) -> Option<ErrorModel>
    decreases stmts, stmts.len() - from,
{
    if from < 0 || from >= stmts.len() {
        None
    } else {
        match generator_statement_refusal(stmts[from], iterated, pairs) {
            Some(error) => Some(error),
            None => generator_refusal(stmts, from + 1, iterated, pairs),
        }
    }
}

/// The refusal of one statement of a generator.
pub open spec fn generator_statement_refusal(
    statement: Statement,
    iterated: Set<LocalId>,
    pairs: Set<LocalId>,
) -> Option<ErrorModel>
    decreases statement, 1int,
{
    let span = statement.span;
    match statement.kind {
        StatementKind::Yield { value } => operand_refusal(value, span, iterated),
        StatementKind::If { cond, then_block, else_block } => match operand_refusal(cond, span, iterated) {
            Some(error) => Some(error),
            None => match generator_refusal(then_block.stmts@, 0, iterated, pairs) {
                Some(error) => Some(error),
                None => match else_block {
                    Some(block) => generator_refusal(block.stmts@, 0, iterated, pairs),
                    None => None,
                },
            },
        },
        StatementKind::Loop { body } => generator_refusal(body.stmts@, 0, iterated, pairs),
        StatementKind::Return { .. } => refuse("return from a generator expression"@, span),
        _ => statement_refusal(statement, iterated, pairs),
    }
}

/// Checks a run of statements.
fn validate_statements(stmts: &Vec<Statement>, iterated: &LocalSet, pairs: &LocalSet) -> (outcome: Result<
    (),
    ReplacementExecutionError,
>)
    ensures
        verdict(outcome) == statements_refusal(stmts@, 0, iterated@, pairs@),
    decreases stmts, 0int,
{
    let mut i: usize = 0;
    while i < stmts.len()
        invariant
            i <= stmts@.len(),
            statements_refusal(stmts@, 0, iterated@, pairs@) == statements_refusal(
                stmts@,
                i as int,
                iterated@,
                pairs@,
            ),
        decreases stmts@.len() - i,
    {
        validate_statement_profile(&stmts[i], iterated, pairs)?;
        i += 1;
    }
    Ok(())
}

/// Checks every statement of a block before the executor starts.
pub fn validate_block_profile(block: &Block, iterated: &LocalSet, pairs: &LocalSet) -> (outcome: Result<
    (),
    ReplacementExecutionError,
>)
    ensures
        verdict(outcome) == statements_refusal(block.stmts@, 0, iterated@, pairs@),
    decreases block, 0int,
{
    validate_statements(&block.stmts, iterated, pairs)
}

/// Checks an optional operand.
fn validate_optional_operand(
    operand: &Option<Operand>,
    span: HirSourceSpan,
    iterated: &LocalSet,
) -> (outcome: Result<(), ReplacementExecutionError>)
    ensures
        verdict(outcome) == optional_refusal(*operand, span, iterated@),
{
    match operand {
        Some(operand) => validate_operand_profile(operand, span, iterated),
        None => Ok(()),
    }
}

/// Checks one statement against the profile.
fn validate_statement_profile(statement: &Statement, iterated: &LocalSet, pairs: &LocalSet) -> (outcome: Result<
    (),
    ReplacementExecutionError,
>)
    ensures
        verdict(outcome) == statement_refusal(*statement, iterated@, pairs@),
    decreases statement, 0int,
{
    let span: HirSourceSpan = statement.span;
    match &statement.kind {
        StatementKind::Assign { place, rvalue } => {
            validate_bare_local(place, span)?;
            validate_rvalue_profile(rvalue, span, iterated, pairs, place.local)
        },
        StatementKind::Call { destination, callee, args, .. } => {
            match destination {
                None => Err(unsupported("discarded call result", span)),
                Some(place) => {
                    validate_bare_local(place, span)?;
                    validate_call_profile(callee, args, span, iterated)
                },
            }
        },
        StatementKind::Drop { .. } => Ok(()),
        StatementKind::If { cond, then_block, else_block } => {
            validate_operand_profile(cond, span, iterated)?;
            validate_block_profile(then_block, iterated, pairs)?;
            match else_block {
                Some(block) => validate_block_profile(block, iterated, pairs),
                None => Ok(()),
            }
        },
        StatementKind::Loop { body } => validate_block_profile(body, iterated, pairs),
        StatementKind::Break { value } => match value {
            Some(_) => Err(unsupported("value-carrying loop break", span)),
            None => Ok(()),
        },
        StatementKind::Continue => Ok(()),
        StatementKind::Return { value } => validate_optional_operand(value, span, iterated),
        StatementKind::Assert { cond, message, .. } => {
            validate_operand_profile(cond, span, iterated)?;
            validate_optional_operand(message, span, iterated)
        },
        StatementKind::Expr { value } => validate_operand_profile(value, span, iterated),
        StatementKind::IterNext { destination, iterator, protocol } => match protocol {
            IterProtocol::Builtin => {
                validate_bare_local(destination, span)?;
                validate_operand_profile(iterator, span, iterated)
            },
            IterProtocol::Method => Err(unsupported("non-range iteration", span)),
        },
        StatementKind::Yield { .. } => Err(unsupported("generator yield", span)),
        StatementKind::Await { .. } => Err(unsupported("async await suspension", span)),
        StatementKind::Race { .. } => Err(unsupported("async race selection", span)),
        StatementKind::TryPropagate { .. } => Err(unsupported("try propagation", span)),
        StatementKind::Unsupported { description } => Err(unsupported(description.as_str(), span)),
    }
}

/// Checks one rvalue before it can be evaluated.
fn validate_rvalue_profile(
    rvalue: &Rvalue,
    span: HirSourceSpan,
    iterated: &LocalSet,
    pairs: &LocalSet,
    destination: LocalId,
) -> (outcome: Result<(), ReplacementExecutionError>)
    ensures
        verdict(outcome) == rvalue_refusal(*rvalue, span, iterated@, pairs@, destination),
    decreases rvalue, 0int,
{
    match rvalue {
        Rvalue::Use(operand) => validate_operand_profile(operand, span, iterated),
        Rvalue::UnaryOp(_, operand) => validate_operand_profile(operand, span, iterated),
        Rvalue::BinaryOp(_, left, right) => {
            validate_operand_profile(left, span, iterated)?;
            validate_operand_profile(right, span, iterated)
        },
        Rvalue::Aggregate(kind, elements) => validate_aggregate_profile(
            kind,
            elements,
            span,
            iterated,
            pairs,
            destination,
        ),
        Rvalue::Format(_) => Err(unsupported("f-string", span)),
        Rvalue::Closure { params, captured_operands, body } => {
            if captured_operands.len() != body.capture_locals.len() {
                return Err(unsupported("callable capture metadata mismatch", span));
            }
            validate_callable_params_profile(params)?;
            validate_operands(captured_operands, span, iterated)?;
            validate_statements(&body.stmts, iterated, pairs)?;
            validate_operand_profile(&body.result, span, iterated)
        },
        Rvalue::Generator { source, captured_operands, body } => {
            validate_operand_profile(source, span, iterated)?;
            validate_operands(captured_operands, span, iterated)?;
            validate_generator_body_profile(body, iterated, pairs)
        },
        Rvalue::Match { .. } => Err(unsupported("match expression", span)),
    }
}

/// Checks the call-time default contracts of a callable.
pub fn validate_callable_params_profile(params: &Vec<CallableParam>) -> (outcome: Result<
    (),
    ReplacementExecutionError,
>)
    ensures
        verdict(outcome) == params_refusal(params@, 0),
    decreases params, 0int,
{
    let mut i: usize = 0;
    while i < params.len()
        invariant
            i <= params@.len(),
            params_refusal(params@, 0) == params_refusal(params@, i as int),
        decreases params@.len() - i,
    {
        let mut j: usize = 0;
        while j < i
            invariant
                j <= i < params@.len(),
                forall|k: int| 0 <= k < j ==> (#[trigger] params@[k]).local != params@[i as int].local,
                params_refusal(params@, 0) == params_refusal(params@, i as int),
            decreases i - j,
        {
            if params[j].local == params[i].local {
                return Err(unsupported("duplicate callable parameter local", params[i].span));
            }
            j += 1;
        }
        validate_default_profile(&params[i].default)?;
        i += 1;
    }
    Ok(())
}

/// Checks the computation of a parameter's default.
fn validate_default_profile(default: &CallableParamDefault) -> (outcome: Result<(), ReplacementExecutionError>)
    ensures
        verdict(outcome) == default_refusal(*default),
    decreases default, 0int,
{
    let none: LocalSet = LocalSet::new();
    match default {
        CallableParamDefault::Source(computation) => {
            validate_statements(&computation.stmts, &none, &none)?;
            validate_operand_profile(&computation.result, computation.span, &none)
        },
        _ => Ok(()),
    }
}

/// Checks the deferred body of a generator expression.
fn validate_generator_body_profile(body: &GeneratorBody, iterated: &LocalSet, pairs: &LocalSet) -> (outcome: Result<
    (),
    ReplacementExecutionError,
>)
    ensures
        verdict(outcome) == generator_refusal(body.stmts@, 0, iterated@, pairs@),
    decreases body, 0int,
{
    validate_generator_statements_profile(&body.stmts, iterated, pairs)
}

/// Recurses through a generator's control flow while admitting its yields.
pub fn validate_generator_statements_profile(
    stmts: &Vec<Statement>,
    iterated: &LocalSet,
    pairs: &LocalSet,
) -> (outcome: Result<(), ReplacementExecutionError>)
    ensures
        verdict(outcome) == generator_refusal(stmts@, 0, iterated@, pairs@),
    decreases stmts, 0int,
{
    let mut i: usize = 0;
    while i < stmts.len()
        invariant
            i <= stmts@.len(),
            generator_refusal(stmts@, 0, iterated@, pairs@) == generator_refusal(
                stmts@,
                i as int,
                iterated@,
                pairs@,
            ),
        decreases stmts@.len() - i,
    {
        validate_generator_statement_profile(&stmts[i], iterated, pairs)?;
        i += 1;
    }
    Ok(())
}

/// Checks one statement of a generator.
fn validate_generator_statement_profile(
    statement: &Statement,
    iterated: &LocalSet,
    pairs: &LocalSet,
) -> (outcome: Result<(), ReplacementExecutionError>)
    ensures
        verdict(outcome) == generator_statement_refusal(*statement, iterated@, pairs@),
    decreases statement, 1int,
{
    match &statement.kind {
        StatementKind::Yield { value } => validate_operand_profile(value, statement.span, iterated),
        StatementKind::If { cond, then_block, else_block } => {
            validate_operand_profile(cond, statement.span, iterated)?;
            validate_generator_statements_profile(&then_block.stmts, iterated, pairs)?;
            match else_block {
                Some(block) => validate_generator_statements_profile(&block.stmts, iterated, pairs),
                None => Ok(()),
            }
        },
        StatementKind::Loop { body } => validate_generator_statements_profile(&body.stmts, iterated, pairs),
        StatementKind::Return { .. } => Err(unsupported("return from a generator expression", statement.span)),
        _ => validate_statement_profile(statement, iterated, pairs),
    }
}

} // verus!
