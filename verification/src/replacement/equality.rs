//! When two runtime values are equal: when they have the same shape and content. Callables and generators are compared
//! by what they captured and by the Body IR that they hold.

use crate::body_ir::{Body, LocalId};
use crate::likeness::{
    alike_body, alike_callable_params, alike_closure_body, alike_statements, are_alike_callable_params,
    are_alike_statements, is_alike_body, is_alike_closure_body, law_bodies_are_alike_themselves,
    law_closures_are_alike_themselves, law_parameters_are_alike_themselves, law_statements_are_alike_themselves,
};
use crate::replacement::value::{
    bindings_model, environment, lemma_environment_absent, models, CallableModel, GeneratorCursor, GeneratorModel,
    Locals, ReplacementCallable, ReplacementGenerator, ReplacementValue, ValueModel,
};
use crate::text::same_text;
use std::rc::Rc;
use vstd::prelude::*;

verus! {

broadcast use vstd::string::group_string_axioms;

// ---------------------------------------------------------------------------
// What is equal
// ---------------------------------------------------------------------------

/// Whether two values are equal.
pub open spec fn equal_values(a: ValueModel, b: ValueModel) -> bool
    decreases a,
{
    match (a, b) {
        (ValueModel::List { elements: x, next: i }, ValueModel::List { elements: y, next: j }) => equal_runs(x, y) && i
            == j,
        (ValueModel::Tuple(x), ValueModel::Tuple(y)) => equal_runs(x, y),
        (
            ValueModel::CollectedGenerator { elements: x, next: i },
            ValueModel::CollectedGenerator { elements: y, next: j },
        ) => equal_runs(x, y) && i == j,
        (ValueModel::Callable(x), ValueModel::Callable(y)) => equal_callables(x, y),
        (ValueModel::Generator(x), ValueModel::Generator(y)) => equal_generators(x, y),
        (
            ValueModel::Adapter { source: x, callback: f, kind: k },
            ValueModel::Adapter { source: y, callback: g, kind: l },
        ) => equal_values(*x, *y) && equal_callables(f, g) && k == l,
        _ => a == b,
    }
}

/// Whether two runs of values are equal.
pub open spec fn equal_runs(a: Seq<ValueModel>, b: Seq<ValueModel>) -> bool
    decreases a,
{
    a.len() == b.len() && forall|i: int| 0 <= i < a.len() ==> equal_values(#[trigger] a[i], b[i])
}

/// Whether two callables are equal.
pub open spec fn equal_callables(a: CallableModel, b: CallableModel) -> bool
    decreases a,
{
    alike_callable_params(a.params@, b.params@) && equal_captures(a.captures, b.captures) && alike_closure_body(
        *a.body,
        *b.body,
    )
}

/// Whether two runs of captured values are equal.
pub open spec fn equal_captures(a: Seq<(LocalId, ValueModel)>, b: Seq<(LocalId, ValueModel)>) -> bool
    decreases a,
{
    a.len() == b.len() && forall|i: int|
        0 <= i < a.len() ==> (#[trigger] a[i]).0 == b[i].0 && equal_values(a[i].1, b[i].1)
}

/// Whether two cursors are equal.
pub open spec fn equal_cursors(a: GeneratorCursor, b: GeneratorCursor) -> bool {
    alike_statements(a.statements@, b.statements@) && a.next == b.next && a.is_loop == b.is_loop
}

/// Whether two optional declarations are equal.
pub open spec fn equal_declarations(a: Option<Rc<Body>>, b: Option<Rc<Body>>) -> bool {
    match (a, b) {
        (Some(x), Some(y)) => alike_body(*x, *y),
        (None, None) => true,
        _ => false,
    }
}

/// Whether two suspended generators are equal.
pub open spec fn equal_generators(a: GeneratorModel, b: GeneratorModel) -> bool
    decreases a,
{
    &&& forall|local: LocalId| #[trigger] a.locals.contains_key(local) <==> b.locals.contains_key(local)
    &&& forall|local: LocalId|
        #[trigger] a.locals.contains_key(local) ==> equal_values(a.locals[local], b.locals[local])
    &&& a.cursors.len() == b.cursors.len()
    &&& forall|i: int| 0 <= i < a.cursors.len() ==> equal_cursors(#[trigger] a.cursors[i], b.cursors[i])
    &&& a.exhausted == b.exhausted
    &&& a.steps == b.steps
    &&& equal_declarations(a.named_body, b.named_body)
    &&& a.frame_evidence == b.frame_evidence
}

// ---------------------------------------------------------------------------
// Decisions
// ---------------------------------------------------------------------------

/// Decides whether two runs of values are equal.
fn are_equal_values(a: &Vec<ReplacementValue>, b: &Vec<ReplacementValue>) -> (equal: bool)
    ensures
        equal == equal_runs(models(a@), models(b@)),
    decreases a,
{
    let ghost left = models(a@);
    let ghost right = models(b@);
    if a.len() != b.len() {
        proof {
            assert(left.len() != right.len());
        }
        return false;
    }
    let mut i: usize = 0;
    while i < a.len()
        invariant
            i <= a@.len() == b@.len(),
            left == models(a@),
            right == models(b@),
            forall|j: int| 0 <= j < i ==> equal_values(#[trigger] left[j], right[j]),
        decreases a@.len() - i,
    {
        proof {
            assert(left[i as int] == a@[i as int].model());
            assert(right[i as int] == b@[i as int].model());
            assert(decreases_to!(a => a@[i as int]));
        }
        if !is_equal_value(&a[i], &b[i]) {
            proof {
                assert(!equal_values(left[i as int], right[i as int]));
            }
            return false;
        }
        i += 1;
    }
    true
}

/// Decides whether two runs of captured values are equal.
fn are_equal_captures(a: &Vec<(LocalId, ReplacementValue)>, b: &Vec<(LocalId, ReplacementValue)>) -> (equal: bool)
    ensures
        equal == equal_captures(bindings_model(a@), bindings_model(b@)),
    decreases a,
{
    let ghost left = bindings_model(a@);
    let ghost right = bindings_model(b@);
    if a.len() != b.len() {
        proof {
            assert(left.len() != right.len());
        }
        return false;
    }
    let mut i: usize = 0;
    while i < a.len()
        invariant
            i <= a@.len() == b@.len(),
            left == bindings_model(a@),
            right == bindings_model(b@),
            forall|j: int|
                0 <= j < i ==> (#[trigger] left[j]).0 == right[j].0 && equal_values(left[j].1, right[j].1),
        decreases a@.len() - i,
    {
        proof {
            assert(left[i as int] == (a@[i as int].0, a@[i as int].1.model()));
            assert(right[i as int] == (b@[i as int].0, b@[i as int].1.model()));
            assert(decreases_to!(a => a@[i as int]));
        }
        if a[i].0 != b[i].0 || !is_equal_value(&a[i].1, &b[i].1) {
            proof {
                assert(!(left[i as int].0 == right[i as int].0 && equal_values(left[i as int].1, right[i as int].1)));
            }
            return false;
        }
        i += 1;
    }
    true
}

/// Decides whether two callables are equal.
fn is_equal_callable(a: &ReplacementCallable, b: &ReplacementCallable) -> (equal: bool)
    ensures
        equal == equal_callables(a.model(), b.model()),
    decreases a,
{
    are_alike_callable_params(&a.params, &b.params) && are_equal_captures(&a.captures, &b.captures)
        && is_alike_closure_body(&a.body, &b.body)
}

/// Decides whether two environments are equal.
fn is_equal_environment(a: &Locals, b: &Locals) -> (equal: bool)
    ensures
        equal == ((forall|local: LocalId| #[trigger] a.model().contains_key(local) <==> b.model().contains_key(local))
            && (forall|local: LocalId|
            #[trigger] a.model().contains_key(local) ==> equal_values(a.model()[local], b.model()[local]))),
    decreases a,
{
    let ghost left = a.model();
    let ghost right = b.model();
    let mut i: usize = 0;
    while i < a.entries.len()
        invariant
            i <= a.entries@.len(),
            left == a.model(),
            right == b.model(),
            forall|j: int|
                0 <= j < i ==> right.contains_key((#[trigger] a.entries@[j]).0) && equal_values(
                    left[a.entries@[j].0],
                    right[a.entries@[j].0],
                ),
        decreases a.entries@.len() - i,
    {
        let local: LocalId = a.entries[i].0;
        match (a.find(local), b.find(local)) {
            (Some(x), Some(y)) => {
                proof {
                    assert(decreases_to!(a => a.entries@[x as int]));
                }
                if !is_equal_value(&a.entries[x].1, &b.entries[y].1) {
                    proof {
                        assert(left.contains_key(local));
                    }
                    return false;
                }
            },
            (Some(_), None) => {
                proof {
                    assert(left.contains_key(local) && !right.contains_key(local));
                }
                return false;
            },
            (None, _) => {
                proof {
                    lemma_named_locals_have_values(bindings_model(a.entries@), i as int);
                }
                return false;
            },
        }
        i += 1;
    }
    let mut k: usize = 0;
    while k < b.entries.len()
        invariant
            k <= b.entries@.len(),
            left == a.model(),
            right == b.model(),
            forall|j: int| 0 <= j < k ==> left.contains_key((#[trigger] b.entries@[j]).0),
        decreases b.entries@.len() - k,
    {
        let local: LocalId = b.entries[k].0;
        if !a.contains(local) {
            proof {
                lemma_named_locals_have_values(bindings_model(b.entries@), k as int);
                assert(bindings_model(b.entries@)[k as int].0 == local);
                assert(right.contains_key(local) && !left.contains_key(local));
            }
            return false;
        }
        k += 1;
    }
    proof {
        assert forall|local: LocalId| #[trigger] left.contains_key(local) implies right.contains_key(local)
            && equal_values(left[local], right[local]) by {
            let at = lemma_valued_locals_are_named(bindings_model(a.entries@), local);
            assert(a.entries@[at].0 == local);
        }
        assert forall|local: LocalId| right.contains_key(local) implies #[trigger] left.contains_key(local) by {
            let at = lemma_valued_locals_are_named(bindings_model(b.entries@), local);
            assert(b.entries@[at].0 == local);
        }
    }
    true
}

/// A local that a binding names has a value.
pub proof fn lemma_named_locals_have_values(bindings: Seq<(LocalId, ValueModel)>, at: int)
    requires
        0 <= at < bindings.len(),
    ensures
        environment(bindings).contains_key(bindings[at].0),
    decreases bindings.len(),
{
    if at < bindings.len() - 1 {
        let rest = bindings.drop_last();
        lemma_named_locals_have_values(rest, at);
        assert(rest[at] == bindings[at]);
    }
}

/// A local that has a value is named by a binding.
pub proof fn lemma_valued_locals_are_named(bindings: Seq<(LocalId, ValueModel)>, local: LocalId) -> (at: int)
    requires
        environment(bindings).contains_key(local),
    ensures
        0 <= at < bindings.len(),
        bindings[at].0 == local,
{
    if forall|j: int| 0 <= j < bindings.len() ==> (#[trigger] bindings[j]).0 != local {
        lemma_environment_absent(bindings, local);
    }
    choose|j: int| 0 <= j < bindings.len() && (#[trigger] bindings[j]).0 == local
}

/// Decides whether two runs of cursors are equal.
fn are_equal_cursors(a: &Vec<GeneratorCursor>, b: &Vec<GeneratorCursor>) -> (equal: bool)
    ensures
        equal == (a@.len() == b@.len() && forall|i: int|
            0 <= i < a@.len() ==> equal_cursors(#[trigger] a@[i], b@[i])),
{
    if a.len() != b.len() {
        return false;
    }
    let mut i: usize = 0;
    while i < a.len()
        invariant
            i <= a@.len() == b@.len(),
            forall|j: int| 0 <= j < i ==> equal_cursors(#[trigger] a@[j], b@[j]),
        decreases a@.len() - i,
    {
        if !are_alike_statements(&a[i].statements, &b[i].statements) || a[i].next != b[i].next || a[i].is_loop
            != b[i].is_loop {
            proof {
                assert(!equal_cursors(a@[i as int], b@[i as int]));
            }
            return false;
        }
        i += 1;
    }
    true
}

/// Decides whether two optional declarations are equal.
fn is_equal_declaration(a: &Option<Rc<Body>>, b: &Option<Rc<Body>>) -> (equal: bool)
    ensures
        equal == equal_declarations(*a, *b),
{
    match (a, b) {
        (Some(x), Some(y)) => is_alike_body(x, y),
        (None, None) => true,
        _ => false,
    }
}

/// Decides whether two suspended generators are equal.
fn is_equal_generator(a: &ReplacementGenerator, b: &ReplacementGenerator) -> (equal: bool)
    ensures
        equal == equal_generators(a.model(), b.model()),
    decreases a,
{
    let evidence: bool = match (&a.frame_evidence, &b.frame_evidence) {
        (Some(x), Some(y)) => same_text(x.as_str(), y.as_str()),
        (None, None) => true,
        _ => false,
    };
    let environments: bool = is_equal_environment(&a.frame.locals, &b.frame.locals);
    let cursors: bool = are_equal_cursors(&a.frame.cursors, &b.frame.cursors);
    proof {
        let (x, y) = (a.model(), b.model());
        assert(x.locals == a.frame.locals.model() && y.locals == b.frame.locals.model());
        assert(evidence == (x.frame_evidence == y.frame_evidence));
    }
    evidence && environments && cursors && a.frame.exhausted == b.frame.exhausted && a.frame.steps == b.frame.steps
        && is_equal_declaration(&a.named_body, &b.named_body)
}

/// Decides whether two values are equal.
pub fn is_equal_value(a: &ReplacementValue, b: &ReplacementValue) -> (equal: bool)
    ensures
        equal == equal_values(a.model(), b.model()),
    decreases a,
{
    match (a, b) {
        (ReplacementValue::Int(x), ReplacementValue::Int(y)) => *x == *y,
        (ReplacementValue::Bool(x), ReplacementValue::Bool(y)) => *x == *y,
        (ReplacementValue::Str(x), ReplacementValue::Str(y)) => same_text(x.as_str(), y.as_str()),
        (ReplacementValue::Float(x), ReplacementValue::Float(y)) => same_text(x.as_str(), y.as_str()),
        (ReplacementValue::Unit, ReplacementValue::Unit) => true,
        (
            ReplacementValue::Range { next, end, step },
            ReplacementValue::Range { next: other_next, end: other_end, step: other_step },
        ) => *next == *other_next && *end == *other_end && *step == *other_step,
        (
            ReplacementValue::List { elements, next },
            ReplacementValue::List { elements: others, next: other_next },
        ) => are_equal_values(elements, others) && *next == *other_next,
        (ReplacementValue::Tuple(elements), ReplacementValue::Tuple(others)) => are_equal_values(elements, others),
        (
            ReplacementValue::CollectedGenerator { elements, next },
            ReplacementValue::CollectedGenerator { elements: others, next: other_next },
        ) => are_equal_values(elements, others) && *next == *other_next,
        (ReplacementValue::Callable(x), ReplacementValue::Callable(y)) => is_equal_callable(x, y),
        (ReplacementValue::Generator(x), ReplacementValue::Generator(y)) => is_equal_generator(x, y),
        (ReplacementValue::Adapter(x), ReplacementValue::Adapter(y)) => is_equal_value(&x.source, &y.source)
            && is_equal_callable(&x.callback, &y.callback) && x.kind == y.kind,
        _ => false,
    }
}

// ---------------------------------------------------------------------------
// Every value equals itself
// ---------------------------------------------------------------------------

proof fn lemma_runs_equal_themselves(a: Seq<ValueModel>)
    ensures
        equal_runs(a, a),
    decreases a,
{
    assert forall|i: int| 0 <= i < a.len() implies equal_values(#[trigger] a[i], a[i]) by {
        law_values_equal_themselves(a[i]);
    }
}

proof fn lemma_callables_equal_themselves(a: CallableModel)
    ensures
        equal_callables(a, a),
    decreases a,
{
    law_parameters_are_alike_themselves(a.params@);
    law_closures_are_alike_themselves(&*a.body);
    lemma_captures_equal_themselves(a.captures);
}

proof fn lemma_captures_equal_themselves(a: Seq<(LocalId, ValueModel)>)
    ensures
        equal_captures(a, a),
    decreases a,
{
    assert forall|i: int| 0 <= i < a.len() implies (#[trigger] a[i]).0 == a[i].0 && equal_values(a[i].1, a[i].1) by {
        assert(decreases_to!(a => a[i]));
        law_values_equal_themselves(a[i].1);
    }
}

proof fn lemma_generators_equal_themselves(a: GeneratorModel)
    ensures
        equal_generators(a, a),
    decreases a,
{
    assert forall|local: LocalId| #[trigger] a.locals.contains_key(local) implies equal_values(
        a.locals[local],
        a.locals[local],
    ) by {
        law_values_equal_themselves(a.locals[local]);
    }
    assert forall|i: int| 0 <= i < a.cursors.len() implies equal_cursors(#[trigger] a.cursors[i], a.cursors[i]) by {
        law_statements_are_alike_themselves(a.cursors[i].statements@);
    }
    match a.named_body {
        Some(body) => {
            law_bodies_are_alike_themselves(&*body);
        },
        None => {},
    }
}

/// Every value equals itself, callables and suspended generators among them.
pub proof fn law_values_equal_themselves(a: ValueModel)
    ensures
        equal_values(a, a),
    decreases a,
{
    match a {
        ValueModel::List { elements, .. } => {
            lemma_runs_equal_themselves(elements);
        },
        ValueModel::Tuple(elements) => {
            lemma_runs_equal_themselves(elements);
        },
        ValueModel::CollectedGenerator { elements, .. } => {
            lemma_runs_equal_themselves(elements);
        },
        ValueModel::Callable(callable) => {
            lemma_callables_equal_themselves(callable);
        },
        ValueModel::Generator(generator) => {
            lemma_generators_equal_themselves(generator);
        },
        ValueModel::Adapter { source, callback, .. } => {
            law_values_equal_themselves(*source);
            lemma_callables_equal_themselves(callback);
        },
        _ => {},
    }
}

// ---------------------------------------------------------------------------
// Data
// ---------------------------------------------------------------------------

/// Whether a value holds no callable.
pub open spec fn is_data(value: ValueModel) -> bool
    decreases value,
{
    match value {
        ValueModel::Callable(_) | ValueModel::Generator(_) | ValueModel::Adapter { .. } => false,
        ValueModel::List { elements, .. } => are_data(elements),
        ValueModel::Tuple(elements) => are_data(elements),
        ValueModel::CollectedGenerator { elements, .. } => are_data(elements),
        _ => true,
    }
}

/// Whether every value of a run holds no callable.
pub open spec fn are_data(values: Seq<ValueModel>) -> bool
    decreases values,
{
    forall|i: int| 0 <= i < values.len() ==> is_data(#[trigger] values[i])
}

proof fn lemma_equal_runs_are_the_same(a: Seq<ValueModel>, b: Seq<ValueModel>)
    requires
        are_data(a),
    ensures
        equal_runs(a, b) <==> a == b,
    decreases a,
{
    assert forall|i: int| 0 <= i < a.len() && a.len() == b.len() implies (equal_values(#[trigger] a[i], b[i]) <==> a[i]
        == b[i]) by {
        law_equal_data_is_the_same(a[i], b[i]);
    }
    if equal_runs(a, b) {
        assert(a =~= b);
    }
}

/// A value that holds no callable is equal to itself alone.
pub proof fn law_equal_data_is_the_same(a: ValueModel, b: ValueModel)
    requires
        is_data(a),
    ensures
        equal_values(a, b) <==> a == b,
    decreases a,
{
    match (a, b) {
        (ValueModel::List { elements: x, .. }, ValueModel::List { elements: y, .. }) => {
            lemma_equal_runs_are_the_same(x, y);
        },
        (ValueModel::Tuple(x), ValueModel::Tuple(y)) => {
            lemma_equal_runs_are_the_same(x, y);
        },
        (ValueModel::CollectedGenerator { elements: x, .. }, ValueModel::CollectedGenerator { elements: y, .. }) => {
            lemma_equal_runs_are_the_same(x, y);
        },
        _ => {},
    }
}

} // verus!
