//! Runtime values of the replacement executor.

use crate::body_ir::{Body, CallableParam, ClosureBody, Constant, LocalId, Statement};
use crate::sharing::share;
use crate::text::{
    bool_spelling, bool_text, debug_quoted, debug_text, decimal, integer_text, join, joined, natural_text, same_text,
    signed_decimal, texts,
};
use std::rc::Rc;
use vstd::prelude::*;

verus! {

broadcast use vstd::string::group_string_axioms;

/// One runtime value.
#[derive(Debug, PartialEq)]
#[allow(inconsistent_fields)]
pub enum ReplacementValue {
    /// An `int` value.
    Int(i64),
    /// A `bool` value.
    Bool(bool),
    /// An owned `str` value.
    Str(String),
    /// A floating-point literal, kept so that float operations refuse honestly.
    Float(String),
    /// The unit value.
    Unit,
    /// A range iterator.
    Range {
        /// The next item.
        next: i64,
        /// The bound that is not reached.
        end: i64,
        /// The distance between items.
        step: i64,
    },
    /// A list of scalar pairs with the cursor of its iterator.
    List {
        /// The items.
        elements: Vec<ReplacementValue>,
        /// The next item's index.
        next: usize,
    },
    /// A tuple.
    Tuple(Vec<ReplacementValue>),
    /// A closure or partial application with its captured environment.
    Callable(Box<ReplacementCallable>),
    /// A generator whose frame stays suspended until something polls it.
    Generator(Box<ReplacementGenerator>),
    /// A lazy `map` or `filter` over another iterator.
    Adapter(Box<ReplacementAdapter>),
    /// The items that a generator yielded.
    CollectedGenerator {
        /// The items.
        elements: Vec<ReplacementValue>,
        /// The next item's index.
        next: usize,
    },
}

/// A stored closure or partial-callable environment.
///
/// A call creates a fresh local frame from this environment, so nothing leaks between invocations.
#[derive(Debug, PartialEq)]
pub struct ReplacementCallable {
    /// The parameters.
    pub params: Rc<Vec<CallableParam>>,
    /// The captured values.
    pub captures: Vec<(LocalId, ReplacementValue)>,
    /// The body.
    pub body: Rc<ClosureBody>,
}

/// A suspended generator expression or generator function.
#[derive(Debug, PartialEq)]
pub struct ReplacementGenerator {
    /// The local bindings and the place to resume at.
    pub frame: GeneratorFrame,
    /// The declaration that contributes its evidence once polling starts.
    pub named_body: Option<Rc<Body>>,
    /// Evidence that the frame began to execute.
    pub frame_evidence: Option<String>,
}

/// The local bindings of a generator and the nested blocks it is inside of.
#[derive(Debug, PartialEq)]
pub struct GeneratorFrame {
    /// The bindings.
    pub locals: Locals,
    /// The entered blocks, innermost last.
    pub cursors: Vec<GeneratorCursor>,
    /// Whether nothing is left to yield.
    pub exhausted: bool,
    /// The step count that the frame observed last.
    pub steps: usize,
}

/// The place inside one entered block.
#[derive(Debug, PartialEq)]
pub struct GeneratorCursor {
    /// The block's statements.
    pub statements: Rc<Vec<Statement>>,
    /// The next statement's index.
    pub next: usize,
    /// Whether the block starts over at its end.
    pub is_loop: bool,
}

/// A lazy adapter around another iterator.
#[derive(Debug, PartialEq)]
pub struct ReplacementAdapter {
    /// The iterator behind the adapter.
    pub source: ReplacementValue,
    /// The callback.
    pub callback: ReplacementCallable,
    /// What the adapter does with the callback's answer.
    pub kind: ReplacementAdapterKind,
}

/// The kinds of lazy adapters.
#[derive(Debug, Clone, Copy, PartialEq, Eq, Structural)]
pub enum ReplacementAdapterKind {
    /// Hand out the callback's answers.
    MapItems,
    /// Hand out the items whose answer is true.
    FilterItems,
}

/// The values of a frame's locals. A later entry for a local stands for the local.
#[derive(Debug, PartialEq)]
pub struct Locals {
    /// The bindings.
    pub entries: Vec<(LocalId, ReplacementValue)>,
}

// ---------------------------------------------------------------------------
// What values mean
// ---------------------------------------------------------------------------

/// What a runtime value is.
#[allow(inconsistent_fields)]
pub enum ValueModel {
    /// An integer.
    Int(i64),
    /// A flag.
    Bool(bool),
    /// A text.
    Str(Seq<char>),
    /// A floating-point literal's spelling.
    Float(Seq<char>),
    /// The unit value.
    Unit,
    /// A range iterator.
    Range {
        /// The next item.
        next: i64,
        /// The bound.
        end: i64,
        /// The distance between items.
        step: i64,
    },
    /// A list and its cursor.
    List {
        /// The items.
        elements: Seq<ValueModel>,
        /// The cursor.
        next: usize,
    },
    /// A tuple.
    Tuple(Seq<ValueModel>),
    /// A callable.
    Callable(CallableModel),
    /// A suspended generator.
    Generator(GeneratorModel),
    /// A lazy adapter.
    Adapter {
        /// The iterator behind the adapter.
        source: Box<ValueModel>,
        /// The callback.
        callback: CallableModel,
        /// The kind.
        kind: ReplacementAdapterKind,
    },
    /// Collected items and their cursor.
    CollectedGenerator {
        /// The items.
        elements: Seq<ValueModel>,
        /// The cursor.
        next: usize,
    },
}

/// What a callable is.
pub struct CallableModel {
    /// The parameters.
    pub params: Rc<Vec<CallableParam>>,
    /// The captured values.
    pub captures: Seq<(LocalId, ValueModel)>,
    /// The body.
    pub body: Rc<ClosureBody>,
}

/// What a suspended generator is.
pub struct GeneratorModel {
    /// The bindings.
    pub locals: Map<LocalId, ValueModel>,
    /// The entered blocks.
    pub cursors: Seq<GeneratorCursor>,
    /// Whether nothing is left to yield.
    pub exhausted: bool,
    /// The step count that the frame observed last.
    pub steps: usize,
    /// The declaration that contributes its evidence once polling starts.
    pub named_body: Option<Rc<Body>>,
    /// Evidence that the frame began to execute.
    pub frame_evidence: Option<Seq<char>>,
}

impl ReplacementValue {
    /// What the value is.
    pub open spec fn model(self) -> ValueModel
        decreases self,
    {
        match self {
            ReplacementValue::Int(value) => ValueModel::Int(value),
            ReplacementValue::Bool(value) => ValueModel::Bool(value),
            ReplacementValue::Str(value) => ValueModel::Str(value@),
            ReplacementValue::Float(value) => ValueModel::Float(value@),
            ReplacementValue::Unit => ValueModel::Unit,
            ReplacementValue::Range { next, end, step } => ValueModel::Range { next, end, step },
            ReplacementValue::List { elements, next } => ValueModel::List { elements: models(elements@), next },
            ReplacementValue::Tuple(elements) => ValueModel::Tuple(models(elements@)),
            ReplacementValue::Callable(callable) => ValueModel::Callable((*callable).model()),
            ReplacementValue::Generator(generator) => ValueModel::Generator((*generator).model()),
            ReplacementValue::Adapter(adapter) => ValueModel::Adapter {
                source: Box::new((*adapter).source.model()),
                callback: (*adapter).callback.model(),
                kind: (*adapter).kind,
            },
            ReplacementValue::CollectedGenerator { elements, next } => ValueModel::CollectedGenerator {
                elements: models(elements@),
                next,
            },
        }
    }
}

/// What a run of values is.
pub open spec fn models(values: Seq<ReplacementValue>) -> Seq<ValueModel>
    decreases values,
{
    Seq::new(
        values.len(),
        |i: int| if 0 <= i < values.len() {
            values[i].model()
        } else {
            arbitrary()
        },
    )
}

/// What a run of bindings is, binding by binding.
pub open spec fn bindings_model(bindings: Seq<(LocalId, ReplacementValue)>) -> Seq<(LocalId, ValueModel)>
    decreases bindings,
{
    Seq::new(
        bindings.len(),
        |i: int| if 0 <= i < bindings.len() {
            (bindings[i].0, bindings[i].1.model())
        } else {
            arbitrary()
        },
    )
}

/// The environment that bindings give when each is entered after the other.
pub open spec fn environment(bindings: Seq<(LocalId, ValueModel)>) -> Map<LocalId, ValueModel>
    decreases bindings.len(),
{
    if bindings.len() == 0 {
        Map::empty()
    } else {
        environment(bindings.drop_last()).insert(bindings.last().0, bindings.last().1)
    }
}

impl ReplacementCallable {
    /// What the callable is.
    pub open spec fn model(self) -> CallableModel
        decreases self,
    {
        CallableModel { params: self.params, captures: bindings_model(self.captures@), body: self.body }
    }
}

impl ReplacementGenerator {
    /// What the generator is.
    pub open spec fn model(self) -> GeneratorModel
        decreases self,
    {
        GeneratorModel {
            locals: environment(bindings_model(self.frame.locals.entries@)),
            cursors: self.frame.cursors@,
            exhausted: self.frame.exhausted,
            steps: self.frame.steps,
            named_body: self.named_body,
            frame_evidence: match self.frame_evidence {
                Some(evidence) => Some(evidence@),
                None => None,
            },
        }
    }
}

impl Locals {
    /// The environment that the entries give.
    pub open spec fn model(self) -> Map<LocalId, ValueModel> {
        environment(bindings_model(self.entries@))
    }
}

// ---------------------------------------------------------------------------
// Copies
// ---------------------------------------------------------------------------

impl Clone for ReplacementValue {
    fn clone(&self) -> (copy: Self)
        ensures
            copy.model() == self.model(),
        decreases self,
    {
        match self {
            ReplacementValue::Int(value) => ReplacementValue::Int(*value),
            ReplacementValue::Bool(value) => ReplacementValue::Bool(*value),
            ReplacementValue::Str(value) => ReplacementValue::Str(value.clone()),
            ReplacementValue::Float(value) => ReplacementValue::Float(value.clone()),
            ReplacementValue::Unit => ReplacementValue::Unit,
            ReplacementValue::Range { next, end, step } => ReplacementValue::Range {
                next: *next,
                end: *end,
                step: *step,
            },
            ReplacementValue::List { elements, next } => ReplacementValue::List {
                elements: copy_values(elements),
                next: *next,
            },
            ReplacementValue::Tuple(elements) => ReplacementValue::Tuple(copy_values(elements)),
            ReplacementValue::Callable(callable) => ReplacementValue::Callable(Box::new(copy_callable(callable))),
            ReplacementValue::Generator(generator) => ReplacementValue::Generator(
                Box::new(copy_generator(generator)),
            ),
            ReplacementValue::Adapter(adapter) => ReplacementValue::Adapter(
                Box::new(
                    ReplacementAdapter {
                        source: adapter.source.clone(),
                        callback: copy_callable(&adapter.callback),
                        kind: adapter.kind,
                    },
                ),
            ),
            ReplacementValue::CollectedGenerator { elements, next } => ReplacementValue::CollectedGenerator {
                elements: copy_values(elements),
                next: *next,
            },
        }
    }
}

/// Copies a run of values.
fn copy_values(values: &Vec<ReplacementValue>) -> (copies: Vec<ReplacementValue>)
    ensures
        models(copies@) == models(values@),
    decreases values,
{
    let mut copies: Vec<ReplacementValue> = Vec::new();
    let mut i: usize = 0;
    while i < values.len()
        invariant
            i <= values@.len(),
            copies@.len() == i,
            forall|j: int| 0 <= j < i ==> (#[trigger] copies@[j]).model() == values@[j].model(),
        decreases values@.len() - i,
    {
        copies.push(values[i].clone());
        i += 1;
    }
    proof {
        assert(models(copies@) =~= models(values@));
    }
    copies
}

/// Copies a run of bindings.
pub fn copy_bindings(bindings: &Vec<(LocalId, ReplacementValue)>) -> (copies: Vec<(LocalId, ReplacementValue)>)
    ensures
        bindings_model(copies@) == bindings_model(bindings@),
    decreases bindings,
{
    let mut copies: Vec<(LocalId, ReplacementValue)> = Vec::new();
    let mut i: usize = 0;
    while i < bindings.len()
        invariant
            i <= bindings@.len(),
            copies@.len() == i,
            forall|j: int|
                0 <= j < i ==> (#[trigger] copies@[j]).0 == bindings@[j].0 && copies@[j].1.model()
                    == bindings@[j].1.model(),
        decreases bindings@.len() - i,
    {
        copies.push((bindings[i].0, bindings[i].1.clone()));
        i += 1;
    }
    proof {
        assert(bindings_model(copies@) =~= bindings_model(bindings@));
    }
    copies
}

/// Copies a callable.
pub fn copy_callable(callable: &ReplacementCallable) -> (copy: ReplacementCallable)
    ensures
        copy.model() == callable.model(),
    decreases callable,
{
    ReplacementCallable {
        params: share(&callable.params),
        captures: copy_bindings(&callable.captures),
        body: share(&callable.body),
    }
}

/// Copies the entered blocks of a generator.
fn copy_cursors(cursors: &Vec<GeneratorCursor>) -> (copies: Vec<GeneratorCursor>)
    ensures
        copies@ == cursors@,
{
    let mut copies: Vec<GeneratorCursor> = Vec::new();
    let mut i: usize = 0;
    while i < cursors.len()
        invariant
            i <= cursors@.len(),
            copies@ == cursors@.take(i as int),
        decreases cursors@.len() - i,
    {
        copies.push(
            GeneratorCursor {
                statements: share(&cursors[i].statements),
                next: cursors[i].next,
                is_loop: cursors[i].is_loop,
            },
        );
        i += 1;
        proof {
            assert(cursors@.take(i as int) =~= cursors@.take(i - 1).push(cursors@[i - 1]));
        }
    }
    proof {
        assert(cursors@.take(i as int) =~= cursors@);
    }
    copies
}

/// Copies a suspended generator.
fn copy_generator(generator: &ReplacementGenerator) -> (copy: ReplacementGenerator)
    ensures
        copy.model() == generator.model(),
    decreases generator,
{
    ReplacementGenerator {
        frame: GeneratorFrame {
            locals: Locals { entries: copy_bindings(&generator.frame.locals.entries) },
            cursors: copy_cursors(&generator.frame.cursors),
            exhausted: generator.frame.exhausted,
            steps: generator.frame.steps,
        },
        named_body: match &generator.named_body {
            Some(body) => Some(share(body)),
            None => None,
        },
        frame_evidence: match &generator.frame_evidence {
            Some(evidence) => Some(evidence.clone()),
            None => None,
        },
    }
}

// ---------------------------------------------------------------------------
// Locals
// ---------------------------------------------------------------------------

/// A local has the value of the last binding that names it.
pub proof fn lemma_environment_at(bindings: Seq<(LocalId, ValueModel)>, at: int)
    requires
        0 <= at < bindings.len(),
        forall|j: int| at < j < bindings.len() ==> (#[trigger] bindings[j]).0 != bindings[at].0,
    ensures
        environment(bindings).contains_key(bindings[at].0),
        environment(bindings)[bindings[at].0] == bindings[at].1,
    decreases bindings.len(),
{
    if at < bindings.len() - 1 {
        let rest = bindings.drop_last();
        assert forall|j: int| at < j < rest.len() implies (#[trigger] rest[j]).0 != rest[at].0 by {
            assert(bindings[j].0 != bindings[at].0);
        }
        lemma_environment_at(rest, at);
        assert(bindings[bindings.len() - 1].0 != bindings[at].0);
    }
}

/// A local that no binding names has no value.
pub proof fn lemma_environment_absent(bindings: Seq<(LocalId, ValueModel)>, local: LocalId)
    requires
        forall|j: int| 0 <= j < bindings.len() ==> (#[trigger] bindings[j]).0 != local,
    ensures
        !environment(bindings).contains_key(local),
    decreases bindings.len(),
{
    if bindings.len() > 0 {
        let rest = bindings.drop_last();
        assert forall|j: int| 0 <= j < rest.len() implies (#[trigger] rest[j]).0 != local by {
            assert(bindings[j].0 != local);
        }
        lemma_environment_absent(rest, local);
        assert(bindings[bindings.len() - 1].0 != local);
    }
}

/// Taking out a binding of a local changes the environment at that local at most.
pub proof fn lemma_environment_without(bindings: Seq<(LocalId, ValueModel)>, at: int)
    requires
        0 <= at < bindings.len(),
    ensures
        environment(bindings.remove(at)).remove(bindings[at].0) == environment(bindings).remove(bindings[at].0),
    decreases bindings.len(),
{
    let local = bindings[at].0;
    let fewer = bindings.remove(at);
    if at == bindings.len() - 1 {
        assert(fewer =~= bindings.drop_last());
        assert(environment(fewer).remove(local) =~= environment(bindings).remove(local));
    } else {
        let rest = bindings.drop_last();
        lemma_environment_without(rest, at);
        assert(fewer.drop_last() =~= rest.remove(at));
        assert(fewer.last() == bindings.last());
        let a = environment(rest.remove(at));
        let b = environment(rest);
        let x = environment(fewer).remove(local);
        let y = environment(bindings).remove(local);
        assert(environment(fewer) == a.insert(bindings.last().0, bindings.last().1));
        assert forall|k: LocalId| #[trigger] x.dom().contains(k) == y.dom().contains(k) by {
            assert(a.remove(local).dom().contains(k) == b.remove(local).dom().contains(k));
        }
        assert forall|k: LocalId| #[trigger] x.dom().contains(k) implies x[k] == y[k] by {
            assert(a.remove(local)[k] == b.remove(local)[k]);
        }
        assert(x =~= y);
    }
}

impl Locals {
    /// No bindings.
    pub fn new() -> (locals: Self)
        ensures
            locals.model() == Map::<LocalId, ValueModel>::empty(),
    {
        Locals { entries: Vec::new() }
    }

    /// The last binding of a local.
    pub(crate) fn find(&self, local: LocalId) -> (at: Option<usize>)
        ensures
            match at {
                Some(i) => i < self.entries@.len() && self.entries@[i as int].0 == local
                    && self.model().contains_key(local) && self.model()[local]
                    == self.entries@[i as int].1.model(),
                None => !self.model().contains_key(local),
            },
    {
        let ghost bindings = bindings_model(self.entries@);
        let mut i: usize = self.entries.len();
        while i > 0
            invariant
                i <= self.entries@.len(),
                bindings == bindings_model(self.entries@),
                forall|j: int| i <= j < bindings.len() ==> (#[trigger] bindings[j]).0 != local,
            decreases i,
        {
            if self.entries[i - 1].0 == local {
                proof {
                    assert(bindings[i - 1].0 == local);
                    lemma_environment_at(bindings, i - 1);
                }
                return Some(i - 1);
            }
            i -= 1;
        }
        proof {
            lemma_environment_absent(bindings, local);
        }
        None
    }

    /// The value of a local.
    pub fn get(&self, local: LocalId) -> (value: Option<&ReplacementValue>)
        ensures
            match value {
                Some(v) => self.model().contains_key(local) && self.model()[local] == v.model(),
                None => !self.model().contains_key(local),
            },
    {
        match self.find(local) {
            Some(i) => Some(&self.entries[i].1),
            None => None,
        }
    }

    /// Takes a local's value out of the frame.
    pub fn remove(&mut self, local: LocalId) -> (value: Option<ReplacementValue>)
        ensures
            final(self).model() == old(self).model().remove(local),
            match value {
                Some(v) => old(self).model().contains_key(local) && old(self).model()[local] == v.model(),
                None => !old(self).model().contains_key(local),
            },
    {
        let ghost before = self.model();
        match self.find(local) {
            None => {
                proof {
                    assert(before.remove(local) =~= before);
                }
                None
            },
            Some(at) => {
                let value: ReplacementValue = self.take_at(at);
                loop
                    invariant
                        self.model().remove(local) == before.remove(local),
                    ensures
                        !self.model().contains_key(local),
                    decreases self.entries@.len(),
                {
                    match self.find(local) {
                        None => break,
                        Some(i) => {
                            let _ = self.take_at(i);
                        },
                    }
                }
                proof {
                    assert(self.model() =~= self.model().remove(local));
                }
                Some(value)
            },
        }
    }

    /// Takes one binding out.
    fn take_at(&mut self, at: usize) -> (value: ReplacementValue)
        requires
            at < old(self).entries@.len(),
        ensures
            final(self).entries@ == old(self).entries@.remove(at as int),
            final(self).model().remove(old(self).entries@[at as int].0) == old(self).model().remove(
                old(self).entries@[at as int].0,
            ),
            value == old(self).entries@[at as int].1,
    {
        proof {
            lemma_environment_without(bindings_model(self.entries@), at as int);
            assert(bindings_model(self.entries@).remove(at as int) =~= bindings_model(
                self.entries@.remove(at as int),
            ));
        }
        let entry: (LocalId, ReplacementValue) = self.entries.remove(at);
        entry.1
    }

    /// Gives a local a value and hands back the one it had.
    pub fn insert(&mut self, local: LocalId, value: ReplacementValue) -> (previous: Option<ReplacementValue>)
        ensures
            final(self).model() == old(self).model().insert(local, value.model()),
            match previous {
                Some(v) => old(self).model().contains_key(local) && old(self).model()[local] == v.model(),
                None => !old(self).model().contains_key(local),
            },
    {
        let ghost before = self.model();
        let previous: Option<ReplacementValue> = self.remove(local);
        let ghost kept = bindings_model(self.entries@);
        let ghost given = value.model();
        self.entries.push((local, value));
        proof {
            let now = bindings_model(self.entries@);
            assert(now.drop_last() =~= kept);
            assert(now.last() == (local, given));
            assert(self.model() =~= before.insert(local, given));
        }
        previous
    }

    /// Whether a local has a value.
    pub fn contains(&self, local: LocalId) -> (found: bool)
        ensures
            found == self.model().contains_key(local),
    {
        self.find(local).is_some()
    }

    /// The environment of a run of bindings.
    pub fn from_bindings(bindings: Vec<(LocalId, ReplacementValue)>) -> (locals: Self)
        ensures
            locals.model() == environment(bindings_model(bindings@)),
    {
        Locals { entries: bindings }
    }

    /// Copies the bindings.
    pub fn copied(&self) -> (copy: Self)
        ensures
            copy.model() == self.model(),
    {
        Locals { entries: copy_bindings(&self.entries) }
    }
}

// ---------------------------------------------------------------------------
// Observable text, kinds and predicates
// ---------------------------------------------------------------------------

/// The source-observable spelling of a value.
pub open spec fn observable(value: ValueModel) -> Seq<char>
    decreases value,
{
    match value {
        ValueModel::Int(value) => signed_decimal(value as int),
        ValueModel::Bool(value) => bool_spelling(value),
        ValueModel::Str(value) => value,
        ValueModel::Float(value) => value,
        ValueModel::Unit => "None"@,
        ValueModel::Range { next, end, step } => "range("@ + signed_decimal(next as int) + ", "@ + signed_decimal(
            end as int,
        ) + ", "@ + signed_decimal(step as int) + ")"@,
        ValueModel::List { elements, .. } => "["@ + joined(observables(elements), ", "@) + "]"@,
        ValueModel::Tuple(elements) => "("@ + joined(observables(elements), ", "@) + ")"@,
        ValueModel::Callable(_) => "<callable>"@,
        ValueModel::Generator(_) => "<generator>"@,
        ValueModel::Adapter { .. } => "<generator-adapter>"@,
        ValueModel::CollectedGenerator { elements, .. } => "["@ + joined(observables(elements), ", "@) + "]"@,
    }
}

/// The source-observable spellings of a run of values.
pub open spec fn observables(values: Seq<ValueModel>) -> Seq<Seq<char>>
    decreases values,
{
    Seq::new(
        values.len(),
        |i: int| if 0 <= i < values.len() {
            observable(values[i])
        } else {
            arbitrary()
        },
    )
}

impl ReplacementValue {
    /// Renders the deterministic source-observable spelling of the value.
    pub fn observable_text(&self) -> (text: String)
        ensures
            text@ == observable(self.model()),
        decreases self,
    {
        match self {
            ReplacementValue::Int(value) => integer_text(*value),
            ReplacementValue::Bool(value) => bool_text(*value),
            ReplacementValue::Str(value) => value.clone(),
            ReplacementValue::Float(value) => value.clone(),
            ReplacementValue::Unit => "None".to_owned(),
            ReplacementValue::Range { next, end, step } => "range(".to_owned().concat(
                integer_text(*next).as_str(),
            ).concat(", ").concat(integer_text(*end).as_str()).concat(", ").concat(
                integer_text(*step).as_str(),
            ).concat(")"),
            ReplacementValue::List { elements, .. } => "[".to_owned().concat(
                observable_list(elements).as_str(),
            ).concat("]"),
            ReplacementValue::Tuple(elements) => "(".to_owned().concat(observable_list(elements).as_str()).concat(
                ")",
            ),
            ReplacementValue::Callable(_) => "<callable>".to_owned(),
            ReplacementValue::Generator(_) => "<generator>".to_owned(),
            ReplacementValue::Adapter(_) => "<generator-adapter>".to_owned(),
            ReplacementValue::CollectedGenerator { elements, .. } => "[".to_owned().concat(
                observable_list(elements).as_str(),
            ).concat("]"),
        }
    }
}

/// Renders the spellings of a run of values, separated by commas.
fn observable_list(values: &Vec<ReplacementValue>) -> (text: String)
    ensures
        text@ == joined(observables(models(values@)), ", "@),
    decreases values,
{
    let mut parts: Vec<String> = Vec::new();
    let mut i: usize = 0;
    while i < values.len()
        invariant
            i <= values@.len(),
            parts@.len() == i,
            forall|j: int| 0 <= j < i ==> (#[trigger] parts@[j])@ == observable(values@[j].model()),
        decreases values@.len() - i,
    {
        parts.push(values[i].observable_text());
        i += 1;
    }
    proof {
        assert(texts(parts@) =~= observables(models(values@)));
    }
    join(&parts, ", ")
}

/// The name of a value's dynamic shape.
pub open spec fn kind_of(value: ValueModel) -> Seq<char> {
    match value {
        ValueModel::Int(_) => "int"@,
        ValueModel::Bool(_) => "bool"@,
        ValueModel::Str(_) => "str"@,
        ValueModel::Float(_) => "float"@,
        ValueModel::Unit => "unit"@,
        ValueModel::Range { .. } => "range"@,
        ValueModel::List { .. } => "list"@,
        ValueModel::Tuple(_) => "tuple"@,
        ValueModel::Callable(_) => "callable"@,
        ValueModel::Generator(_) => "generator"@,
        ValueModel::Adapter { .. } => "generator adapter"@,
        ValueModel::CollectedGenerator { .. } => "collected generator list"@,
    }
}

/// Names a value's dynamic shape.
pub fn value_kind(value: &ReplacementValue) -> (kind: &'static str)
    ensures
        kind@ == kind_of(value.model()),
{
    match value {
        ReplacementValue::Int(_) => "int",
        ReplacementValue::Bool(_) => "bool",
        ReplacementValue::Str(_) => "str",
        ReplacementValue::Float(_) => "float",
        ReplacementValue::Unit => "unit",
        ReplacementValue::Range { .. } => "range",
        ReplacementValue::List { .. } => "list",
        ReplacementValue::Tuple(_) => "tuple",
        ReplacementValue::Callable(_) => "callable",
        ReplacementValue::Generator(_) => "generator",
        ReplacementValue::Adapter(_) => "generator adapter",
        ReplacementValue::CollectedGenerator { .. } => "collected generator list",
    }
}

/// Whether a value can be read by copy without duplicating owned state.
pub open spec fn copy_shaped(value: ValueModel) -> bool {
    value is Int || value is Bool || value is Unit
}

/// Whether a value is one of the scalars that collections hold.
pub open spec fn scalar(value: ValueModel) -> bool {
    value is Int || value is Bool || value is Str || value is Unit
}

/// Whether every value of a run is a scalar.
pub open spec fn scalars(values: Seq<ValueModel>) -> bool {
    forall|i: int| 0 <= i < values.len() ==> scalar(#[trigger] values[i])
}

/// Whether a value is a pair of scalars.
pub open spec fn scalar_pair(value: ValueModel) -> bool {
    value matches ValueModel::Tuple(elements) && elements.len() == 2 && scalars(elements)
}

/// Whether every value of a run is a pair of scalars.
pub open spec fn scalar_pairs(values: Seq<ValueModel>) -> bool {
    forall|i: int| 0 <= i < values.len() ==> scalar_pair(#[trigger] values[i])
}

impl ReplacementValue {
    /// Whether the value can be read by copy without duplicating owned state.
    pub fn is_copy_shaped(&self) -> (yes: bool)
        ensures
            yes == copy_shaped(self.model()),
    {
        match self {
            ReplacementValue::Int(_) => true,
            ReplacementValue::Bool(_) => true,
            ReplacementValue::Unit => true,
            _ => false,
        }
    }

    /// Whether the value is one of the scalars that collections hold.
    pub fn is_collection_scalar(&self) -> (yes: bool)
        ensures
            yes == scalar(self.model()),
    {
        match self {
            ReplacementValue::Int(_) => true,
            ReplacementValue::Bool(_) => true,
            ReplacementValue::Str(_) => true,
            ReplacementValue::Unit => true,
            _ => false,
        }
    }

    /// Whether the value is a pair of scalars.
    pub fn is_scalar_pair_tuple(&self) -> (yes: bool)
        ensures
            yes == scalar_pair(self.model()),
    {
        match self {
            ReplacementValue::Tuple(elements) => {
                proof {
                    assert(self.model() == ValueModel::Tuple(models(elements@)));
                    assert(models(elements@).len() == elements@.len());
                }
                elements.len() == 2 && all_scalars(elements)
            },
            _ => false,
        }
    }

    /// Whether two scalars are the same value.
    pub fn same_scalar(&self, other: &ReplacementValue) -> (same: bool)
        requires
            scalar(self.model()),
            scalar(other.model()),
        ensures
            same == (self.model() == other.model()),
    {
        match (self, other) {
            (ReplacementValue::Int(a), ReplacementValue::Int(b)) => *a == *b,
            (ReplacementValue::Bool(a), ReplacementValue::Bool(b)) => *a == *b,
            (ReplacementValue::Str(a), ReplacementValue::Str(b)) => same_text(a.as_str(), b.as_str()),
            (ReplacementValue::Unit, ReplacementValue::Unit) => true,
            _ => false,
        }
    }
}

/// Whether every value of a run is a scalar.
pub fn all_scalars(values: &Vec<ReplacementValue>) -> (yes: bool)
    ensures
        yes == scalars(models(values@)),
{
    let mut i: usize = 0;
    while i < values.len()
        invariant
            i <= values@.len(),
            forall|j: int| 0 <= j < i ==> scalar(#[trigger] models(values@)[j]),
        decreases values@.len() - i,
    {
        if !values[i].is_collection_scalar() {
            proof {
                assert(!scalar(models(values@)[i as int]));
            }
            return false;
        }
        i += 1;
    }
    true
}

/// Whether every value of a run is a pair of scalars.
pub fn all_scalar_pairs(values: &Vec<ReplacementValue>) -> (yes: bool)
    ensures
        yes == scalar_pairs(models(values@)),
{
    let mut i: usize = 0;
    while i < values.len()
        invariant
            i <= values@.len(),
            forall|j: int| 0 <= j < i ==> scalar_pair(#[trigger] models(values@)[j]),
        decreases values@.len() - i,
    {
        if !values[i].is_scalar_pair_tuple() {
            proof {
                assert(!scalar_pair(models(values@)[i as int]));
            }
            return false;
        }
        i += 1;
    }
    true
}

/// The value of a literal.
pub open spec fn literal(constant: Constant) -> ValueModel {
    match constant {
        Constant::Int(value) => ValueModel::Int(value),
        Constant::Bool(value) => ValueModel::Bool(value),
        Constant::Str(value) => ValueModel::Str(value@),
        Constant::Unit => ValueModel::Unit,
        Constant::NoneLiteral => ValueModel::Unit,
        Constant::Float(value) => ValueModel::Float(value@),
    }
}

/// Converts a literal into a value.
pub fn constant_value(constant: &Constant) -> (value: ReplacementValue)
    ensures
        value.model() == literal(*constant),
{
    match constant {
        Constant::Int(value) => ReplacementValue::Int(*value),
        Constant::Bool(value) => ReplacementValue::Bool(*value),
        Constant::Str(value) => ReplacementValue::Str(value.clone()),
        Constant::Unit => ReplacementValue::Unit,
        Constant::NoneLiteral => ReplacementValue::Unit,
        Constant::Float(value) => ReplacementValue::Float(value.clone()),
    }
}

} // verus!
