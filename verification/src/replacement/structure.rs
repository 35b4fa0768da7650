//! The structural spelling of runtime values: the form of a value with everything that it holds.

use crate::body_ir::{Body, LocalId};
use crate::replacement::equality::{lemma_named_locals_have_values, lemma_valued_locals_are_named};
use crate::replacement::value::{
    bindings_model, models, CallableModel, GeneratorCursor, GeneratorModel, Locals, ReplacementAdapterKind,
    ReplacementCallable, ReplacementGenerator, ReplacementValue, ValueModel,
};
use crate::spelling::{
    list_text, listed, spell_body, spell_callable_params, spell_closure_body, spell_local_id, spell_optional_string,
    spell_statements, spelled_body, spelled_callable_params, spelled_closure_body, spelled_local_id,
    spelled_statements,
};
use crate::text::{
    bool_spelling, bool_text, debug_quoted, debug_text, decimal, integer_text, join, joined, natural_text,
    signed_decimal, texts,
};
use std::rc::Rc;
use vstd::prelude::*;

verus! {

broadcast use vstd::string::group_string_axioms;

// ---------------------------------------------------------------------------
// How values are spelled
// ---------------------------------------------------------------------------

/// The structural spelling of a value.
pub open spec fn structure(value: ValueModel) -> Seq<char>
    decreases value,
{
    match value {
        ValueModel::Int(value) => "Int("@ + signed_decimal(value as int) + ")"@,
        ValueModel::Bool(value) => "Bool("@ + bool_spelling(value) + ")"@,
        ValueModel::Str(value) => "Str("@ + debug_quoted(value) + ")"@,
        ValueModel::Float(value) => "Float("@ + debug_quoted(value) + ")"@,
        ValueModel::Unit => "Unit"@,
        ValueModel::Range { next, end, step } => "Range { next: "@ + signed_decimal(next as int) + ", end: "@
            + signed_decimal(end as int) + ", step: "@ + signed_decimal(step as int) + " }"@,
        ValueModel::List { elements, next } => "List { elements: "@ + listed(structures(elements)) + ", next: "@
            + decimal(next as nat) + " }"@,
        ValueModel::Tuple(elements) => "Tuple("@ + listed(structures(elements)) + ")"@,
        ValueModel::Callable(callable) => "Callable("@ + callable_structure(callable) + ")"@,
        ValueModel::Generator(generator) => "Generator("@ + generator_structure(generator) + ")"@,
        ValueModel::Adapter { source, callback, kind } => "Adapter(ReplacementAdapter { source: "@ + structure(*source)
            + ", callback: "@ + callable_structure(callback) + ", kind: "@ + adapter_spelling(kind) + " })"@,
        ValueModel::CollectedGenerator { elements, next } => "CollectedGenerator { elements: "@ + listed(
            structures(elements),
        ) + ", next: "@ + decimal(next as nat) + " }"@,
    }
}

/// The structural spellings of a run of values.
pub open spec fn structures(values: Seq<ValueModel>) -> Seq<Seq<char>>
    decreases values,
{
    Seq::new(
        values.len(),
        |i: int| if 0 <= i < values.len() {
            structure(values[i])
        } else {
            arbitrary()
        },
    )
}

/// The name of a kind of adapter.
pub open spec fn adapter_spelling(kind: ReplacementAdapterKind) -> Seq<char> {
    match kind {
        ReplacementAdapterKind::MapItems => "Map"@,
        ReplacementAdapterKind::FilterItems => "Filter"@,
    }
}

/// The structural spelling of a callable.
pub open spec fn callable_structure(callable: CallableModel) -> Seq<char>
    decreases callable,
{
    "ReplacementCallable { params: "@ + listed(spelled_callable_params(callable.params@)) + ", captures: "@ + listed(
        capture_structures(callable.captures),
    ) + ", body: "@ + spelled_closure_body(*callable.body) + " }"@
}

/// The structural spellings of a run of captured values.
pub open spec fn capture_structures(captures: Seq<(LocalId, ValueModel)>) -> Seq<Seq<char>>
    decreases captures,
{
    Seq::new(
        captures.len(),
        |i: int| if 0 <= i < captures.len() {
            "("@ + spelled_local_id(captures[i].0) + ", "@ + structure(captures[i].1) + ")"@
        } else {
            arbitrary()
        },
    )
}

/// The structural spelling of a cursor.
pub open spec fn cursor_structure(cursor: GeneratorCursor) -> Seq<char> {
    "GeneratorCursor { statements: "@ + listed(spelled_statements(cursor.statements@)) + ", next: "@ + decimal(
        cursor.next as nat,
    ) + ", is_loop: "@ + bool_spelling(cursor.is_loop) + " }"@
}

/// The structural spelling of an optional declaration.
pub open spec fn declaration_structure(body: Option<Rc<Body>>) -> Seq<char> {
    match body {
        Some(body) => "Some("@ + spelled_body(*body) + ")"@,
        None => "None"@,
    }
}

/// The structural spelling of optional evidence.
pub open spec fn evidence_structure(evidence: Option<Seq<char>>) -> Seq<char> {
    match evidence {
        Some(evidence) => "Some("@ + debug_quoted(evidence) + ")"@,
        None => "None"@,
    }
}

/// The structural spellings of a generator's bindings from one local on, in the order of the locals.
pub open spec fn binding_structures(generator: GeneratorModel, from: int) -> Seq<Seq<char>>
    decreases generator, 0x1_0000_0000 - from,
{
    if from < 0 || from >= 0x1_0000_0000 {
        Seq::empty()
    } else {
        let local = LocalId(from as u32);
        let rest = binding_structures(generator, from + 1);
        if generator.locals.contains_key(local) {
            seq![spelled_local_id(local) + ": "@ + structure(generator.locals[local])] + rest
        } else {
            rest
        }
    }
}

/// The structural spelling of a suspended generator. Its bindings come in the order of their locals.
pub open spec fn generator_structure(generator: GeneratorModel) -> Seq<char>
    decreases generator, 0x1_0000_0001int,
{
    "ReplacementGenerator { frame: GeneratorFrame { locals: {"@ + joined(binding_structures(generator, 0), ", "@)
        + "}, cursors: "@ + listed(generator.cursors.map_values(|cursor: GeneratorCursor| cursor_structure(cursor)))
        + ", exhausted: "@ + bool_spelling(generator.exhausted) + ", steps: "@ + decimal(generator.steps as nat)
        + " }, named_body: "@ + declaration_structure(generator.named_body) + ", frame_evidence: "@
        + evidence_structure(generator.frame_evidence) + " }"@
}

// ---------------------------------------------------------------------------
// Spelling
// ---------------------------------------------------------------------------

impl ReplacementValue {
    /// Renders the structural spelling of the value.
    pub fn structure_text(&self) -> (text: String)
        ensures
            text@ == structure(self.model()),
        decreases self,
    {
        match self {
            ReplacementValue::Int(value) => "Int(".to_owned().concat(integer_text(*value).as_str()).concat(")"),
            ReplacementValue::Bool(value) => "Bool(".to_owned().concat(bool_text(*value).as_str()).concat(")"),
            ReplacementValue::Str(value) => "Str(".to_owned().concat(debug_text(value.as_str()).as_str()).concat(")"),
            ReplacementValue::Float(value) => "Float(".to_owned().concat(
                debug_text(value.as_str()).as_str(),
            ).concat(")"),
            ReplacementValue::Unit => "Unit".to_owned(),
            ReplacementValue::Range { next, end, step } => "Range { next: ".to_owned().concat(
                integer_text(*next).as_str(),
            ).concat(", end: ").concat(integer_text(*end).as_str()).concat(", step: ").concat(
                integer_text(*step).as_str(),
            ).concat(" }"),
            ReplacementValue::List { elements, next } => "List { elements: ".to_owned().concat(
                structure_list(elements).as_str(),
            ).concat(", next: ").concat(natural_text(*next as u64).as_str()).concat(" }"),
            ReplacementValue::Tuple(elements) => "Tuple(".to_owned().concat(
                structure_list(elements).as_str(),
            ).concat(")"),
            ReplacementValue::Callable(callable) => "Callable(".to_owned().concat(
                callable_text(callable).as_str(),
            ).concat(")"),
            ReplacementValue::Generator(generator) => "Generator(".to_owned().concat(
                generator_text(generator).as_str(),
            ).concat(")"),
            ReplacementValue::Adapter(adapter) => "Adapter(ReplacementAdapter { source: ".to_owned().concat(
                adapter.source.structure_text().as_str(),
            ).concat(", callback: ").concat(callable_text(&adapter.callback).as_str()).concat(", kind: ").concat(
                adapter_name(adapter.kind),
            ).concat(" })"),
            ReplacementValue::CollectedGenerator { elements, next } =>
            "CollectedGenerator { elements: ".to_owned().concat(structure_list(elements).as_str()).concat(
                ", next: ",
            ).concat(natural_text(*next as u64).as_str()).concat(" }"),
        }
    }
}

/// Names a kind of adapter.
fn adapter_name(kind: ReplacementAdapterKind) -> (name: &'static str)
    ensures
        name@ == adapter_spelling(kind),
{
    match kind {
        ReplacementAdapterKind::MapItems => "Map",
        ReplacementAdapterKind::FilterItems => "Filter",
    }
}

/// Renders the structural spellings of a run of values as a list.
fn structure_list(values: &Vec<ReplacementValue>) -> (text: String)
    ensures
        text@ == listed(structures(models(values@))),
    decreases values,
{
    let mut parts: Vec<String> = Vec::new();
    let mut i: usize = 0;
    while i < values.len()
        invariant
            i <= values@.len(),
            parts@.len() == i,
            forall|j: int| 0 <= j < i ==> (#[trigger] parts@[j])@ == structure(values@[j].model()),
        decreases values@.len() - i,
    {
        parts.push(values[i].structure_text());
        i += 1;
    }
    proof {
        assert(texts(parts@) =~= structures(models(values@)));
    }
    list_text(&parts)
}

/// Renders the structural spellings of a run of captured values as a list.
fn capture_list(captures: &Vec<(LocalId, ReplacementValue)>) -> (text: String)
    ensures
        text@ == listed(capture_structures(bindings_model(captures@))),
    decreases captures,
{
    let mut parts: Vec<String> = Vec::new();
    let mut i: usize = 0;
    while i < captures.len()
        invariant
            i <= captures@.len(),
            parts@.len() == i,
            forall|j: int|
                0 <= j < i ==> (#[trigger] parts@[j])@ == "("@ + spelled_local_id(captures@[j].0) + ", "@ + structure(
                    captures@[j].1.model(),
                ) + ")"@,
        decreases captures@.len() - i,
    {
        proof {
            assert(decreases_to!(captures => captures@[i as int]));
        }
        parts.push(
            "(".to_owned().concat(spell_local_id(&captures[i].0).as_str()).concat(", ").concat(
                captures[i].1.structure_text().as_str(),
            ).concat(")"),
        );
        i += 1;
    }
    proof {
        assert(texts(parts@) =~= capture_structures(bindings_model(captures@)));
    }
    list_text(&parts)
}

/// Renders the structural spelling of a callable.
fn callable_text(callable: &ReplacementCallable) -> (text: String)
    ensures
        text@ == callable_structure(callable.model()),
    decreases callable,
{
    "ReplacementCallable { params: ".to_owned().concat(spell_callable_params(&callable.params).as_str()).concat(
        ", captures: ",
    ).concat(capture_list(&callable.captures).as_str()).concat(", body: ").concat(
        spell_closure_body(&callable.body).as_str(),
    ).concat(" }")
}

/// Renders the structural spellings of a run of cursors as a list.
fn cursor_list(cursors: &Vec<GeneratorCursor>) -> (text: String)
    ensures
        text@ == listed(cursors@.map_values(|cursor: GeneratorCursor| cursor_structure(cursor))),
{
    let mut parts: Vec<String> = Vec::new();
    let mut i: usize = 0;
    while i < cursors.len()
        invariant
            i <= cursors@.len(),
            parts@.len() == i,
            forall|j: int| 0 <= j < i ==> (#[trigger] parts@[j])@ == cursor_structure(cursors@[j]),
        decreases cursors@.len() - i,
    {
        parts.push(
            "GeneratorCursor { statements: ".to_owned().concat(
                spell_statements(&cursors[i].statements).as_str(),
            ).concat(", next: ").concat(natural_text(cursors[i].next as u64).as_str()).concat(", is_loop: ").concat(
                bool_text(cursors[i].is_loop).as_str(),
            ).concat(" }"),
        );
        i += 1;
    }
    proof {
        assert(texts(parts@) =~= cursors@.map_values(|cursor: GeneratorCursor| cursor_structure(cursor)));
    }
    list_text(&parts)
}

/// Renders the structural spelling of an optional declaration.
fn declaration_text(body: &Option<Rc<Body>>) -> (text: String)
    ensures
        text@ == declaration_structure(*body),
{
    match body {
        Some(body) => "Some(".to_owned().concat(spell_body(body).as_str()).concat(")"),
        None => "None".to_owned(),
    }
}

/// Locals without values are not spelled.
proof fn lemma_gap(generator: GeneratorModel, from: int, to: int)
    requires
        0 <= from <= to <= 0x1_0000_0000,
        forall|k: int| from <= k < to ==> !(#[trigger] generator.locals.contains_key(LocalId(k as u32))),
    ensures
        binding_structures(generator, from) == binding_structures(generator, to),
    decreases to - from,
{
    if from < to {
        assert(!generator.locals.contains_key(LocalId(from as u32)));
        lemma_gap(generator, from + 1, to);
    }
}

/// The first local from one on that has a value.
fn next_local(locals: &Locals, from: u64) -> (found: Option<LocalId>)
    ensures
        match found {
            Some(local) => from <= local.0 && locals.model().contains_key(local) && forall|k: u32|
                from <= k < local.0 ==> !(#[trigger] locals.model().contains_key(LocalId(k))),
            None => forall|k: u32| from <= k ==> !(#[trigger] locals.model().contains_key(LocalId(k))),
        },
{
    let ghost bindings = bindings_model(locals.entries@);
    let mut best: Option<LocalId> = None;
    let mut i: usize = 0;
    while i < locals.entries.len()
        invariant
            i <= locals.entries@.len(),
            match best {
                Some(local) => from <= local.0 && exists|j: int|
                    0 <= j < i && (#[trigger] locals.entries@[j]).0 == local,
                None => true,
            },
            forall|j: int|
                0 <= j < i && from <= (#[trigger] locals.entries@[j]).0.0 ==> (best matches Some(local) && local.0
                    <= locals.entries@[j].0.0),
        decreases locals.entries@.len() - i,
    {
        let local: LocalId = locals.entries[i].0;
        if local.0 as u64 >= from {
            match best {
                Some(earlier) => {
                    if local.0 < earlier.0 {
                        best = Some(local);
                    }
                },
                None => {
                    best = Some(local);
                },
            }
        }
        proof {
            assert(locals.entries@[i as int].0 == local);
        }
        i += 1;
    }
    proof {
        assert forall|k: u32| #[trigger] locals.model().contains_key(LocalId(k)) implies exists|j: int|
            0 <= j < locals.entries@.len() && (#[trigger] locals.entries@[j]).0 == LocalId(k) by {
            let at = lemma_valued_locals_are_named(bindings, LocalId(k));
            assert(locals.entries@[at].0 == LocalId(k));
        }
        match best {
            Some(local) => {
                let j = choose|j: int| 0 <= j < locals.entries@.len() && (#[trigger] locals.entries@[j]).0 == local;
                lemma_named_locals_have_values(bindings, j);
                assert(bindings[j].0 == local);
            },
            None => {},
        }
    }
    best
}

/// Renders the structural spellings of a generator's bindings.
fn bindings_text(generator: &ReplacementGenerator) -> (text: String)
    ensures
        text@ == joined(binding_structures(generator.model(), 0), ", "@),
    decreases generator, 0int,
{
    let ghost model = generator.model();
    let locals: &Locals = &generator.frame.locals;
    let mut parts: Vec<String> = Vec::new();
    let mut from: u64 = 0;
    let mut more: bool = true;
    proof {
        assert(texts(parts@) + binding_structures(model, 0) =~= binding_structures(model, 0));
    }
    while more
        invariant
            0 <= from <= 0x1_0000_0000,
            model == generator.model(),
            *locals == generator.frame.locals,
            model.locals == locals.model(),
            more ==> texts(parts@) + binding_structures(model, from as int) == binding_structures(model, 0),
            !more ==> texts(parts@) == binding_structures(model, 0),
        decreases (if more { 0x1_0000_0001 - from } else { 0 }),
    {
        match next_local(locals, from) {
            None => {
                proof {
                    lemma_gap(model, from as int, 0x1_0000_0000);
                    assert(texts(parts@) + Seq::<Seq<char>>::empty() =~= texts(parts@));
                }
                more = false;
            },
            Some(local) => {
                let ghost before = texts(parts@);
                match locals.find(local) {
                    Some(at) => {
                        proof {
                            lemma_gap(model, from as int, local.0 as int);
                            assert(decreases_to!(generator => generator.frame.locals.entries@[at as int]));
                        }
                        let part: String = spell_local_id(&local).concat(": ").concat(
                            locals.entries[at].1.structure_text().as_str(),
                        );
                        let ghost spelled = part@;
                        parts.push(part);
                        proof {
                            assert(texts(parts@) =~= before.push(spelled));
                            assert(binding_structures(model, local.0 as int) == seq![spelled] + binding_structures(
                                model,
                                local.0 + 1,
                            ));
                            assert(before.push(spelled) + binding_structures(model, local.0 + 1) =~= before + (
                            seq![spelled] + binding_structures(model, local.0 + 1)));
                        }
                        from = local.0 as u64 + 1;
                    },
                    None => {},
                }
            },
        }
    }
    join(&parts, ", ")
}

/// Renders the structural spelling of a suspended generator.
fn generator_text(generator: &ReplacementGenerator) -> (text: String)
    ensures
        text@ == generator_structure(generator.model()),
    decreases generator, 1int,
{
    "ReplacementGenerator { frame: GeneratorFrame { locals: {".to_owned().concat(
        bindings_text(generator).as_str(),
    ).concat("}, cursors: ").concat(cursor_list(&generator.frame.cursors).as_str()).concat(", exhausted: ").concat(
        bool_text(generator.frame.exhausted).as_str(),
    ).concat(", steps: ").concat(natural_text(generator.frame.steps as u64).as_str()).concat(
        " }, named_body: ",
    ).concat(declaration_text(&generator.named_body).as_str()).concat(", frame_evidence: ").concat(
        spell_optional_string(&generator.frame_evidence).as_str(),
    ).concat(" }")
}

} // verus!
