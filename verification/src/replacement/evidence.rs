//! What holds of the evidence of an execution, and of what its errors and values say.

use crate::body_ir::{AbiV0RuntimeRequirement, HirSourceSpan};
use crate::replacement::error::{code_of, explanation, span_of, ErrorModel};
use crate::replacement::free_function::{
    fact_spelling, read_line, reads_summary, requirements_summary, snapshot_text,
};
use crate::replacement::semantics::{
    asks_for, evidenced, frame, merged, requirement_spelling, requirements_with, same_requirement, stepped, Halt,
    Machine, OwnershipRead,
};
use crate::replacement::value::{kind_of, observable, observables, ValueModel};
use crate::text::{decimal, has_text, joined, signed_decimal, stands_at};
use vstd::prelude::*;

verus! {

broadcast use vstd::string::group_string_axioms;

/// What is asked for by either of two runs of requirements is asked for by both together, each thing once where the
/// first run asks for each once, and nothing else is.
pub proof fn law_requirements_are_joined_without_repetition(
    requirements: Seq<AbiV0RuntimeRequirement>,
    more: Seq<AbiV0RuntimeRequirement>,
    from: int,
    wanted: AbiV0RuntimeRequirement,
)
    requires
        0 <= from <= more.len(),
        forall|i: int, j: int|
            0 <= i < j < requirements.len() ==> !same_requirement(
                #[trigger] requirements[i],
                #[trigger] requirements[j],
            ),
    ensures
        ({
            let all = requirements_with(requirements, more, from);
            &&& asks_for(all, wanted) <==> asks_for(requirements, wanted) || exists|i: int|
                from <= i < more.len() && same_requirement(#[trigger] more[i], wanted)
            &&& forall|i: int, j: int|
                0 <= i < j < all.len() ==> !same_requirement(#[trigger] all[i], #[trigger] all[j])
        }),
    decreases more.len() - from,
{
    if from < more.len() {
        let next = more[from];
        if asks_for(requirements, next) {
            law_requirements_are_joined_without_repetition(requirements, more, from + 1, wanted);
            if same_requirement(next, wanted) {
                let i = choose|i: int| 0 <= i < requirements.len() && same_requirement(#[trigger] requirements[i], next);
                assert(same_requirement(requirements[i], wanted));
            }
        } else {
            let grown = requirements.push(next);
            assert forall|i: int, j: int| 0 <= i < j < grown.len() implies !same_requirement(
                #[trigger] grown[i],
                #[trigger] grown[j],
            ) by {
                if j == requirements.len() {
                    assert(!same_requirement(requirements[i], next));
                } else {
                    assert(grown[i] == requirements[i] && grown[j] == requirements[j]);
                }
            }
            law_requirements_are_joined_without_repetition(grown, more, from + 1, wanted);
            assert(grown[requirements.len() as int] == next);
            if asks_for(requirements, wanted) {
                let i = choose|i: int|
                    0 <= i < requirements.len() && same_requirement(#[trigger] requirements[i], wanted);
                assert(same_requirement(grown[i], wanted));
            }
            if asks_for(grown, wanted) {
                let i = choose|i: int| 0 <= i < grown.len() && same_requirement(#[trigger] grown[i], wanted);
                if i < requirements.len() {
                    assert(same_requirement(requirements[i], wanted));
                }
            }
        }
    }
}

/// Statements are counted one by one up to a hundred thousand, and the next one fails.
pub proof fn law_statements_are_counted_to_the_limit(m: Machine, span: HirSourceSpan)
    ensures
        m.steps < 100000 ==> stepped(m, span) == Ok::<_, Halt>(Machine { steps: (m.steps + 1) as usize, ..m }),
        m.steps >= 100000 ==> (stepped(m, span) matches Err(halt) && halt is Error && halt->Error_0 is RuntimeFailure),
{
}

/// A caller takes over from a nested frame what it read, asked for, consumed and counted, behind its own, and nothing of
/// its locals.
pub proof fn law_frames_hand_their_evidence_over(m: Machine, child: Machine, evidence: Seq<char>)
    ensures
        merged(m, child).locals == m.locals,
        merged(m, child).reads == m.reads + child.reads,
        merged(m, child).snapshots == m.snapshots + child.snapshots,
        merged(m, child).steps == child.steps,
        evidenced(m, evidence) == (Machine { snapshots: m.snapshots.push(evidence), ..m }),
        frame(child.locals, m.steps).reads.len() == 0 && frame(child.locals, m.steps).snapshots.len() == 0 && frame(
            child.locals,
            m.steps,
        ).steps == m.steps && frame(child.locals, m.steps).locals == child.locals,
{
}

// ---------------------------------------------------------------------------
// Errors
// ---------------------------------------------------------------------------

proof fn stands_inside(before: Seq<char>, text: Seq<char>, behind: Seq<char>)
    ensures
        has_text(before + text + behind, text),
{
    let whole = before + text + behind;
    assert(whole.subrange(before.len() as int, (before.len() + text.len()) as int) =~= text);
    assert(stands_at(whole, before.len() as int, text));
}

/// The codes of errors tell what kind of error it is: an entrypoint that cannot be called, something that is not
/// supported, or a failure at run time. Only the last two arose at a place of the source, and that is the place.
pub proof fn law_codes_tell_kinds_of_errors(a: ErrorModel, b: ErrorModel)
    ensures
        code_of(a) == code_of(b) <==> (a is Unsupported <==> b is Unsupported) && (a is RuntimeFailure
            <==> b is RuntimeFailure),
        a matches ErrorModel::Unsupported(_, span) ==> span_of(a) == Some(span) && code_of(a)
            == "INCAN-R988-UNSUPPORTED"@,
        a matches ErrorModel::RuntimeFailure(_, span) ==> span_of(a) == Some(span) && code_of(a) == "INCAN-R988-RUNTIME"@,
        a is MissingFunction || a is ArgumentCount ==> span_of(a) is None && code_of(a) == "INCAN-R988-ENTRYPOINT"@,
{
    reveal_strlit("INCAN-R988-ENTRYPOINT");
    reveal_strlit("INCAN-R988-UNSUPPORTED");
    reveal_strlit("INCAN-R988-RUNTIME");
    assert("INCAN-R988-ENTRYPOINT"@.len() == 21 && "INCAN-R988-UNSUPPORTED"@.len() == 22 && "INCAN-R988-RUNTIME"@.len()
        == 18);
}

/// An error says what it is about: the function by name, with the numbers of arguments that it expects and got, or what
/// is not supported or failed, with the place.
pub proof fn law_explanations_say_what_they_are_about(error: ErrorModel)
    ensures
        match error {
            ErrorModel::MissingFunction(name) => has_text(explanation(error), name),
            ErrorModel::ArgumentCount { name, expected, actual } => {
                &&& has_text(explanation(error), name)
                &&& has_text(explanation(error), "expected "@ + decimal(expected))
                &&& has_text(explanation(error), "got "@ + decimal(actual))
            },
            ErrorModel::Unsupported(description, span) => {
                &&& has_text(explanation(error), description)
                &&& has_text(explanation(error), decimal(span.start as nat) + ".."@ + decimal(span.end as nat))
            },
            ErrorModel::RuntimeFailure(detail, span) => {
                &&& has_text(explanation(error), detail)
                &&& has_text(explanation(error), decimal(span.start as nat) + ".."@ + decimal(span.end as nat))
            },
        },
{
    match error {
        ErrorModel::MissingFunction(name) => {
            stands_inside("replacement backend has no free function named `"@, name, "` to execute"@);
        },
        ErrorModel::ArgumentCount { name, expected, actual } => counts_are_said(name, expected, actual),
        ErrorModel::Unsupported(description, span) => place_is_said(
            "replacement backend does not support "@,
            description,
            " at original Incan source span "@,
            decimal(span.start as nat),
            decimal(span.end as nat),
        ),
        ErrorModel::RuntimeFailure(detail, span) => failure_is_said(
            "replacement backend runtime failure at original Incan source span "@,
            decimal(span.start as nat),
            decimal(span.end as nat),
            detail,
        ),
    }
}

proof fn counts_are_said(name: Seq<char>, expected: nat, actual: nat)
    ensures
        ({
            let text = explanation(ErrorModel::ArgumentCount { name, expected, actual });
            &&& has_text(text, name)
            &&& has_text(text, "expected "@ + decimal(expected))
            &&& has_text(text, "got "@ + decimal(actual))
        }),
{
    let text = explanation(ErrorModel::ArgumentCount { name, expected, actual });
    let (e, a) = (decimal(expected), decimal(actual));
    let before = "replacement backend cannot execute `"@;
    reveal_strlit("`: expected ");
    reveal_strlit("expected ");
    reveal_strlit(" arguments, got ");
    reveal_strlit("got ");
    let at = before.len() as int;
    assert(text.subrange(at, at + name.len()) =~= name);
    assert(stands_at(text, at, name));
    let one = at + name.len() + 3;
    assert(text.subrange(one, one + 9 + e.len()) =~= "expected "@ + e);
    assert(stands_at(text, one, "expected "@ + e));
    let two = one + 9 + e.len() + 12;
    assert(text.subrange(two, two + 4 + a.len()) =~= "got "@ + a);
    assert(stands_at(text, two, "got "@ + a));
}

proof fn place_is_said(before: Seq<char>, what: Seq<char>, middle: Seq<char>, start: Seq<char>, end: Seq<char>)
    ensures
        has_text(before + what + middle + start + ".."@ + end, what),
        has_text(before + what + middle + start + ".."@ + end, start + ".."@ + end),
{
    let text = before + what + middle + start + ".."@ + end;
    let at = before.len() as int;
    assert(text.subrange(at, at + what.len()) =~= what);
    assert(stands_at(text, at, what));
    let one = at + what.len() + middle.len();
    assert(text.subrange(one, text.len() as int) =~= start + ".."@ + end);
    assert(stands_at(text, one, start + ".."@ + end));
}

proof fn failure_is_said(before: Seq<char>, start: Seq<char>, end: Seq<char>, detail: Seq<char>)
    ensures
        has_text(before + start + ".."@ + end + ": "@ + detail, detail),
        has_text(before + start + ".."@ + end + ": "@ + detail, start + ".."@ + end),
{
    let text = before + start + ".."@ + end + ": "@ + detail;
    let at = before.len() as int;
    let place = start + ".."@ + end;
    assert(text.subrange(at, at + place.len()) =~= place);
    assert(stands_at(text, at, place));
    let one = text.len() - detail.len();
    assert(text.subrange(one, text.len() as int) =~= detail);
    assert(stands_at(text, one, detail));
}

// ---------------------------------------------------------------------------
// Values and evidence as texts
// ---------------------------------------------------------------------------

/// A value shows itself: integers in decimal, flags by name, strings as they are, nothing as `None`, and the items of a
/// collection in order between its brackets.
pub proof fn law_values_show_themselves(value: ValueModel)
    ensures
        match value {
            ValueModel::Int(number) => observable(value) == signed_decimal(number as int),
            ValueModel::Bool(flag) => observable(value) == (if flag {
                "true"@
            } else {
                "false"@
            }),
            ValueModel::Str(text) => observable(value) == text,
            ValueModel::Float(text) => observable(value) == text,
            ValueModel::Unit => observable(value) == "None"@,
            ValueModel::Tuple(items) => observable(value) == "("@ + joined(observables(items), ", "@) + ")"@,
            ValueModel::List { elements, .. } | ValueModel::CollectedGenerator { elements, .. } => observable(value)
                == "["@ + joined(observables(elements), ", "@) + "]"@,
            ValueModel::Range { next, end, step } => observable(value) == "range("@ + signed_decimal(next as int)
                + ", "@ + signed_decimal(end as int) + ", "@ + signed_decimal(step as int) + ")"@,
            ValueModel::Callable(_) => observable(value) == "<callable>"@,
            ValueModel::Generator(_) => observable(value) == "<generator>"@,
            ValueModel::Adapter { .. } => observable(value) == "<generator-adapter>"@,
        },
        value matches ValueModel::Tuple(items) ==> forall|i: int|
            0 <= i < items.len() ==> #[trigger] observables(items)[i] == observable(items[i]),
        kind_of(value) == (match value {
            ValueModel::Int(_) => "int"@,
            ValueModel::Bool(_) => "bool"@,
            ValueModel::Str(_) => "str"@,
            ValueModel::Float(_) => "float"@,
            ValueModel::Unit => "unit"@,
            ValueModel::Range { .. } => "range"@,
            ValueModel::List { .. } => "list"@,
            ValueModel::Tuple(_) => "tuple"@,
            ValueModel::Callable(_) => "callable"@,
            ValueModel::Generator(_) => "generator"@,
            ValueModel::Adapter { .. } => "generator adapter"@,
            ValueModel::CollectedGenerator { .. } => "collected generator list"@,
        }),
{
}

/// A read is recorded with its place, its ownership decision and whether it is the local's last use. Decisions and
/// requirements go by names of their own.
pub proof fn law_reads_are_recorded_in_full(read: OwnershipRead, other: OwnershipRead)
    ensures
        read_line(read) == "span="@ + decimal(read.span.start as nat) + ".."@ + decimal(read.span.end as nat)
            + ";fact="@ + fact_spelling(read.fact) + ";last_use="@ + (if read.last_use {
            "true"@
        } else {
            "false"@
        }),
        fact_spelling(read.fact) == fact_spelling(other.fact) <==> read.fact == other.fact,
{
    reveal_strlit("copy");
    reveal_strlit("move");
    reveal_strlit("clone");
    reveal_strlit("borrow");
    reveal_strlit("mut_borrow");
    reveal_strlit("unknown");
    assert("copy"@[0] != "move"@[0]);
    assert("copy"@.len() == 4 && "clone"@.len() == 5 && "borrow"@.len() == 6 && "mut_borrow"@.len() == 10
        && "unknown"@.len() == 7);
}

/// Requirements go by names of their own, a helper's with the helper in it.
pub proof fn law_requirements_are_named_apart(a: AbiV0RuntimeRequirement, b: AbiV0RuntimeRequirement)
    ensures
        requirement_spelling(a) == requirement_spelling(b) <==> same_requirement(a, b),
{
    reveal_strlit("runtime_helper(");
    reveal_strlit(")");
    reveal_strlit("hosted_std");
    reveal_strlit("allocator");
    reveal_strlit("panic_strategy");
    reveal_strlit("async_runtime");
    assert("hosted_std"@.len() == 10 && "allocator"@.len() == 9 && "panic_strategy"@.len() == 14
        && "async_runtime"@.len() == 13);
    let (x, y) = (requirement_spelling(a), requirement_spelling(b));
    match (a, b) {
        (AbiV0RuntimeRequirement::RuntimeHelper(p), AbiV0RuntimeRequirement::RuntimeHelper(q)) => {
            assert(x.subrange(15, x.len() - 1) =~= p@);
            assert(y.subrange(15, y.len() - 1) =~= q@);
        },
        (AbiV0RuntimeRequirement::RuntimeHelper(_), _) => {
            assert(x.len() >= 16);
        },
        (_, AbiV0RuntimeRequirement::RuntimeHelper(_)) => {
            assert(y.len() >= 16);
        },
        _ => {},
    }
}

/// The summaries of an execution have one entry per read and per requirement, in their order, with bars between them,
/// and its text has its frames' texts in their order, each behind the mark of a frame but for the first.
pub proof fn law_summaries_list_what_was_seen(
    reads: Seq<OwnershipRead>,
    read: OwnershipRead,
    requirements: Seq<AbiV0RuntimeRequirement>,
    requirement: AbiV0RuntimeRequirement,
    m: Machine,
    snapshot: Seq<char>,
)
    ensures
        reads_summary(Seq::empty()) == Seq::<char>::empty(),
        reads.len() == 0 ==> reads_summary(reads.push(read)) == read_line(read),
        reads.len() > 0 ==> reads_summary(reads.push(read)) == reads_summary(reads) + "|"@ + read_line(read),
        requirements_summary(Seq::empty()) == Seq::<char>::empty(),
        requirements.len() == 0 ==> requirements_summary(requirements.push(requirement)) == requirement_spelling(
            requirement,
        ),
        requirements.len() > 0 ==> requirements_summary(requirements.push(requirement)) == requirements_summary(
            requirements,
        ) + "|"@ + requirement_spelling(requirement),
        m.snapshots.len() == 0 ==> snapshot_text(m) == Seq::<char>::empty() && snapshot_text(evidenced(m, snapshot))
            == snapshot,
        m.snapshots.len() > 0 ==> snapshot_text(evidenced(m, snapshot)) == snapshot_text(m)
            + "\n-- direct execution frame --\n"@ + snapshot,
{
    let lines = Seq::new(reads.len(), |i: int| read_line(reads[i]));
    let more = Seq::new(reads.push(read).len(), |i: int| read_line(reads.push(read)[i]));
    assert(more.drop_last() =~= lines);
    let names = Seq::new(requirements.len(), |i: int| requirement_spelling(requirements[i]));
    let names_more = Seq::new(
        requirements.push(requirement).len(),
        |i: int| requirement_spelling(requirements.push(requirement)[i]),
    );
    assert(names_more.drop_last() =~= names);
    assert(m.snapshots.push(snapshot).drop_last() =~= m.snapshots);
}

} // verus!
