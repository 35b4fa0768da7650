//! What verifying a receipt gives once one of its fields was changed.

use crate::fragments::{collide, lemma_decimal_determines_value, lemma_one_identity};
use crate::selection::{
    BackendExecutionReceipt, BackendSelectionError, ShadowComparisonState, StateModel,
    BACKEND_SELECTION_SCHEMA_VERSION,
};
use crate::tampering::{
    law_selection_text_shows_every_field, lemma_backend_spellings, lemma_ended_line, lemma_outcome_spellings,
    receipt_text, same_selection, selection_text,
};
use crate::text::{debug_quoted, decimal};
use vstd::prelude::*;

verus! {

broadcast use vstd::string::group_string_axioms;

/// The fields of a receipt.
pub ghost enum ReceiptField {
    /// The schema version.
    Schema,
    /// The identity.
    Identity,
    /// The compiler version.
    Compiler,
    /// The selection.
    Selection,
    /// The backend that executed.
    Executed,
    /// The state of the shadow comparison.
    Comparison,
    /// The fallback outcome.
    Fallback,
    /// The version of the diagnostic contract.
    Diagnostics,
    /// The identity of the output.
    Output,
}

/// Whether two receipts have one field alike. The state of a shadow comparison is alike where it is spelled alike.
pub open spec fn alike_in(a: BackendExecutionReceipt, b: BackendExecutionReceipt, field: ReceiptField) -> bool {
    match field {
        ReceiptField::Schema => a.schema_version == b.schema_version,
        ReceiptField::Identity => a.identity@ == b.identity@,
        ReceiptField::Compiler => a.compiler_version@ == b.compiler_version@,
        ReceiptField::Selection => a.selection.schema_version == b.selection.schema_version && a.selection.identity@
            == b.selection.identity@ && same_selection(a.selection, b.selection),
        ReceiptField::Executed => a.executed_backend == b.executed_backend,
        ReceiptField::Comparison => a.shadow_comparison.spelling() == b.shadow_comparison.spelling(),
        ReceiptField::Fallback => a.fallback_outcome == b.fallback_outcome,
        ReceiptField::Diagnostics => a.diagnostic_contract_version == b.diagnostic_contract_version,
        ReceiptField::Output => a.output_identity@ == b.output_identity@,
    }
}

/// Whether two receipts are alike in every field but perhaps one.
pub open spec fn alike_but(a: BackendExecutionReceipt, b: BackendExecutionReceipt, field: ReceiptField) -> bool {
    forall|other: ReceiptField| other != field ==> #[trigger] alike_in(a, b, other)
}

/// What stands between the same texts is the same where the whole is.
proof fn lemma_middle(before: Seq<char>, a: Seq<char>, b: Seq<char>, after: Seq<char>)
    requires
        before + a + after == before + b + after,
    ensures
        a == b,
{
    let left = before + a + after;
    let right = before + b + after;
    assert(left.len() == before.len() + a.len() + after.len());
    assert(right.len() == before.len() + b.len() + after.len());
    assert(a =~= left.subrange(before.len() as int, (before.len() + a.len()) as int));
    assert(b =~= right.subrange(before.len() as int, (before.len() + b.len()) as int));
}

/// What stands before the same text is the same where the whole is.
proof fn lemma_same_end(x: Seq<char>, y: Seq<char>, end: Seq<char>)
    requires
        x + end == y + end,
    ensures
        x == y,
{
    lemma_middle(Seq::empty(), x, y, end);
}

/// What stands behind the same text is the same where the whole is.
proof fn lemma_same_start(start: Seq<char>, x: Seq<char>, y: Seq<char>)
    requires
        start + x == start + y,
    ensures
        x == y,
{
    assert((start + x).len() == start.len() + x.len());
    assert((start + y).len() == start.len() + y.len());
    assert(x =~= (start + x).skip(start.len() as int));
    assert(y =~= (start + y).skip(start.len() as int));
}

/// Receipts with one text that are alike in every field but one are alike in that field too, where the text shows it.
proof fn lemma_one_text_shows_one_field(
    a: BackendExecutionReceipt,
    b: BackendExecutionReceipt,
    field: ReceiptField,
)
    requires
        alike_but(a, b, field),
        receipt_text(a) == receipt_text(b),
    ensures
        a.selection.identity@ == b.selection.identity@,
        field is Compiler || field is Executed || field is Comparison || field is Fallback || field is Diagnostics
            || field is Output ==> alike_in(a, b, field),
{
    let lf = "\n"@;
    let (a1, b1) = (a.selection.identity@, b.selection.identity@);
    let (a2, b2) = (a.compiler_version@, b.compiler_version@);
    let (a3, b3) = (a.executed_backend.spelling(), b.executed_backend.spelling());
    let (a4, b4) = (a.shadow_comparison.spelling(), b.shadow_comparison.spelling());
    let (a5, b5) = (a.fallback_outcome.spelling(), b.fallback_outcome.spelling());
    let (a6, b6) = (decimal(a.diagnostic_contract_version as nat), decimal(b.diagnostic_contract_version as nat));
    let (a7, b7) = (a.output_identity@, b.output_identity@);
    let (x2, y2) = (a1 + lf + a2, b1 + lf + b2);
    let (x3, y3) = (x2 + lf + a3, y2 + lf + b3);
    let (x4, y4) = (x3 + lf + a4, y3 + lf + b4);
    let (x5, y5) = (x4 + lf + a5, y4 + lf + b5);
    let (x6, y6) = (x5 + lf + a6, y5 + lf + b6);
    let (x7, y7) = (x6 + lf + a7, y6 + lf + b7);
    assert(field != ReceiptField::Selection ==> alike_in(a, b, ReceiptField::Selection));
    assert(field != ReceiptField::Compiler ==> alike_in(a, b, ReceiptField::Compiler));
    assert(field != ReceiptField::Executed ==> alike_in(a, b, ReceiptField::Executed));
    assert(field != ReceiptField::Comparison ==> alike_in(a, b, ReceiptField::Comparison));
    assert(field != ReceiptField::Fallback ==> alike_in(a, b, ReceiptField::Fallback));
    assert(field != ReceiptField::Diagnostics ==> alike_in(a, b, ReceiptField::Diagnostics));
    assert(field != ReceiptField::Output ==> alike_in(a, b, ReceiptField::Output));
    lemma_ended_line(x7, y7);
    if field is Output {
        lemma_same_start(x6 + lf, a7, b7);
    } else {
        lemma_same_end(x6 + lf, y6 + lf, a7);
        lemma_ended_line(x6, y6);
        if field is Diagnostics {
            lemma_same_start(x5 + lf, a6, b6);
            lemma_decimal_determines_value(
                a.diagnostic_contract_version as nat,
                b.diagnostic_contract_version as nat,
            );
        } else {
            lemma_same_end(x5 + lf, y5 + lf, a6);
            lemma_ended_line(x5, y5);
            if field is Fallback {
                lemma_same_start(x4 + lf, a5, b5);
                lemma_outcome_spellings(a.fallback_outcome, b.fallback_outcome);
            } else {
                lemma_same_end(x4 + lf, y4 + lf, a5);
                lemma_ended_line(x4, y4);
                if field is Comparison {
                    lemma_same_start(x3 + lf, a4, b4);
                } else {
                    lemma_same_end(x3 + lf, y3 + lf, a4);
                    lemma_ended_line(x3, y3);
                    if field is Executed {
                        lemma_same_start(x2 + lf, a3, b3);
                        lemma_backend_spellings(a.executed_backend, b.executed_backend);
                    } else {
                        lemma_same_end(x2 + lf, y2 + lf, a3);
                        lemma_ended_line(x2, y2);
                        if field is Compiler {
                            lemma_same_start(a1 + lf, a2, b2);
                        } else {
                            lemma_same_end(a1 + lf, b1 + lf, a2);
                            lemma_ended_line(a1, b1);
                        }
                    }
                }
            }
        }
    }
}

/// What verifying an authentic receipt gives once at most one of its fields was changed, where the digest does not
/// collide: success where nothing was changed, the selection's own error where the selection does not verify, a
/// foreign schema where the schema version was changed, and else a foreign identity that names the recorded one.
pub proof fn law_one_changed_field_shows(
    finalized: BackendExecutionReceipt,
    changed: BackendExecutionReceipt,
    field: ReceiptField,
    outcome: Result<(), BackendSelectionError>,
)
    requires
        finalized.authentic(),
        alike_but(finalized, changed, field),
        changed.verified_as(outcome),
        !collide(receipt_text(finalized), receipt_text(changed)),
        !collide(selection_text(finalized.selection), selection_text(changed.selection)),
    ensures
        outcome is Ok <==> alike_in(finalized, changed, field),
        !changed.selection.authentic() ==> outcome is Err && changed.selection.verified_as(outcome),
        field is Schema && !alike_in(finalized, changed, field) ==> outcome == Err::<(), BackendSelectionError>(
            BackendSelectionError::UnsupportedReceiptSchema {
                found: changed.schema_version,
                expected: BACKEND_SELECTION_SCHEMA_VERSION,
            },
        ),
        !(field is Schema) && changed.selection.authentic() && !alike_in(finalized, changed, field) ==> (outcome matches Err(
            BackendSelectionError::ReceiptIdentityMismatch { expected, actual },
        ) && expected@ == changed.identity@),
{
    assert(field != ReceiptField::Schema ==> alike_in(finalized, changed, ReceiptField::Schema));
    assert(field != ReceiptField::Identity ==> alike_in(finalized, changed, ReceiptField::Identity));
    assert(field != ReceiptField::Compiler ==> alike_in(finalized, changed, ReceiptField::Compiler));
    assert(field != ReceiptField::Selection ==> alike_in(finalized, changed, ReceiptField::Selection));
    assert(field != ReceiptField::Executed ==> alike_in(finalized, changed, ReceiptField::Executed));
    assert(field != ReceiptField::Comparison ==> alike_in(finalized, changed, ReceiptField::Comparison));
    assert(field != ReceiptField::Fallback ==> alike_in(finalized, changed, ReceiptField::Fallback));
    assert(field != ReceiptField::Diagnostics ==> alike_in(finalized, changed, ReceiptField::Diagnostics));
    assert(field != ReceiptField::Output ==> alike_in(finalized, changed, ReceiptField::Output));
    if alike_in(finalized, changed, field) {
        assert(receipt_text(finalized) == receipt_text(changed));
        assert(selection_text(finalized.selection) == selection_text(changed.selection));
        assert(changed.authentic());
    } else if changed.authentic() {
        if field is Identity {
            assert(receipt_text(finalized) == receipt_text(changed));
        } else {
            assert(finalized.identity@ == changed.identity@);
            lemma_one_identity(receipt_text(finalized), receipt_text(changed));
            lemma_one_text_shows_one_field(finalized, changed, field);
            if field is Selection {
                lemma_one_identity(selection_text(finalized.selection), selection_text(changed.selection));
                law_selection_text_shows_every_field(finalized.selection, changed.selection);
            }
        }
        assert(false);
    }
}

/// Whether quoting tells texts apart.
pub open spec fn quoting_is_injective() -> bool {
    forall|x: Seq<char>, y: Seq<char>| debug_quoted(x) == debug_quoted(y) ==> x == y
}

/// Different kinds of states are spelled differently. So are states of one kind that differ in a single text, where
/// quoting tells texts apart.
pub proof fn law_states_are_spelled_apart(a: ShadowComparisonState, b: ShadowComparisonState)
    requires
        a.spelling() == b.spelling(),
    ensures
        match (a.model(), b.model()) {
            (StateModel::NotRequested, StateModel::NotRequested) => true,
            (StateModel::Unavailable(x), StateModel::Unavailable(y)) => debug_quoted(x) == debug_quoted(y) && (
            quoting_is_injective() ==> x == y),
            (
                StateModel::Matched { profile_kind: k, profile_identity: i, observable: x },
                StateModel::Matched { profile_kind: l, profile_identity: j, observable: y },
            ) => {
                &&& quoting_is_injective() && i == j && x == y ==> k == l
                &&& quoting_is_injective() && k == l && x == y ==> i == j
                &&& quoting_is_injective() && k == l && i == j ==> x == y
            },
            (
                StateModel::Diverged { profile_kind: k, profile_identity: i, detail: x },
                StateModel::Diverged { profile_kind: l, profile_identity: j, detail: y },
            ) => {
                &&& quoting_is_injective() && i == j && x == y ==> k == l
                &&& quoting_is_injective() && k == l && x == y ==> i == j
                &&& quoting_is_injective() && k == l && i == j ==> x == y
            },
            _ => false,
        },
{
    reveal_strlit("NotRequested");
    reveal_strlit("Unavailable { reason: ");
    reveal_strlit("Matched { profile_kind: ");
    reveal_strlit("Diverged { profile_kind: ");
    let (left, right) = (a.spelling(), b.spelling());
    assert(a is NotRequested ==> left[0] == 'N');
    assert(a is Unavailable ==> left[0] == 'U');
    assert(a is Matched ==> left[0] == 'M');
    assert(a is Diverged ==> left[0] == 'D');
    assert(b is NotRequested ==> right[0] == 'N');
    assert(b is Unavailable ==> right[0] == 'U');
    assert(b is Matched ==> right[0] == 'M');
    assert(b is Diverged ==> right[0] == 'D');
    match (a.model(), b.model()) {
        (StateModel::Unavailable(x), StateModel::Unavailable(y)) => {
            lemma_middle("Unavailable { reason: "@, debug_quoted(x), debug_quoted(y), " }"@);
        },
        (
            StateModel::Matched { profile_kind: k, profile_identity: i, observable: x },
            StateModel::Matched { profile_kind: l, profile_identity: j, observable: y },
        ) => {
            lemma_three_texts("Matched { profile_kind: "@, ", observable: "@, k, i, x, l, j, y);
        },
        (
            StateModel::Diverged { profile_kind: k, profile_identity: i, detail: x },
            StateModel::Diverged { profile_kind: l, profile_identity: j, detail: y },
        ) => {
            lemma_three_texts("Diverged { profile_kind: "@, ", detail: "@, k, i, x, l, j, y);
        },
        _ => {},
    }
}

/// Of three quoted texts any one is determined by the other two and the whole.
proof fn lemma_three_texts(
    head: Seq<char>,
    last: Seq<char>,
    k: Seq<char>,
    i: Seq<char>,
    x: Seq<char>,
    l: Seq<char>,
    j: Seq<char>,
    y: Seq<char>,
)
    requires
        head + debug_quoted(k) + ", profile_identity: "@ + debug_quoted(i) + last + debug_quoted(x) + " }"@ == head
            + debug_quoted(l) + ", profile_identity: "@ + debug_quoted(j) + last + debug_quoted(y) + " }"@,
    ensures
        i == j && x == y ==> debug_quoted(k) == debug_quoted(l),
        k == l && x == y ==> debug_quoted(i) == debug_quoted(j),
        k == l && i == j ==> debug_quoted(x) == debug_quoted(y),
{
    let (mid, end) = (", profile_identity: "@, " }"@);
    let (qk, qi, qx) = (debug_quoted(k), debug_quoted(i), debug_quoted(x));
    let (ql, qj, qy) = (debug_quoted(l), debug_quoted(j), debug_quoted(y));
    let left = head + qk + mid + qi + last + qx + end;
    let right = head + ql + mid + qj + last + qy + end;
    if i == j && x == y {
        let after = mid + qi + last + qx + end;
        assert(left =~= head + qk + after);
        assert(right =~= head + ql + after);
        lemma_middle(head, qk, ql, after);
    }
    if k == l && x == y {
        let before = head + qk + mid;
        let after = last + qx + end;
        assert(left =~= before + qi + after);
        assert(right =~= before + qj + after);
        lemma_middle(before, qi, qj, after);
    }
    if k == l && i == j {
        let before = head + qk + mid + qi + last;
        lemma_middle(before, qx, qy, end);
    }
}

} // verus!
