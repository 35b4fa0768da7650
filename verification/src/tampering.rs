//! What the identity of a record covers: no field of an authentic record can be changed behind its identity.
//!
//! A record's identity is the digest of a text with one line per field. The lines determine the fields, so a change of
//! a field that the identity does not show is a collision of the digest.

use crate::digest::{hex, law_hex_is_two_digits_per_byte, sha256, text_identity};
use crate::fragments::{
    collide, lacks, lemma_both_lack, lemma_decimal_determines_value, lemma_decimal_digits, lemma_first_part,
    lemma_last_part, lemma_one_identity,
};
use crate::selection::{
    receipt_content, selection_content, BackendExecutionReceipt, BackendKind, BackendSelection, CompatibilityProfile,
    FallbackOutcome, FallbackPolicy, SelectionReason,
};
use crate::text::{bool_spelling, decimal};
use vstd::prelude::*;
use vstd::utf8::encode_utf8;

verus! {

broadcast use vstd::string::group_string_axioms;

/// Whether a text is one line.
pub open spec fn one_line(text: Seq<char>) -> bool {
    lacks(text, '\n')
}

proof fn lemma_line_feed()
    ensures
        "\n"@ == seq!['\n'],
{
    reveal_strlit("\n");
    assert("\n"@ =~= seq!['\n']);
}

/// The line feed behind a text can be left out.
pub proof fn lemma_ended_line(x: Seq<char>, y: Seq<char>)
    requires
        x + "\n"@ == y + "\n"@,
    ensures
        x == y,
{
    lemma_line_feed();
    assert(x =~= (x + "\n"@).drop_last());
    assert(y =~= (y + "\n"@).drop_last());
}

proof fn lemma_decimal_is_one_line(value: nat)
    ensures
        one_line(decimal(value)),
{
    lemma_decimal_digits(value);
}

proof fn lemma_identity_is_one_line(content: Seq<char>)
    ensures
        one_line(text_identity(content)),
{
    let digits = hex(sha256(encode_utf8(content)));
    law_hex_is_two_digits_per_byte(sha256(encode_utf8(content)));
    reveal_strlit("sha256:");
    let text = text_identity(content);
    assert forall|i: int| 0 <= i < text.len() implies text[i] != '\n' by {
        if i >= 7 {
            assert(text[i] == digits[i - 7]);
        }
    }
}

/// The names of backends are one line each and tell them apart.
pub proof fn lemma_backend_spellings(a: BackendKind, b: BackendKind)
    ensures
        one_line(a.spelling()),
        6 <= a.spelling().len() <= 11,
        a.spelling() == b.spelling() ==> a == b,
        a.spelling().len() == b.spelling().len() ==> a == b,
{
    reveal_strlit("Legacy");
    reveal_strlit("Replacement");
}

proof fn lemma_profile_spellings(a: CompatibilityProfile, b: CompatibilityProfile)
    ensures
        one_line(a.spelling()),
        a.spelling() == b.spelling() ==> a == b,
{
    reveal_strlit("Full");
    reveal_strlit("Partial");
    assert("Full"@.len() == 4 && "Partial"@.len() == 7);
}

proof fn lemma_reason_spellings(a: SelectionReason, b: SelectionReason)
    ensures
        one_line(a.spelling()),
        a.spelling() == b.spelling() ==> a == b,
{
    reveal_strlit("Default");
    reveal_strlit("ExplicitRequest");
    assert("Default"@.len() == 7 && "ExplicitRequest"@.len() == 15);
}

proof fn lemma_policy_spellings(a: FallbackPolicy, b: FallbackPolicy)
    ensures
        one_line(a.spelling()),
        a.spelling() == b.spelling() ==> a == b,
{
    reveal_strlit("Refuse");
    reveal_strlit("AllowTo(");
    reveal_strlit(")");
    match a {
        FallbackPolicy::AllowTo(target) => {
            lemma_backend_spellings(target, target);
            lemma_both_lack("AllowTo("@, target.spelling(), '\n');
            lemma_both_lack("AllowTo("@ + target.spelling(), ")"@, '\n');
        },
        FallbackPolicy::Refuse => {},
    }
    match (a, b) {
        (FallbackPolicy::AllowTo(x), FallbackPolicy::AllowTo(y)) => {
            lemma_backend_spellings(x, y);
            assert(a.spelling().len() == x.spelling().len() + 9);
            assert(b.spelling().len() == y.spelling().len() + 9);
        },
        (FallbackPolicy::AllowTo(x), FallbackPolicy::Refuse) => {
            lemma_backend_spellings(x, x);
            assert(a.spelling().len() == x.spelling().len() + 9);
        },
        (FallbackPolicy::Refuse, FallbackPolicy::AllowTo(y)) => {
            lemma_backend_spellings(y, y);
            assert(b.spelling().len() == y.spelling().len() + 9);
        },
        _ => {},
    }
}

proof fn lemma_flag_spellings(a: bool, b: bool)
    ensures
        one_line(bool_spelling(a)),
        bool_spelling(a) == bool_spelling(b) ==> a == b,
{
    reveal_strlit("true");
    reveal_strlit("false");
    assert("true"@.len() == 4 && "false"@.len() == 5);
}

/// Whether two selections agree in everything that an identity covers.
pub open spec fn same_selection(a: BackendSelection, b: BackendSelection) -> bool {
    &&& a.selected_backend == b.selected_backend
    &&& a.implementation_revision == b.implementation_revision
    &&& a.compatibility_profile == b.compatibility_profile
    &&& a.source_identity@ == b.source_identity@
    &&& a.selection_reason == b.selection_reason
    &&& a.fallback_policy == b.fallback_policy
    &&& a.shadow_requested == b.shadow_requested
}

/// The text whose digest is the identity of a selection.
pub open spec fn selection_text(selection: BackendSelection) -> Seq<char> {
    selection_content(
        selection.selected_backend,
        selection.implementation_revision,
        selection.compatibility_profile,
        selection.source_identity@,
        selection.selection_reason,
        selection.fallback_policy,
        selection.shadow_requested,
    )
}

/// The text of a selection determines every field that it is made of.
pub proof fn law_selection_text_shows_every_field(a: BackendSelection, b: BackendSelection)
    requires
        selection_text(a) == selection_text(b),
    ensures
        same_selection(a, b),
{
    let lf = "\n"@;
    lemma_line_feed();
    lemma_backend_spellings(a.selected_backend, b.selected_backend);
    lemma_backend_spellings(b.selected_backend, a.selected_backend);
    lemma_profile_spellings(a.compatibility_profile, b.compatibility_profile);
    lemma_profile_spellings(b.compatibility_profile, a.compatibility_profile);
    lemma_reason_spellings(a.selection_reason, b.selection_reason);
    lemma_reason_spellings(b.selection_reason, a.selection_reason);
    lemma_policy_spellings(a.fallback_policy, b.fallback_policy);
    lemma_policy_spellings(b.fallback_policy, a.fallback_policy);
    lemma_flag_spellings(a.shadow_requested, b.shadow_requested);
    lemma_flag_spellings(b.shadow_requested, a.shadow_requested);
    lemma_decimal_is_one_line(a.implementation_revision as nat);
    lemma_decimal_is_one_line(b.implementation_revision as nat);

    let (a1, b1) = (a.selected_backend.spelling(), b.selected_backend.spelling());
    let (a2, b2) = (decimal(a.implementation_revision as nat), decimal(b.implementation_revision as nat));
    let (a3, b3) = (a.compatibility_profile.spelling(), b.compatibility_profile.spelling());
    let (a4, b4) = (a.source_identity@, b.source_identity@);
    let (a5, b5) = (a.selection_reason.spelling(), b.selection_reason.spelling());
    let (a6, b6) = (a.fallback_policy.spelling(), b.fallback_policy.spelling());
    let (a7, b7) = (bool_spelling(a.shadow_requested), bool_spelling(b.shadow_requested));
    let x4 = a1 + lf + a2 + lf + a3 + lf + a4;
    let y4 = b1 + lf + b2 + lf + b3 + lf + b4;
    let x5 = x4 + lf + a5;
    let y5 = y4 + lf + b5;
    let x6 = x5 + lf + a6;
    let y6 = y5 + lf + b6;
    let x7 = x6 + lf + a7;
    let y7 = y6 + lf + b7;
    lemma_ended_line(x7, y7);
    lemma_last_part(x6, a7, y6, b7, '\n');
    lemma_last_part(x5, a6, y5, b6, '\n');
    lemma_last_part(x4, a5, y4, b5, '\n');
    let x3 = a3 + lf + a4;
    let y3 = b3 + lf + b4;
    let x2 = a2 + lf + x3;
    let y2 = b2 + lf + y3;
    assert(x4 =~= a1 + lf + x2);
    assert(y4 =~= b1 + lf + y2);
    lemma_first_part(a1, x2, b1, y2, '\n');
    lemma_first_part(a2, x3, b2, y3, '\n');
    lemma_first_part(a3, a4, b3, b4, '\n');
    lemma_decimal_determines_value(a.implementation_revision as nat, b.implementation_revision as nat);
}

/// A selection whose fields were changed behind its identity is not authentic, unless the change collides.
pub proof fn law_tampering_shows(declared: BackendSelection, changed: BackendSelection)
    requires
        declared.authentic(),
        changed.identity@ == declared.identity@,
        !same_selection(declared, changed),
    ensures
        changed.authentic() ==> collide(selection_text(declared), selection_text(changed)),
{
    if changed.authentic() {
        lemma_one_identity(selection_text(declared), selection_text(changed));
        if selection_text(declared) == selection_text(changed) {
            law_selection_text_shows_every_field(declared, changed);
        }
    }
}

/// The spellings of fallback outcomes are one line each and tell them apart.
pub proof fn lemma_outcome_spellings(a: FallbackOutcome, b: FallbackOutcome)
    ensures
        one_line(a.spelling()),
        a.spelling() == b.spelling() ==> a == b,
{
    reveal_strlit("NotNeeded");
    reveal_strlit("Declared { from: ");
    reveal_strlit(", to: ");
    reveal_strlit(" }");
    reveal_strlit("Legacy");
    reveal_strlit("Replacement");
    let text = a.spelling();
    match a {
        FallbackOutcome::NotNeeded => {},
        FallbackOutcome::Declared { from, to } => {
            lemma_backend_spellings(from, to);
            lemma_backend_spellings(to, from);
            lemma_both_lack("Declared { from: "@, from.spelling(), '\n');
            lemma_both_lack("Declared { from: "@ + from.spelling(), ", to: "@, '\n');
            lemma_both_lack("Declared { from: "@ + from.spelling() + ", to: "@, to.spelling(), '\n');
            lemma_both_lack("Declared { from: "@ + from.spelling() + ", to: "@ + to.spelling(), " }"@, '\n');
        },
    }
    if a.spelling() == b.spelling() {
        match (a, b) {
            (FallbackOutcome::Declared { from, to }, FallbackOutcome::Declared { from: f, to: t }) => {
                let other = b.spelling();
                assert(text[17] == from.spelling()[0]);
                assert(other[17] == f.spelling()[0]);
                assert(from == f);
                assert(text.len() == from.spelling().len() + to.spelling().len() + 25);
                assert(other.len() == f.spelling().len() + t.spelling().len() + 25);
                lemma_backend_spellings(to, t);
            },
            (FallbackOutcome::Declared { from, to }, FallbackOutcome::NotNeeded) => {
                assert(text[0] == 'D');
            },
            (FallbackOutcome::NotNeeded, FallbackOutcome::Declared { .. }) => {
                assert(b.spelling()[0] == 'D');
            },
            _ => {},
        }
    }
}

/// Whether two receipts agree in everything that an identity covers. Of the state of a shadow comparison an identity
/// covers the spelling.
pub open spec fn same_receipt(a: BackendExecutionReceipt, b: BackendExecutionReceipt) -> bool {
    &&& a.selection.identity@ == b.selection.identity@
    &&& a.compiler_version@ == b.compiler_version@
    &&& a.executed_backend == b.executed_backend
    &&& a.shadow_comparison.spelling() == b.shadow_comparison.spelling()
    &&& a.fallback_outcome == b.fallback_outcome
    &&& a.diagnostic_contract_version == b.diagnostic_contract_version
    &&& a.output_identity@ == b.output_identity@
}

/// The text whose digest is the identity of a receipt.
pub open spec fn receipt_text(receipt: BackendExecutionReceipt) -> Seq<char> {
    receipt_content(
        receipt.selection.identity@,
        receipt.compiler_version@,
        receipt.executed_backend,
        receipt.shadow_comparison,
        receipt.fallback_outcome,
        receipt.diagnostic_contract_version,
        receipt.output_identity@,
    )
}

/// The text of a receipt determines every field that it is made of, where the identities and the version in it are
/// one line each.
pub proof fn law_receipt_text_shows_every_field(a: BackendExecutionReceipt, b: BackendExecutionReceipt)
    requires
        receipt_text(a) == receipt_text(b),
        one_line(a.selection.identity@) && one_line(b.selection.identity@),
        one_line(a.compiler_version@) && one_line(b.compiler_version@),
        one_line(a.output_identity@) && one_line(b.output_identity@),
    ensures
        same_receipt(a, b),
{
    let lf = "\n"@;
    lemma_line_feed();
    lemma_backend_spellings(a.executed_backend, b.executed_backend);
    lemma_backend_spellings(b.executed_backend, a.executed_backend);
    lemma_outcome_spellings(a.fallback_outcome, b.fallback_outcome);
    lemma_outcome_spellings(b.fallback_outcome, a.fallback_outcome);
    lemma_decimal_is_one_line(a.diagnostic_contract_version as nat);
    lemma_decimal_is_one_line(b.diagnostic_contract_version as nat);

    let (a1, b1) = (a.selection.identity@, b.selection.identity@);
    let (a2, b2) = (a.compiler_version@, b.compiler_version@);
    let (a3, b3) = (a.executed_backend.spelling(), b.executed_backend.spelling());
    let (a4, b4) = (a.shadow_comparison.spelling(), b.shadow_comparison.spelling());
    let (a5, b5) = (a.fallback_outcome.spelling(), b.fallback_outcome.spelling());
    let (a6, b6) = (decimal(a.diagnostic_contract_version as nat), decimal(b.diagnostic_contract_version as nat));
    let (a7, b7) = (a.output_identity@, b.output_identity@);
    let x4 = a1 + lf + a2 + lf + a3 + lf + a4;
    let y4 = b1 + lf + b2 + lf + b3 + lf + b4;
    let x5 = x4 + lf + a5;
    let y5 = y4 + lf + b5;
    let x6 = x5 + lf + a6;
    let y6 = y5 + lf + b6;
    let x7 = x6 + lf + a7;
    let y7 = y6 + lf + b7;
    lemma_ended_line(x7, y7);
    lemma_last_part(x6, a7, y6, b7, '\n');
    lemma_last_part(x5, a6, y5, b6, '\n');
    lemma_last_part(x4, a5, y4, b5, '\n');
    let x3 = a3 + lf + a4;
    let y3 = b3 + lf + b4;
    let x2 = a2 + lf + x3;
    let y2 = b2 + lf + y3;
    assert(x4 =~= a1 + lf + x2);
    assert(y4 =~= b1 + lf + y2);
    lemma_first_part(a1, x2, b1, y2, '\n');
    lemma_first_part(a2, x3, b2, y3, '\n');
    lemma_first_part(a3, a4, b3, b4, '\n');
    lemma_decimal_determines_value(a.diagnostic_contract_version as nat, b.diagnostic_contract_version as nat);
}

/// A receipt whose fields were changed behind its identity is not authentic, unless the change collides. So is one
/// that was bound to another selection, or whose selection was changed.
pub proof fn law_receipt_tampering_shows(finalized: BackendExecutionReceipt, changed: BackendExecutionReceipt)
    requires
        finalized.authentic(),
        changed.identity@ == finalized.identity@,
        one_line(finalized.compiler_version@) && one_line(changed.compiler_version@),
        one_line(finalized.output_identity@) && one_line(changed.output_identity@),
        !same_receipt(finalized, changed) || !same_selection(finalized.selection, changed.selection),
    ensures
        changed.authentic() ==> collide(receipt_text(finalized), receipt_text(changed)) || collide(
            selection_text(finalized.selection),
            selection_text(changed.selection),
        ),
{
    if changed.authentic() {
        lemma_identity_is_one_line(selection_text(finalized.selection));
        lemma_identity_is_one_line(selection_text(changed.selection));
        lemma_one_identity(receipt_text(finalized), receipt_text(changed));
        if receipt_text(finalized) == receipt_text(changed) {
            law_receipt_text_shows_every_field(finalized, changed);
            law_tampering_shows(finalized.selection, changed.selection);
        }
    }
}

} // verus!
