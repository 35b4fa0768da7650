//! What the texts of a comparison say when they are read again.

use crate::replacement::value::ReplacementValue;
use crate::shadow::comparison::combined_reason;
use crate::shadow::frame::{RESULT_BEGIN_MARKER, RESULT_END_MARKER};
use crate::shadow::profile::{
    code_point, escaped, first_unspellable, legacy_program, literal, literals, spelled, string_literal, unspellable,
    upper_hex, with_line_end, ShadowComparisonProfile,
};
use crate::text::{begins_with, decimal, has_text, joined, signed_decimal, stands_at};
use vstd::prelude::*;

verus! {

broadcast use vstd::string::group_string_axioms;

// ---------------------------------------------------------------------------
// Numerals
// ---------------------------------------------------------------------------

/// The number that a run of decimal digits reads as.
pub open spec fn read_digits(text: Seq<char>) -> int
    decreases text.len(),
{
    if text.len() == 0 {
        0
    } else {
        10 * read_digits(text.drop_last()) + (text.last() as int - '0' as int)
    }
}

/// Whether a text is a run of decimal digits without leading zeros.
pub open spec fn is_numeral(text: Seq<char>) -> bool {
    &&& text.len() > 0
    &&& text.len() > 1 ==> text[0] != '0'
    &&& forall|i: int| 0 <= i < text.len() ==> '0' <= #[trigger] text[i] <= '9'
}

/// A number is spelled as the numeral that reads as it, and a negative one behind a minus sign.
pub proof fn law_numerals_read_as_their_number(value: int)
    ensures
        value >= 0 ==> is_numeral(decimal(value as nat)) && read_digits(decimal(value as nat)) == value,
        value >= 0 ==> signed_decimal(value) == decimal(value as nat),
        value < 0 ==> signed_decimal(value) == seq!['-'] + decimal((-value) as nat),
{
    if value >= 0 {
        numeral(value as nat);
    }
    reveal_strlit("-");
    assert("-"@ =~= seq!['-']);
}

proof fn numeral(value: nat)
    ensures
        is_numeral(decimal(value)),
        read_digits(decimal(value)) == value,
        value > 0 ==> decimal(value)[0] != '0',
    decreases value,
{
    if value >= 10 {
        numeral(value / 10);
        let front = decimal(value / 10);
        assert(decimal(value).drop_last() =~= front);
        assert(decimal(value)[0] == front[0]);
    } else {
        assert(decimal(value).drop_last() =~= Seq::empty());
        assert(read_digits(Seq::<char>::empty()) == 0);
    }
}

/// The number that a run of uppercase hexadecimal digits reads as.
pub open spec fn read_hex(text: Seq<char>) -> int
    decreases text.len(),
{
    if text.len() == 0 {
        0
    } else {
        16 * read_hex(text.drop_last()) + (if '0' <= text.last() <= '9' {
            text.last() as int - '0' as int
        } else {
            text.last() as int - 'A' as int + 10
        })
    }
}

/// A control code is named by the four hexadecimal digits that read as it.
pub proof fn law_control_codes_are_named_by_number(c: char)
    requires
        (c as int) < 256,
    ensures
        code_point(c).len() == 4,
        read_hex(code_point(c)) == c as int,
{
    let text = code_point(c);
    let (high, low) = (c as int / 16, c as int % 16);
    assert(text.drop_last() =~= seq!['0', '0', upper_hex(high)]);
    assert(text.drop_last().drop_last() =~= seq!['0', '0']);
    assert(text.drop_last().drop_last().drop_last() =~= seq!['0']);
    assert(text.drop_last().drop_last().drop_last().drop_last() =~= Seq::<char>::empty());
    reveal_with_fuel(read_hex, 5);
}

// ---------------------------------------------------------------------------
// String literals
// ---------------------------------------------------------------------------

/// The text that the inside of a string literal reads as: a backslash and the character behind it stand for one
/// character.
pub open spec fn unescaped(text: Seq<char>) -> Seq<char>
    decreases text.len(),
{
    if text.len() == 0 {
        Seq::empty()
    } else if text[0] == '\\' && text.len() >= 2 {
        seq![
            if text[1] == 'n' {
                '\n'
            } else if text[1] == 'r' {
                '\r'
            } else if text[1] == 't' {
                '\t'
            } else {
                text[1]
            },
        ] + unescaped(text.skip(2))
    } else {
        seq![text[0]] + unescaped(text.skip(1))
    }
}

/// Whether a quote ends a literal somewhere in it: one that no backslash escapes.
pub open spec fn has_bare_quote(text: Seq<char>) -> bool
    decreases text.len(),
{
    if text.len() == 0 {
        false
    } else if text[0] == '\\' && text.len() >= 2 {
        has_bare_quote(text.skip(2))
    } else {
        text[0] == '"' || has_bare_quote(text.skip(1))
    }
}

/// What a text is spelled as inside a string literal reads as the text again, and does not end the literal.
pub proof fn law_literals_read_as_their_text(text: Seq<char>)
    ensures
        unescaped(escaped(text)) == text,
        !has_bare_quote(escaped(text)),
    decreases text.len(),
{
    if text.len() > 0 {
        let rest = text.drop_first();
        law_literals_read_as_their_text(rest);
        let (first, all) = (spelled(text[0]), escaped(text));
        assert(all == first + escaped(rest));
        if first.len() == 2 {
            assert(all.skip(2) =~= escaped(rest));
        } else {
            assert(all.skip(1) =~= escaped(rest));
        }
        assert(seq![text[0]] + rest =~= text);
        assert(unescaped(all) =~= text);
    } else {
        assert(unescaped(escaped(text)) =~= text);
    }
}

/// A text has a literal exactly where it holds no control code but line feeds, carriage returns and tabs, and the literal
/// stands between quotes.
pub proof fn law_control_codes_have_no_literal(text: Seq<char>)
    ensures
        string_literal(text) is Err <==> exists|i: int|
            0 <= i < text.len() && ((#[trigger] text[i] as int) < 0x20 || 0x7f <= text[i] as int <= 0x9f) && text[i]
                != '\n' && text[i] != '\r' && text[i] != '\t',
        string_literal(text) matches Ok(spelling) ==> spelling.len() == escaped(text).len() + 2 && spelling[0] == '"'
            && spelling.last() == '"' && spelling.subrange(1, spelling.len() - 1) == escaped(text),
{
    no_spelling(text);
    reveal_strlit("\"");
    match string_literal(text) {
        Ok(spelling) => assert(spelling.subrange(1, spelling.len() - 1) =~= escaped(text)),
        Err(_) => {},
    }
}

proof fn no_spelling(text: Seq<char>)
    ensures
        first_unspellable(text) is Some <==> exists|i: int| 0 <= i < text.len() && unspellable(#[trigger] text[i]),
    decreases text.len(),
{
    if text.len() > 0 {
        let rest = text.drop_first();
        no_spelling(rest);
        if exists|i: int| 0 <= i < rest.len() && unspellable(#[trigger] rest[i]) {
            let i = choose|i: int| 0 <= i < rest.len() && unspellable(#[trigger] rest[i]);
            assert(unspellable(text[i + 1]));
        }
        if exists|i: int| 0 <= i < text.len() && unspellable(#[trigger] text[i]) {
            let i = choose|i: int| 0 <= i < text.len() && unspellable(#[trigger] text[i]);
            if i > 0 {
                assert(unspellable(rest[i - 1]));
            }
        }
    }
}

/// An argument is passed as the literal of its own kind: integers as numerals, flags by name and strings as string
/// literals. Nothing else has a literal.
pub proof fn law_arguments_are_passed_as_literals(value: ReplacementValue)
    ensures
        match value {
            ReplacementValue::Int(number) => literal(value) == Ok::<_, Seq<char>>(signed_decimal(number as int)),
            ReplacementValue::Bool(flag) => literal(value) == Ok::<_, Seq<char>>(if flag {
                "true"@
            } else {
                "false"@
            }),
            ReplacementValue::Str(text) => literal(value) == string_literal(text@),
            _ => literal(value) is Err,
        },
{
}

// ---------------------------------------------------------------------------
// The program of the legacy route
// ---------------------------------------------------------------------------

/// The program of the legacy route is the source with a `main` behind it that prints the function's result between the
/// markers of a frame: the begin marker, the call with its arguments in order, and the end marker, one behind the other.
/// A profile of `main` itself, or of a function that is not active, has no such program.
pub proof fn law_legacy_programs_frame_the_call(
    profile: ShadowComparisonProfile,
    active: Result<Seq<Seq<char>>, Seq<char>>,
)
    ensures
        profile.function@ == "main"@ ==> legacy_program(profile, active) is Err,
        active matches Ok(functions) && !functions.contains(profile.function@) ==> legacy_program(profile, active) is Err,
        active is Err ==> legacy_program(profile, active) is Err,
        legacy_program(profile, active) matches Ok(program) ==> {
            &&& begins_with(program, profile.source@)
            &&& literals(profile.arguments@, 0, Seq::empty()) matches Ok(args)
            &&& exists|begin: int, call: int, end: int|
                profile.source@.len() <= begin && begin < call < end && #[trigger] stands_at(
                    program,
                    begin,
                    "println(\""@ + RESULT_BEGIN_MARKER@ + "\")"@,
                ) && #[trigger] stands_at(
                    program,
                    call,
                    "println("@ + profile.function@ + "("@ + joined(args, ", "@) + "))"@,
                ) && #[trigger] stands_at(program, end, "println(\""@ + RESULT_END_MARKER@ + "\")"@)
        },
{
    match legacy_program(profile, active) {
        Err(_) => {},
        Ok(program) => {
            let args = literals(profile.arguments@, 0, Seq::empty())->Ok_0;
            let source = with_line_end(profile.source@);
            reveal_strlit("\ndef main() -> None:\n    println(\"");
            reveal_strlit("\")\n    println(");
            reveal_strlit("))\n    println(\"");
            reveal_strlit("\")\n");
            reveal_strlit("println(\"");
            reveal_strlit("\")");
            reveal_strlit("println(");
            reveal_strlit("(");
            reveal_strlit("))");
            reveal_strlit("\n");
            assert(program.take(profile.source@.len() as int) =~= profile.source@);
            let first = "println(\""@ + RESULT_BEGIN_MARKER@ + "\")"@;
            let middle = "println("@ + profile.function@ + "("@ + joined(args, ", "@) + "))"@;
            let last = "println(\""@ + RESULT_END_MARKER@ + "\")"@;
            let begin = (source.len() + 25) as int;
            let call = begin + first.len() + 5;
            let end = call + middle.len() + 5;
            assert(program.subrange(begin, begin + first.len()) =~= first);
            assert(program.subrange(call, call + middle.len()) =~= middle);
            assert(program.subrange(end, end + last.len()) =~= last);
            assert(stands_at(program, begin, first) && stands_at(program, call, middle) && stands_at(
                program,
                end,
                last,
            ));
        },
    }
}

/// Why a comparison could not run is said of every route that did not execute, in that route's own words.
pub proof fn law_reasons_name_every_route(legacy: Option<Seq<char>>, replacement: Option<Seq<char>>)
    ensures
        legacy matches Some(reason) ==> has_text(combined_reason(legacy, replacement), reason),
        replacement matches Some(reason) ==> has_text(combined_reason(legacy, replacement), reason),
        legacy is Some && replacement is None ==> has_text(combined_reason(legacy, replacement), "legacy"@),
        legacy is None && replacement is Some ==> has_text(combined_reason(legacy, replacement), "replacement"@),
{
    let text = combined_reason(legacy, replacement);
    match (legacy, replacement) {
        (Some(l), Some(r)) => {
            let before = "neither route executed; legacy route: "@;
            assert(text.subrange(before.len() as int, (before.len() + l.len()) as int) =~= l);
            assert(stands_at(text, before.len() as int, l));
            assert(text.subrange(text.len() - r.len(), text.len() as int) =~= r);
            assert(stands_at(text, text.len() - r.len(), r));
        },
        (Some(l), None) => {
            assert(text.subrange(text.len() - l.len(), text.len() as int) =~= l);
            assert(stands_at(text, text.len() - l.len(), l));
            reveal_strlit("legacy");
            reveal_strlit("the legacy route did not execute: ");
            assert(text.subrange(4, 10) =~= "legacy"@);
            assert(stands_at(text, 4, "legacy"@));
        },
        (None, Some(r)) => {
            assert(text.subrange(text.len() - r.len(), text.len() as int) =~= r);
            assert(stands_at(text, text.len() - r.len(), r));
            reveal_strlit("replacement");
            reveal_strlit("the replacement route did not execute: ");
            assert(text.subrange(4, 15) =~= "replacement"@);
            assert(stands_at(text, 4, "replacement"@));
        },
        (None, None) => {},
    }
}

} // verus!
