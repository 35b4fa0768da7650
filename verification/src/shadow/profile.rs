//! The compared profile: a module, a function, and its arguments.

use crate::replacement::structure::structure;
use crate::replacement::value::ReplacementValue;
use crate::selection::{digest_output, fragments_identity};
use crate::shadow::frame::{RESULT_BEGIN_MARKER, RESULT_END_MARKER};
use crate::shadow::{
    text_outcome, ShadowUnavailable, PROGRAM_ENTRYPOINT_UNAVAILABLE_REASON, SHADOW_COMPARISON_PROFILE_ID,
};
use crate::text::{
    bool_spelling, bool_text, chars_of, ends_with, finishes_with, integer_text, join, joined, same_text,
    signed_decimal, slice_texts, texts,
};
use vstd::prelude::*;

verus! {

broadcast use vstd::string::group_string_axioms;

/// One instance of the comparison profile.
#[derive(Debug)]
pub struct ShadowComparisonProfile {
    /// The module source that both routes observe.
    pub source: String,
    /// The observed function's name.
    pub function: String,
    /// The arguments it is called with.
    pub arguments: Vec<ReplacementValue>,
}

/// What stopped a source from being prepared.
#[derive(Debug)]
#[allow(inconsistent_fields)]
pub enum SourceFailure {
    /// It has no tokens.
    Lex(String),
    /// It has no syntax tree.
    Parse(String),
    /// It does not satisfy the Body IR input contract.
    InputContract(String),
    /// It has type errors.
    Typecheck(String),
}

/// Why a source could not be prepared.
pub open spec fn source_failure(failure: SourceFailure) -> Seq<char> {
    match failure {
        SourceFailure::Lex(errors) => "comparison source did not lex: "@ + errors@,
        SourceFailure::Parse(errors) => "comparison source did not parse: "@ + errors@,
        SourceFailure::InputContract(errors) => "comparison source did not satisfy the Body IR input contract: "@
            + errors@,
        SourceFailure::Typecheck(errors) => "comparison source did not typecheck: "@ + errors@,
    }
}

impl SourceFailure {
    /// Why the source could not be prepared.
    pub fn unavailable(&self) -> (unavailable: ShadowUnavailable)
        ensures
            unavailable.reason@ == source_failure(*self),
    {
        let reason: String = match self {
            SourceFailure::Lex(errors) => "comparison source did not lex: ".to_owned().concat(errors.as_str()),
            SourceFailure::Parse(errors) => "comparison source did not parse: ".to_owned().concat(errors.as_str()),
            SourceFailure::InputContract(errors) =>
            "comparison source did not satisfy the Body IR input contract: ".to_owned().concat(errors.as_str()),
            SourceFailure::Typecheck(errors) => "comparison source did not typecheck: ".to_owned().concat(
                errors.as_str(),
            ),
        };
        ShadowUnavailable::new(reason)
    }
}

// ---------------------------------------------------------------------------
// Literals
// ---------------------------------------------------------------------------

/// Whether a character is a control code: U+0000 to U+001F and U+007F to U+009F.
pub open spec fn control(c: char) -> bool {
    (c as int) < 0x20 || 0x7f <= (c as int) < 0xa0
}

/// Whether a character has no spelling in a string literal.
pub open spec fn unspellable(c: char) -> bool {
    control(c) && c != '\n' && c != '\r' && c != '\t'
}

/// How a character is spelled in a string literal.
pub open spec fn spelled(c: char) -> Seq<char> {
    if c == '"' {
        seq!['\\', '"']
    } else if c == '\\' {
        seq!['\\', '\\']
    } else if c == '\n' {
        seq!['\\', 'n']
    } else if c == '\r' {
        seq!['\\', 'r']
    } else if c == '\t' {
        seq!['\\', 't']
    } else {
        seq![c]
    }
}

/// How a text is spelled inside a string literal.
pub open spec fn escaped(text: Seq<char>) -> Seq<char>
    decreases text.len(),
{
    if text.len() == 0 {
        Seq::empty()
    } else {
        spelled(text[0]) + escaped(text.drop_first())
    }
}

/// The first character of a text that has no spelling.
pub open spec fn first_unspellable(text: Seq<char>) -> Option<char>
    decreases text.len(),
{
    if text.len() == 0 {
        None
    } else if unspellable(text[0]) {
        Some(text[0])
    } else {
        first_unspellable(text.drop_first())
    }
}

/// One uppercase hexadecimal digit.
pub open spec fn upper_hex(value: int) -> char {
    if value < 10 {
        (48 + value) as char
    } else {
        (55 + value) as char
    }
}

/// The four uppercase hexadecimal digits of a control code.
pub open spec fn code_point(c: char) -> Seq<char> {
    seq!['0', '0', upper_hex(c as int / 16), upper_hex(c as int % 16)]
}

/// The string literal of a text, or why it has none.
pub open spec fn string_literal(text: Seq<char>) -> Result<Seq<char>, Seq<char>> {
    match first_unspellable(text) {
        Some(c) => Err(
            "the bounded source-observable comparison profile refuses a `str` argument containing the control character U+"@
                + code_point(c) + ", which it cannot spell as an Incan literal"@,
        ),
        None => Ok("\""@ + escaped(text) + "\""@),
    }
}

/// The source literal of an argument, or why it has none. Only integers, flags and strings have one.
pub open spec fn literal(value: ReplacementValue) -> Result<Seq<char>, Seq<char>> {
    match value {
        ReplacementValue::Int(value) => Ok(signed_decimal(value as int)),
        ReplacementValue::Bool(value) => Ok(bool_spelling(value)),
        ReplacementValue::Str(value) => string_literal(value@),
        _ => Err(
            "the bounded source-observable comparison profile can only pass `int`, `bool`, and `str` arguments as source literals; got "@
                + structure(value.model()),
        ),
    }
}

/// The source literals of the arguments from one on, behind those that are done.
pub open spec fn literals(values: Seq<ReplacementValue>, from: int, done: Seq<Seq<char>>) -> Result<
    Seq<Seq<char>>,
    Seq<char>,
>
    decreases values.len() - from,
{
    if from < 0 || from >= values.len() {
        Ok(done)
    } else {
        match literal(values[from]) {
            Ok(text) => literals(values, from + 1, done.push(text)),
            Err(reason) => Err(reason),
        }
    }
}

/// One uppercase hexadecimal digit.
fn upper_hex_char(value: u8) -> (c: char)
    requires
        value < 16,
    ensures
        c == upper_hex(value as int),
{
    if value < 10 {
        (48u8 + value) as char
    } else {
        (55u8 + value) as char
    }
}

/// The four uppercase hexadecimal digits of a control code.
fn code_point_text(c: char) -> (text: String)
    requires
        control(c),
    ensures
        text@ == code_point(c),
{
    let code: u8 = (c as u32) as u8;
    let mut text: String = String::new();
    text.push('0');
    text.push('0');
    text.push(upper_hex_char(code / 16));
    text.push(upper_hex_char(code % 16));
    proof {
        assert(text@ =~= code_point(c));
    }
    text
}

/// Decides whether a character is a control code.
fn is_control(c: char) -> (found: bool)
    ensures
        found == control(c),
{
    let code: u32 = c as u32;
    code < 0x20 || (0x7f <= code && code < 0xa0)
}

/// Escapes a string argument into a source literal.
pub fn incan_string_literal(value: &str) -> (outcome: Result<String, ShadowUnavailable>)
    ensures
        text_outcome(outcome) == string_literal(value@),
{
    let chars: Vec<char> = chars_of(value);
    let mut literal: String = String::new();
    literal.append("\"");
    let mut i: usize = 0;
    proof {
        assert(value@.skip(0) =~= value@);
        assert(literal@ + escaped(value@.skip(0)) =~= "\""@ + escaped(value@));
    }
    while i < chars.len()
        invariant
            i <= chars@.len(),
            chars@ == value@,
            first_unspellable(value@) == first_unspellable(value@.skip(i as int)),
            literal@ + escaped(value@.skip(i as int)) == "\""@ + escaped(value@),
        decreases chars@.len() - i,
    {
        let c: char = chars[i];
        let ghost before = literal@;
        let ghost rest = value@.skip(i as int);
        proof {
            assert(rest[0] == c);
            assert(rest.drop_first() =~= value@.skip(i + 1));
        }
        if c == '"' {
            literal.push('\\');
            literal.push('"');
        } else if c == '\\' {
            literal.push('\\');
            literal.push('\\');
        } else if c == '\n' {
            literal.push('\\');
            literal.push('n');
        } else if c == '\r' {
            literal.push('\\');
            literal.push('r');
        } else if c == '\t' {
            literal.push('\\');
            literal.push('t');
        } else if is_control(c) {
            return Err(
                ShadowUnavailable::new(
                    "the bounded source-observable comparison profile refuses a `str` argument containing the control character U+".to_owned().concat(
                        code_point_text(c).as_str(),
                    ).concat(", which it cannot spell as an Incan literal"),
                ),
            );
        } else {
            literal.push(c);
        }
        proof {
            assert(literal@ =~= before + spelled(c));
            assert(literal@ + escaped(rest.drop_first()) =~= before + (spelled(c) + escaped(rest.drop_first())));
        }
        i += 1;
    }
    literal.append("\"");
    proof {
        assert(value@.skip(i as int) =~= Seq::empty());
        assert(literal@ =~= "\""@ + escaped(value@) + "\""@);
    }
    Ok(literal)
}

/// Renders an argument as a source literal.
fn argument_literal(value: &ReplacementValue) -> (outcome: Result<String, ShadowUnavailable>)
    ensures
        text_outcome(outcome) == literal(*value),
{
    match value {
        ReplacementValue::Int(value) => Ok(integer_text(*value)),
        ReplacementValue::Bool(value) => Ok(bool_text(*value)),
        ReplacementValue::Str(value) => incan_string_literal(value.as_str()),
        other => Err(
            ShadowUnavailable::new(
                "the bounded source-observable comparison profile can only pass `int`, `bool`, and `str` arguments as source literals; got ".to_owned().concat(
                    other.structure_text().as_str(),
                ),
            ),
        ),
    }
}

// ---------------------------------------------------------------------------
// The profile
// ---------------------------------------------------------------------------

/// The arguments of a profile in its identity.
pub open spec fn arguments_text(values: Seq<ReplacementValue>) -> Seq<char> {
    match literals(values, 0, Seq::empty()) {
        Ok(texts) => joined(texts, ", "@),
        Err(_) => "<unrepresentable arguments>"@,
    }
}

/// The identity of a profile instance.
pub open spec fn instance_identity(profile: ShadowComparisonProfile) -> Seq<char> {
    fragments_identity(
        seq![
            SHADOW_COMPARISON_PROFILE_ID@,
            profile.source@,
            profile.function@,
            arguments_text(profile.arguments@),
        ],
    )
}

/// A source that ends its last line.
pub open spec fn with_line_end(source: Seq<char>) -> Seq<char> {
    if finishes_with(source, "\n"@) {
        source
    } else {
        source + "\n"@
    }
}

/// The program that the legacy route runs, given the functions that are active, or why there is none.
pub open spec fn legacy_program(
    profile: ShadowComparisonProfile,
    active: Result<Seq<Seq<char>>, Seq<char>>,
) -> Result<Seq<char>, Seq<char>> {
    if profile.function@ == "main"@ {
        Err(PROGRAM_ENTRYPOINT_UNAVAILABLE_REASON@)
    } else {
        match active {
            Err(reason) => Err(reason),
            Ok(functions) => if !functions.contains(profile.function@) {
                Err(
                    "the comparison profile's function `"@ + profile.function@
                        + "` is absent from the manifest-free feature projection, so neither route may observe it"@,
                )
            } else {
                match literals(profile.arguments@, 0, Seq::empty()) {
                    Err(reason) => Err(reason),
                    Ok(texts) => Ok(
                        with_line_end(profile.source@) + "\ndef main() -> None:\n    println(\""@
                            + RESULT_BEGIN_MARKER@ + "\")\n    println("@ + profile.function@ + "("@ + joined(
                            texts,
                            ", "@,
                        ) + "))\n    println(\""@ + RESULT_END_MARKER@ + "\")\n"@,
                    ),
                }
            },
        }
    }
}

/// The names of the active functions, or why they are not known.
pub open spec fn active_functions(active: Result<Vec<String>, ShadowUnavailable>) -> Result<
    Seq<Seq<char>>,
    Seq<char>,
> {
    match active {
        Ok(names) => Ok(texts(names@)),
        Err(unavailable) => Err(unavailable.reason@),
    }
}

impl ShadowComparisonProfile {
    /// Declares a profile over a source, a function and its arguments.
    #[must_use]
    pub fn new(source: &str, function: &str, arguments: Vec<ReplacementValue>) -> (profile: Self)
        ensures
            profile.source@ == source@,
            profile.function@ == function@,
            profile.arguments == arguments,
    {
        ShadowComparisonProfile { source: source.to_owned(), function: function.to_owned(), arguments }
    }

    /// The module source that both routes observe.
    #[must_use]
    pub fn source(&self) -> (text: &str)
        ensures
            text@ == self.source@,
    {
        self.source.as_str()
    }

    /// The observed function's name.
    #[must_use]
    pub fn function(&self) -> (text: &str)
        ensures
            text@ == self.function@,
    {
        self.function.as_str()
    }

    /// The kind of comparison.
    #[must_use]
    pub fn profile_kind(&self) -> (text: &'static str)
        ensures
            text@ == SHADOW_COMPARISON_PROFILE_ID@,
    {
        SHADOW_COMPARISON_PROFILE_ID
    }

    /// The identity of the observed source.
    #[must_use]
    pub fn source_identity(&self) -> (identity: String)
        ensures
            identity@ == fragments_identity(seq![self.source@]),
    {
        let parts: [&str; 1] = [self.source.as_str()];
        proof {
            assert(slice_texts(parts@) =~= seq![self.source@]);
        }
        digest_output(&parts)
    }

    /// The identity of this instance: its kind, source, function and arguments.
    #[must_use]
    pub fn profile_identity(&self) -> (identity: String)
        ensures
            identity@ == instance_identity(*self),
    {
        let arguments: String = match self.argument_literals() {
            Ok(literals) => join(&literals, ", "),
            Err(_) => "<unrepresentable arguments>".to_owned(),
        };
        let parts: [&str; 4] = [
            SHADOW_COMPARISON_PROFILE_ID,
            self.source.as_str(),
            self.function.as_str(),
            arguments.as_str(),
        ];
        proof {
            assert(slice_texts(parts@) =~= seq![
                SHADOW_COMPARISON_PROFILE_ID@,
                self.source@,
                self.function@,
                arguments@,
            ]);
        }
        digest_output(&parts)
    }

    /// Builds the program that the legacy route runs: the module with an entrypoint that prints the result between
    /// the markers. `active` names the functions of the module under the empty feature projection.
    pub fn legacy_program_source(&self, active: Result<Vec<String>, ShadowUnavailable>) -> (outcome: Result<
        String,
        ShadowUnavailable,
    >)
        ensures
            text_outcome(outcome) == legacy_program(*self, active_functions(active)),
    {
        if same_text(self.function.as_str(), "main") {
            return Err(ShadowUnavailable::new(PROGRAM_ENTRYPOINT_UNAVAILABLE_REASON.to_owned()));
        }
        let functions: Vec<String> = active?;
        if !crate::cli::imports::lists(&functions, self.function.as_str()) {
            return Err(
                ShadowUnavailable::new(
                    "the comparison profile's function `".to_owned().concat(self.function.as_str()).concat(
                        "` is absent from the manifest-free feature projection, so neither route may observe it",
                    ),
                ),
            );
        }
        let arguments: String = join(&self.argument_literals()?, ", ");
        let mut program: String = self.source.clone();
        if !ends_with(program.as_str(), "\n") {
            program.append("\n");
        }
        Ok(
            program.concat("\ndef main() -> None:\n    println(\"").concat(RESULT_BEGIN_MARKER).concat(
                "\")\n    println(",
            ).concat(self.function.as_str()).concat("(").concat(arguments.as_str()).concat("))\n    println(\"").concat(
                RESULT_END_MARKER,
            ).concat("\")\n"),
        )
    }

    /// Renders every argument as a source literal.
    fn argument_literals(&self) -> (outcome: Result<Vec<String>, ShadowUnavailable>)
        ensures
            literals(self.arguments@, 0, Seq::empty()) == match outcome {
                Ok(list) => Ok(texts(list@)),
                Err(unavailable) => Err(unavailable.reason@),
            },
    {
        let mut list: Vec<String> = Vec::new();
        let mut i: usize = 0;
        proof {
            assert(texts(list@) =~= Seq::empty());
        }
        while i < self.arguments.len()
            invariant
                i <= self.arguments@.len(),
                literals(self.arguments@, 0, Seq::empty()) == literals(self.arguments@, i as int, texts(list@)),
            decreases self.arguments@.len() - i,
        {
            let ghost before = texts(list@);
            let text: String = argument_literal(&self.arguments[i])?;
            list.push(text);
            proof {
                assert(texts(list@) =~= before.push(text@));
            }
            i += 1;
        }
        Ok(list)
    }
}

proof fn lemma_spelled_first(c: char, rest: Seq<char>)
    ensures
        (spelled(c) + rest)[0] == if c == '"' || c == '\\' || c == '\n' || c == '\r' || c == '\t' {
            '\\'
        } else {
            c
        },
{
}

/// Escaping loses nothing: texts with the same literal are the same text.
pub proof fn law_literals_are_distinct(a: Seq<char>, b: Seq<char>)
    requires
        escaped(a) == escaped(b),
    ensures
        a == b,
    decreases a.len(),
{
    if a.len() == 0 {
        if b.len() > 0 {
            assert(escaped(b).len() > 0);
        }
        assert(a =~= b);
    } else if b.len() == 0 {
        assert(escaped(a).len() > 0);
    } else {
        let x = escaped(a.drop_first());
        let y = escaped(b.drop_first());
        let left = spelled(a[0]) + x;
        let right = spelled(b[0]) + y;
        assert(left == right);
        lemma_spelled_first(a[0], x);
        lemma_spelled_first(b[0], y);
        assert(left[0] == right[0]);
        if left[0] == '\\' {
            assert(left[1] == spelled(a[0])[1]);
            assert(right[1] == spelled(b[0])[1]);
        }
        assert(a[0] == b[0]);
        assert(x =~= left.skip(spelled(a[0]).len() as int));
        assert(y =~= right.skip(spelled(b[0]).len() as int));
        law_literals_are_distinct(a.drop_first(), b.drop_first());
        assert(a =~= seq![a[0]] + a.drop_first());
        assert(b =~= seq![b[0]] + b.drop_first());
    }
}

/// A literal has no line break inside it, so the program that passes it keeps its lines.
pub proof fn law_literals_stay_on_one_line(text: Seq<char>)
    requires
        first_unspellable(text) is None,
    ensures
        forall|i: int| 0 <= i < escaped(text).len() ==> !control(#[trigger] escaped(text)[i]),
    decreases text.len(),
{
    if text.len() > 0 {
        law_literals_stay_on_one_line(text.drop_first());
        let tail = escaped(text.drop_first());
        let head = spelled(text[0]);
        assert forall|i: int| 0 <= i < escaped(text).len() implies !control(#[trigger] escaped(text)[i]) by {
            if i < head.len() {
                assert(escaped(text)[i] == head[i]);
            } else {
                assert(escaped(text)[i] == tail[i - head.len()]);
            }
        }
    }
}

} // verus!
