//! Formatting of source files.
//!
//! A formatter turns a syntax tree back into text; here it is decided what its outcome means for a source: whether
//! the source is formatted already, and how it differs from its formatted form.

use crate::text::{decimal, lines, lines_from, natural_text, same_text, texts};
use vstd::prelude::*;

verus! {

broadcast use vstd::string::group_string_axioms;

/// What formatting a source came to.
#[derive(Debug)]
#[allow(inconsistent_fields)]
pub enum Formatting {
    /// The source has no tokens, with the errors.
    LexFailed(String),
    /// The source has no syntax tree, with the errors.
    ParseFailed(String),
    /// The formatted text.
    Formatted(String),
}

/// The formatted text, or why there is none.
pub open spec fn formatted(formatting: Formatting) -> Result<Seq<char>, Seq<char>> {
    match formatting {
        Formatting::LexFailed(errors) => Err("Lexer error: "@ + errors@),
        Formatting::ParseFailed(errors) => Err("Parser error: "@ + errors@),
        Formatting::Formatted(text) => Ok(text@),
    }
}

/// The text or the message that a step gave.
pub open spec fn text_result(result: Result<String, String>) -> Result<Seq<char>, Seq<char>> {
    match result {
        Ok(text) => Ok(text@),
        Err(message) => Err(message@),
    }
}

/// The formatted text of a source under the default settings.
pub fn format_source(formatting: Formatting) -> (result: Result<String, String>)
    ensures
        text_result(result) == formatted(formatting),
{
    format_source_with_config(formatting)
}

/// The formatted text of a source under the settings that its formatting was made with.
pub fn format_source_with_config(formatting: Formatting) -> (result: Result<String, String>)
    ensures
        text_result(result) == formatted(formatting),
{
    match formatting {
        Formatting::LexFailed(errors) => Err("Lexer error: ".to_owned().concat(errors.as_str())),
        Formatting::ParseFailed(errors) => Err("Parser error: ".to_owned().concat(errors.as_str())),
        Formatting::Formatted(text) => Ok(text),
    }
}

/// Decides whether a source is formatted already.
pub fn check_formatted(source: &str, formatting: Formatting) -> (result: Result<bool, String>)
    ensures
        match formatted(formatting) {
            Ok(text) => result == Ok::<bool, String>(source@ == text),
            Err(reason) => result matches Err(message) && message@ == reason,
        },
{
    let text: String = format_source(formatting)?;
    Ok(same_text(source, text.as_str()))
}

/// A number in a column of four, to the right.
pub open spec fn column(text: Seq<char>) -> Seq<char>
    decreases 4 - text.len(),
{
    if text.len() < 4 {
        column(seq![' '] + text)
    } else {
        text
    }
}

/// One side of a difference in a line: empty lines are left out.
pub open spec fn side(mark: Seq<char>, number: nat, line: Seq<char>) -> Seq<char> {
    if line.len() == 0 {
        Seq::empty()
    } else {
        mark + column(decimal(number)) + " | "@ + line + "\n"@
    }
}

/// A line of a text that may be shorter; empty behind its end.
pub open spec fn line_at(list: Seq<Seq<char>>, at: int) -> Seq<char> {
    if 0 <= at < list.len() {
        list[at]
    } else {
        Seq::empty()
    }
}

/// The differences of two texts, line by line, from one line on.
pub open spec fn differences(original: Seq<Seq<char>>, changed: Seq<Seq<char>>, from: int) -> Seq<char>
    decreases original.len() + changed.len() - from,
{
    if from < 0 || (from >= original.len() && from >= changed.len()) {
        Seq::empty()
    } else {
        let before = line_at(original, from);
        let after = line_at(changed, from);
        (if before == after {
            Seq::empty()
        } else {
            side("-"@, (from + 1) as nat, before) + side("+"@, (from + 1) as nat, after)
        }) + differences(original, changed, from + 1)
    }
}

/// A number in a column of four, to the right.
fn numbered(number: u64) -> (text: String)
    ensures
        text@ == column(decimal(number as nat)),
{
    let mut text: String = natural_text(number);
    let mut count: usize = text.as_str().unicode_len();
    while count < 4
        invariant
            count == text@.len(),
            column(decimal(number as nat)) == column(text@),
        decreases 4 - count,
    {
        let ghost before = text@;
        text = " ".to_owned().concat(text.as_str());
        proof {
            reveal_strlit(" ");
            assert(text@ =~= seq![' '] + before);
        }
        count += 1;
    }
    text
}

/// One side of a difference in a line.
fn diff_side(mark: &str, number: u64, line: &str) -> (text: String)
    ensures
        text@ == side(mark@, number as nat, line@),
{
    if line.unicode_len() == 0 {
        String::new()
    } else {
        mark.to_owned().concat(numbered(number).as_str()).concat(" | ").concat(line).concat("\n")
    }
}

/// A line of a text that may be shorter.
fn line_of(list: &Vec<String>, at: usize) -> (line: String)
    ensures
        line@ == line_at(texts(list@), at as int),
{
    if at < list.len() {
        list[at].clone()
    } else {
        String::new()
    }
}

/// The difference between a source and its formatted form, line by line; `None` where there is none.
pub fn format_diff(source: &str, formatting: Formatting) -> (result: Result<Option<String>, String>)
    ensures
        match formatted(formatting) {
            Err(reason) => result matches Err(message) && message@ == reason,
            Ok(text) => if source@ == text {
                result == Ok::<Option<String>, String>(None)
            } else {
                result matches Ok(Some(diff)) && diff@ == differences(lines_from(source@, 0), lines_from(text, 0), 0)
            },
        },
{
    let text: String = format_source(formatting)?;
    if same_text(source, text.as_str()) {
        return Ok(None);
    }
    let original: Vec<String> = lines(source);
    let changed: Vec<String> = lines(text.as_str());
    let ghost a = texts(original@);
    let ghost b = texts(changed@);
    let mut diff: String = String::new();
    let mut i: usize = 0;
    proof {
        assert(diff@ + differences(a, b, 0) =~= differences(a, b, 0));
    }
    while i < original.len() || i < changed.len()
        invariant
            a == texts(original@),
            b == texts(changed@),
            diff@ + differences(a, b, i as int) == differences(a, b, 0),
        ensures
            diff@ == differences(a, b, 0),
        decreases original@.len() + changed@.len() - i,
    {
        let ghost shown = diff@;
        let before: String = line_of(&original, i);
        let after: String = line_of(&changed, i);
        if !same_text(before.as_str(), after.as_str()) {
            let number: u64 = i as u64 + 1;
            diff = diff.concat(diff_side("-", number, before.as_str()).as_str()).concat(
                diff_side("+", number, after.as_str()).as_str(),
            );
        }
        proof {
            let step = if before@ == after@ {
                Seq::<char>::empty()
            } else {
                side("-"@, (i + 1) as nat, before@) + side("+"@, (i + 1) as nat, after@)
            };
            assert(diff@ =~= shown + step);
            assert(diff@ + differences(a, b, i + 1) =~= shown + (step + differences(a, b, i + 1)));
        }
        i += 1;
    }
    Ok(Some(diff))
}

/// Texts with the same lines show no difference.
pub proof fn law_same_lines_show_nothing(list: Seq<Seq<char>>, from: int)
    requires
        0 <= from,
    ensures
        differences(list, list, from) == Seq::<char>::empty(),
    decreases list.len() - from,
{
    if from < list.len() {
        law_same_lines_show_nothing(list, from + 1);
        assert(differences(list, list, from) =~= Seq::<char>::empty());
    }
}

} // verus!
