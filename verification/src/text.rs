//! Text helpers over the character sequences that strings denote.

use vstd::prelude::*;
use vstd::utf8::{decode_utf8, valid_utf8};

verus! {

broadcast use vstd::string::group_string_axioms;

// ---------------------------------------------------------------------------
// Calls into the standard library
// ---------------------------------------------------------------------------

/// `String::push` appends one character to the end of the string.
pub assume_specification[ std::string::String::push ](s: &mut std::string::String, c: char)
    ensures
        final(s)@ == old(s)@.push(c),
;

/// `str::eq` holds exactly when both strings hold the same characters.
#[verifier::external_body]
pub(crate) fn same_text(a: &str, b: &str) -> (same: bool)
    ensures
        same == (a@ == b@),
{
    a == b
}

/// The text that `{:?}` writes for a string: its characters escaped, between double quotes.
pub uninterp spec fn debug_quoted(text: Seq<char>) -> Seq<char>;

/// The `Debug` rendering of a string. It is a function of the characters alone. Which characters are escaped, and how,
/// is not stated; so neither is that different texts are quoted differently.
#[verifier::external_body]
pub(crate) fn debug_text(text: &str) -> (quoted: String)
    ensures
        quoted@ == debug_quoted(text@),
{
    format!("{:?}", text)
}

/// The characters of a text after Unicode lowercasing.
pub uninterp spec fn lowercased(text: Seq<char>) -> Seq<char>;

/// `str::to_lowercase` maps a text to its Unicode lowercase form, whatever the locale.
#[verifier::external_body]
pub(crate) fn lowercase_text(text: &str) -> (lower: String)
    ensures
        lower@ == lowercased(text@),
{
    text.to_lowercase()
}

/// The text of a byte string whose invalid UTF-8 parts were replaced by U+FFFD.
pub uninterp spec fn lossy_utf8(bytes: Seq<u8>) -> Seq<char>;

/// `String::from_utf8_lossy` decodes bytes, replacing what is not UTF-8. Valid UTF-8 is decoded as it is.
#[verifier::external_body]
pub(crate) fn lossy_text(bytes: &[u8]) -> (text: String)
    ensures
        text@ == lossy_utf8(bytes@),
        valid_utf8(bytes@) ==> text@ == decode_utf8(bytes@),
{
    String::from_utf8_lossy(bytes).into_owned()
}

/// The message that explains where a byte string stops being UTF-8.
pub uninterp spec fn utf8_error_text(bytes: Seq<u8>) -> Seq<char>;

/// `String::from_utf8` decodes a byte string exactly when it is valid UTF-8, and reports why otherwise.
#[verifier::external_body]
pub(crate) fn parse_utf8(bytes: Vec<u8>) -> (text: Result<String, String>)
    ensures
        text is Ok <==> valid_utf8(bytes@),
        text matches Ok(t) ==> t@ == decode_utf8(bytes@),
        text matches Err(e) ==> e@ == utf8_error_text(bytes@),
{
    String::from_utf8(bytes).map_err(|error| error.to_string())
}

/// Whether a character is white space in Unicode's sense.
pub uninterp spec fn white_space(c: char) -> bool;

/// Whether an ASCII character is white space: tab, line feed, vertical tab, form feed, carriage return and space.
pub open spec fn ascii_white_space(c: char) -> bool {
    c as u32 == 32 || 9 <= c as u32 <= 13
}

/// `char::is_whitespace` decides the `White_Space` property. Of the characters below U+0080 those are six.
#[verifier::external_body]
pub(crate) fn is_white_space(c: char) -> (white: bool)
    ensures
        white == white_space(c),
        (c as u32) < 128 ==> white == ascii_white_space(c),
{
    c.is_whitespace()
}

// ---------------------------------------------------------------------------
// Numbers and flags
// ---------------------------------------------------------------------------

/// The character of one decimal digit.
pub open spec fn digit(value: nat) -> char {
    (48 + value) as char
}

/// The decimal digits of a natural number, without leading zeros.
pub open spec fn decimal(value: nat) -> Seq<char>
    decreases value,
{
    if value < 10 {
        seq![digit(value)]
    } else {
        decimal(value / 10).push(digit(value % 10))
    }
}

/// The decimal digits of an integer, with a leading minus sign when it is negative.
pub open spec fn signed_decimal(value: int) -> Seq<char> {
    if value < 0 {
        seq!['-'] + decimal((-value) as nat)
    } else {
        decimal(value as nat)
    }
}

/// How a flag is spelled.
pub open spec fn bool_spelling(value: bool) -> Seq<char> {
    if value {
        "true"@
    } else {
        "false"@
    }
}

/// The decimal text of a natural number.
pub fn natural_text(value: u64) -> (text: String)
    ensures
        text@ == decimal(value as nat),
    decreases value,
{
    let last: u8 = (value % 10) as u8;
    let c: char = (48u8 + last) as char;
    let mut text: String = if value < 10 {
        String::new()
    } else {
        natural_text(value / 10)
    };
    text.push(c);
    proof {
        if value < 10 {
            assert(Seq::<char>::empty().push(c) =~= seq![digit(value as nat)]);
        }
    }
    text
}

/// The decimal text of an integer.
pub fn integer_text(value: i64) -> (text: String)
    ensures
        text@ == signed_decimal(value as int),
{
    if value < 0 {
        let magnitude: u64 = (-(value + 1)) as u64 + 1;
        let mut text: String = String::new();
        text.push('-');
        let digits: String = natural_text(magnitude);
        proof {
            assert(Seq::<char>::empty().push('-') =~= seq!['-']);
        }
        text.concat(digits.as_str())
    } else {
        natural_text(value as u64)
    }
}

/// The spelling of a flag.
pub fn bool_text(value: bool) -> (text: String)
    ensures
        text@ == bool_spelling(value),
{
    if value {
        "true".to_owned()
    } else {
        "false".to_owned()
    }
}

// ---------------------------------------------------------------------------
// Characters
// ---------------------------------------------------------------------------

/// The characters of a text, in order.
pub fn chars_of(text: &str) -> (chars: Vec<char>)
    ensures
        chars@ == text@,
{
    let mut chars: Vec<char> = Vec::new();
    for c in it: text.chars()
        invariant
            chars@ == text@.take(it.index()),
            it.seq() == text@,
    {
        chars.push(c);
        proof {
            assert(text@.take(it.index() + 1) =~= text@.take(it.index()).push(c));
        }
    }
    proof {
        assert(text@.take(text@.len() as int) =~= text@);
    }
    chars
}

/// The text of a run of characters.
pub fn text_of(chars: &Vec<char>, start: usize, end: usize) -> (text: String)
    requires
        start <= end <= chars@.len(),
    ensures
        text@ == chars@.subrange(start as int, end as int),
{
    let mut text: String = String::new();
    let mut i: usize = start;
    while i < end
        invariant
            start <= i <= end <= chars@.len(),
            text@ == chars@.subrange(start as int, i as int),
        decreases end - i,
    {
        text.push(chars[i]);
        i += 1;
        proof {
            assert(chars@.subrange(start as int, i as int) =~= chars@.subrange(start as int, i - 1).push(chars@[i - 1]));
        }
    }
    text
}

// ---------------------------------------------------------------------------
// Joining and searching
// ---------------------------------------------------------------------------

/// The texts that a run of strings denotes.
pub open spec fn texts(strings: Seq<String>) -> Seq<Seq<char>> {
    Seq::new(strings.len(), |i: int| strings[i]@)
}

/// The texts that a run of string slices denotes.
pub open spec fn slice_texts(strings: Seq<&str>) -> Seq<Seq<char>> {
    Seq::new(strings.len(), |i: int| strings[i]@)
}

/// Texts one after the other, with a separator between neighbours.
pub open spec fn joined(parts: Seq<Seq<char>>, separator: Seq<char>) -> Seq<char>
    decreases parts.len(),
{
    if parts.len() == 0 {
        Seq::empty()
    } else if parts.len() == 1 {
        parts[0]
    } else {
        joined(parts.drop_last(), separator) + separator + parts.last()
    }
}

/// Joining one more text adds the separator and that text, or that text alone at the front.
pub proof fn lemma_joined_push(parts: Seq<Seq<char>>, separator: Seq<char>, next: Seq<char>)
    ensures
        joined(parts.push(next), separator) == if parts.len() == 0 {
            next
        } else {
            joined(parts, separator) + separator + next
        },
{
    assert(parts.push(next).drop_last() =~= parts);
}

/// Joins strings with a separator.
pub fn join(parts: &[String], separator: &str) -> (text: String)
    ensures
        text@ == joined(texts(parts@), separator@),
{
    let mut text: String = String::new();
    let mut i: usize = 0;
    while i < parts.len()
        invariant
            i <= parts@.len(),
            text@ == joined(texts(parts@).take(i as int), separator@),
        decreases parts@.len() - i,
    {
        proof {
            lemma_joined_push(texts(parts@).take(i as int), separator@, parts@[i as int]@);
            assert(texts(parts@).take(i + 1) =~= texts(parts@).take(i as int).push(parts@[i as int]@));
        }
        if i > 0 {
            text.append(separator);
            text.append(parts[i].as_str());
        } else {
            text = parts[i].clone();
        }
        i += 1;
    }
    proof {
        assert(texts(parts@).take(i as int) =~= texts(parts@));
    }
    text
}

/// Joins string slices with a separator.
pub fn join_slices(parts: &[&str], separator: &str) -> (text: String)
    ensures
        text@ == joined(slice_texts(parts@), separator@),
{
    let mut text: String = String::new();
    let mut i: usize = 0;
    while i < parts.len()
        invariant
            i <= parts@.len(),
            text@ == joined(slice_texts(parts@).take(i as int), separator@),
        decreases parts@.len() - i,
    {
        proof {
            lemma_joined_push(slice_texts(parts@).take(i as int), separator@, parts@[i as int]@);
            assert(slice_texts(parts@).take(i + 1) =~= slice_texts(parts@).take(i as int).push(parts@[i as int]@));
        }
        if i > 0 {
            text.append(separator);
            text.append(parts[i]);
        } else {
            text = parts[i].to_owned();
        }
        i += 1;
    }
    proof {
        assert(slice_texts(parts@).take(i as int) =~= slice_texts(parts@));
    }
    text
}

/// Whether one text stands inside another at a given place.
pub open spec fn stands_at(text: Seq<char>, at: int, needle: Seq<char>) -> bool {
    0 <= at && at + needle.len() <= text.len() && text.subrange(at, at + needle.len()) == needle
}

/// Whether one text stands anywhere inside another.
pub open spec fn has_text(text: Seq<char>, needle: Seq<char>) -> bool {
    exists|at: int| stands_at(text, at, needle)
}

/// Whether a text begins with another.
pub open spec fn begins_with(text: Seq<char>, prefix: Seq<char>) -> bool {
    stands_at(text, 0, prefix)
}

/// Whether a text ends with another.
pub open spec fn finishes_with(text: Seq<char>, suffix: Seq<char>) -> bool {
    stands_at(text, text.len() - suffix.len(), suffix)
}

/// Decides whether one text stands inside another at a given place.
pub fn chars_at(text: &Vec<char>, at: usize, needle: &Vec<char>) -> (found: bool)
    ensures
        found == stands_at(text@, at as int, needle@),
{
    let length: usize = text.len();
    if at > length || needle.len() > length - at {
        return false;
    }
    let mut i: usize = 0;
    while i < needle.len()
        invariant
            i <= needle@.len(),
            length == text@.len(),
            at + needle@.len() <= text@.len(),
            forall|j: int| 0 <= j < i ==> text@[at + j] == needle@[j],
        decreases needle@.len() - i,
    {
        if text[at + i] != needle[i] {
            proof {
                assert(text@.subrange(at as int, at + needle@.len())[i as int] != needle@[i as int]);
            }
            return false;
        }
        i += 1;
    }
    proof {
        assert(text@.subrange(at as int, at + needle@.len()) =~= needle@);
    }
    true
}

/// Decides whether one text stands anywhere inside another.
pub fn contains(text: &str, needle: &str) -> (found: bool)
    ensures
        found == has_text(text@, needle@),
{
    let chars: Vec<char> = chars_of(text);
    let wanted: Vec<char> = chars_of(needle);
    let mut at: usize = 0;
    while at < chars.len()
        invariant
            at <= chars@.len(),
            chars@ == text@,
            wanted@ == needle@,
            forall|j: int| 0 <= j < at ==> !stands_at(text@, j, needle@),
        decreases chars@.len() - at,
    {
        if chars_at(&chars, at, &wanted) {
            return true;
        }
        at += 1;
    }
    chars_at(&chars, at, &wanted)
}

/// Decides whether a text begins with another.
pub fn starts_with(text: &str, prefix: &str) -> (found: bool)
    ensures
        found == begins_with(text@, prefix@),
{
    let chars: Vec<char> = chars_of(text);
    let wanted: Vec<char> = chars_of(prefix);
    chars_at(&chars, 0, &wanted)
}

/// Decides whether a text ends with another.
pub fn ends_with(text: &str, suffix: &str) -> (found: bool)
    ensures
        found == finishes_with(text@, suffix@),
{
    let chars: Vec<char> = chars_of(text);
    let wanted: Vec<char> = chars_of(suffix);
    if wanted.len() > chars.len() {
        return false;
    }
    chars_at(&chars, chars.len() - wanted.len(), &wanted)
}

/// A text without the white space at its start.
pub open spec fn trimmed_start(text: Seq<char>) -> Seq<char>
    decreases text.len(),
{
    if text.len() > 0 && white_space(text[0]) {
        trimmed_start(text.drop_first())
    } else {
        text
    }
}

/// A text without the white space at its end.
pub open spec fn trimmed_end(text: Seq<char>) -> Seq<char>
    decreases text.len(),
{
    if text.len() > 0 && white_space(text.last()) {
        trimmed_end(text.drop_last())
    } else {
        text
    }
}

/// The characters of a text without the white space at its start.
pub fn trim_start(text: &str) -> (rest: Vec<char>)
    ensures
        rest@ == trimmed_start(text@),
{
    let chars: Vec<char> = chars_of(text);
    let mut start: usize = 0;
    proof {
        assert(text@.skip(0) =~= text@);
    }
    while start < chars.len() && is_white_space(chars[start])
        invariant
            start <= chars@.len(),
            chars@ == text@,
            trimmed_start(text@) == trimmed_start(text@.skip(start as int)),
        ensures
            start <= chars@.len(),
            trimmed_start(text@) == text@.skip(start as int),
        decreases chars@.len() - start,
    {
        proof {
            assert(text@.skip(start as int).drop_first() =~= text@.skip(start + 1));
        }
        start += 1;
    }
    let mut rest: Vec<char> = Vec::new();
    let mut i: usize = start;
    while i < chars.len()
        invariant
            start <= i <= chars@.len(),
            rest@ == chars@.subrange(start as int, i as int),
        decreases chars@.len() - i,
    {
        rest.push(chars[i]);
        proof {
            assert(chars@.subrange(start as int, i + 1) =~= chars@.subrange(start as int, i as int).push(
                chars@[i as int],
            ));
        }
        i += 1;
    }
    proof {
        assert(chars@.subrange(start as int, i as int) =~= text@.skip(start as int));
    }
    rest
}

/// The text without the white space at its end.
pub fn trim_end(text: &str) -> (rest: String)
    ensures
        rest@ == trimmed_end(text@),
{
    let chars: Vec<char> = chars_of(text);
    let mut end: usize = chars.len();
    proof {
        assert(text@.take(end as int) =~= text@);
    }
    while end > 0 && is_white_space(chars[end - 1])
        invariant
            end <= chars@.len(),
            chars@ == text@,
            trimmed_end(text@) == trimmed_end(text@.take(end as int)),
        ensures
            end <= chars@.len(),
            trimmed_end(text@) == text@.take(end as int),
        decreases end,
    {
        proof {
            assert(text@.take(end as int).drop_last() =~= text@.take(end - 1));
        }
        end -= 1;
    }
    proof {
        assert(chars@.subrange(0, end as int) =~= text@.take(end as int));
    }
    text_of(&chars, 0, end)
}

/// A text without the white space around it.
pub open spec fn trimmed(text: Seq<char>) -> Seq<char> {
    trimmed_end(trimmed_start(text))
}

/// The text without the white space around it.
pub fn trim(text: &str) -> (rest: String)
    ensures
        rest@ == trimmed(text@),
{
    let chars: Vec<char> = trim_start(text);
    let start: String = text_of(&chars, 0, chars.len());
    proof {
        assert(chars@.subrange(0, chars@.len() as int) =~= chars@);
    }
    trim_end(start.as_str())
}

/// Trimming does not lengthen a text.
pub proof fn lemma_trimmed_is_no_longer(text: Seq<char>)
    ensures
        trimmed(text).len() <= text.len(),
{
    lemma_trimmed_start_is_no_longer(text);
    lemma_trimmed_end_is_no_longer(trimmed_start(text));
}

proof fn lemma_trimmed_start_is_no_longer(text: Seq<char>)
    ensures
        trimmed_start(text).len() <= text.len(),
    decreases text.len(),
{
    if text.len() > 0 && white_space(text[0]) {
        lemma_trimmed_start_is_no_longer(text.drop_first());
    }
}

proof fn lemma_trimmed_end_is_no_longer(text: Seq<char>)
    ensures
        trimmed_end(text).len() <= text.len(),
    decreases text.len(),
{
    if text.len() > 0 && white_space(text.last()) {
        lemma_trimmed_end_is_no_longer(text.drop_last());
    }
}

// ---------------------------------------------------------------------------
// Lines
// ---------------------------------------------------------------------------

/// The place of the first line feed at or behind a place; the text's length where there is none.
pub open spec fn line_feed(text: Seq<char>, from: int) -> int
    decreases text.len() - from,
{
    if from < 0 || from >= text.len() {
        text.len() as int
    } else if text[from] == '\n' {
        from
    } else {
        line_feed(text, from + 1)
    }
}

/// A line without the carriage return that its line feed follows.
pub open spec fn without_return(line: Seq<char>) -> Seq<char> {
    if line.len() > 0 && line.last() == '\r' {
        line.drop_last()
    } else {
        line
    }
}

/// The lines of a text from a place on. A line ends at a line feed, with or without a carriage return in front of it;
/// the last line need not end.
pub open spec fn lines_from(text: Seq<char>, from: int) -> Seq<Seq<char>>
    decreases text.len() - from,
    when 0 <= from <= text.len()
    via lines_shrink
{
    if from >= text.len() {
        Seq::empty()
    } else {
        let end = line_feed(text, from);
        if end >= text.len() {
            seq![text.subrange(from, text.len() as int)]
        } else {
            seq![without_return(text.subrange(from, end))] + lines_from(text, end + 1)
        }
    }
}

#[via_fn]
proof fn lines_shrink(text: Seq<char>, from: int) {
    lemma_line_feed(text, from);
}

proof fn lemma_line_feed(text: Seq<char>, from: int)
    requires
        0 <= from <= text.len(),
    ensures
        from <= line_feed(text, from) <= text.len(),
        line_feed(text, from) < text.len() ==> text[line_feed(text, from)] == '\n',
    decreases text.len() - from,
{
    if from < text.len() && text[from] != '\n' {
        lemma_line_feed(text, from + 1);
    }
}

/// The lines of a text.
pub fn lines(text: &str) -> (list: Vec<String>)
    ensures
        texts(list@) == lines_from(text@, 0),
{
    let chars: Vec<char> = chars_of(text);
    let mut list: Vec<String> = Vec::new();
    let mut start: usize = 0;
    proof {
        assert(texts(list@) + lines_from(text@, 0) =~= lines_from(text@, 0));
    }
    while start < chars.len()
        invariant_except_break
            texts(list@) + lines_from(text@, start as int) == lines_from(text@, 0),
        invariant
            start <= chars@.len(),
            chars@ == text@,
        ensures
            texts(list@) == lines_from(text@, 0),
        decreases chars@.len() - start,
    {
        let ghost before = texts(list@);
        let mut end: usize = start;
        while end < chars.len() && chars[end] != '\n'
            invariant
                start <= end <= chars@.len(),
                chars@ == text@,
                line_feed(text@, start as int) == line_feed(text@, end as int),
            ensures
                start <= end <= chars@.len(),
                line_feed(text@, start as int) == end,
            decreases chars@.len() - end,
        {
            end += 1;
        }
        if end >= chars.len() {
            let line: String = text_of(&chars, start, end);
            list.push(line);
            proof {
                assert(texts(list@) =~= before + seq![line@]);
            }
            break;
        }
        let stop: usize = if end > start && chars[end - 1] == '\r' {
            end - 1
        } else {
            end
        };
        let line: String = text_of(&chars, start, stop);
        list.push(line);
        proof {
            assert(line@ =~= without_return(text@.subrange(start as int, end as int)));
            assert(texts(list@) =~= before + seq![line@]);
            assert(texts(list@) + lines_from(text@, end + 1) =~= before + (seq![line@] + lines_from(text@, end + 1)));
        }
        start = end + 1;
    }
    list
}

} // verus!
