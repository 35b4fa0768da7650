//! Places in a source: byte offsets, lines and columns.

use crate::text::chars_of;
use vstd::prelude::*;
use vstd::utf8::{encode_scalar, encode_utf8};

verus! {

broadcast use vstd::string::group_string_axioms;

/// The characters of a text that begin before a byte offset.
pub open spec fn begun(text: Seq<char>, offset: int) -> Seq<char>
    decreases text.len(),
{
    if text.len() == 0 || encode_utf8(text.drop_last()).len() < offset {
        text
    } else {
        begun(text.drop_last(), offset)
    }
}

/// The line that a text ends on, the first line being one.
pub open spec fn line_behind(text: Seq<char>) -> nat
    decreases text.len(),
{
    if text.len() == 0 {
        1
    } else if text.last() == '\n' {
        line_behind(text.drop_last()) + 1
    } else {
        line_behind(text.drop_last())
    }
}

/// The column behind a text, the first column being one.
pub open spec fn column_behind(text: Seq<char>) -> nat
    decreases text.len(),
{
    if text.len() == 0 || text.last() == '\n' {
        1
    } else {
        column_behind(text.drop_last()) + 1
    }
}

/// The line and the column of a byte offset. An offset inside a character stands behind it.
pub open spec fn place(text: Seq<char>, offset: int) -> (nat, nat) {
    (line_behind(begun(text, offset)), column_behind(begun(text, offset)))
}

proof fn lemma_encoding_of_push(text: Seq<char>, c: char)
    ensures
        encode_utf8(text.push(c)) == encode_utf8(text) + encode_scalar(c as u32),
    decreases text.len(),
{
    let longer = text.push(c);
    if text.len() == 0 {
        assert(longer.drop_first() =~= Seq::<char>::empty());
        assert(encode_utf8(longer.drop_first()) =~= Seq::<u8>::empty());
        assert(encode_utf8(longer) =~= encode_utf8(text) + encode_scalar(c as u32));
    } else {
        lemma_encoding_of_push(text.drop_first(), c);
        assert(longer.drop_first() =~= text.drop_first().push(c));
        assert(encode_utf8(longer) =~= encode_utf8(text) + encode_scalar(c as u32));
    }
}

proof fn lemma_encoding_grows(text: Seq<char>, i: int, j: int)
    requires
        0 <= i <= j <= text.len(),
    ensures
        encode_utf8(text.take(i)).len() + (j - i) <= encode_utf8(text.take(j)).len(),
    decreases j - i,
{
    if i < j {
        lemma_encoding_grows(text, i, j - 1);
        lemma_encoding_of_push(text.take(j - 1), text[j - 1]);
        assert(text.take(j) =~= text.take(j - 1).push(text[j - 1]));
    }
}

proof fn lemma_begun(text: Seq<char>, offset: int, i: int, j: int)
    requires
        0 <= i <= j <= text.len(),
        encode_utf8(text.take(i)).len() >= offset || i == j,
        i == 0 || encode_utf8(text.take(i - 1)).len() < offset,
    ensures
        begun(text.take(j), offset) == text.take(i),
    decreases j - i,
{
    let taken = text.take(j);
    if j > 0 {
        assert(taken.drop_last() =~= text.take(j - 1));
    }
    if i < j {
        lemma_encoding_grows(text, i, j - 1);
        lemma_begun(text, offset, i, j - 1);
    }
}

proof fn lemma_place_is_small(text: Seq<char>)
    ensures
        1 <= line_behind(text) <= text.len() + 1,
        1 <= column_behind(text) <= text.len() + 1,
    decreases text.len(),
{
    if text.len() > 0 {
        lemma_place_is_small(text.drop_last());
    }
}

/// The number of bytes that a character takes.
fn width(c: char) -> (bytes: usize)
    ensures
        bytes == encode_scalar(c as u32).len(),
{
    let code: u32 = c as u32;
    if code < 0x80 {
        1
    } else if code < 0x800 {
        2
    } else if code < 0x10000 {
        3
    } else {
        4
    }
}

/// The line and the column of a byte offset, both counted from one.
pub fn line_column_for_offset(source: &str, offset: usize) -> (found: (usize, usize))
    requires
        encode_utf8(source@).len() < usize::MAX,
    ensures
        (found.0 as nat, found.1 as nat) == place(source@, offset as int),
{
    let chars: Vec<char> = chars_of(source);
    let mut at: usize = 0;
    let mut line: usize = 1;
    let mut column: usize = 1;
    let mut i: usize = 0;
    proof {
        assert(chars@.take(chars@.len() as int) =~= chars@);
        assert(chars@.take(0) =~= Seq::<char>::empty());
        lemma_encoding_grows(chars@, 0, chars@.len() as int);
    }
    while i < chars.len() && at < offset
        invariant
            i <= chars@.len(),
            chars@ == source@,
            chars@.take(chars@.len() as int) == chars@,
            encode_utf8(chars@).len() < usize::MAX,
            chars@.len() < usize::MAX,
            at == encode_utf8(chars@.take(i as int)).len(),
            i == 0 || encode_utf8(chars@.take(i - 1)).len() < offset,
            line == line_behind(chars@.take(i as int)),
            column == column_behind(chars@.take(i as int)),
        decreases chars@.len() - i,
    {
        let c: char = chars[i];
        proof {
            let before = chars@.take(i as int);
            lemma_encoding_of_push(before, c);
            lemma_encoding_grows(chars@, i + 1, chars@.len() as int);
            assert(chars@.take(i + 1) =~= before.push(c));
            assert(before.push(c).drop_last() =~= before);
            lemma_place_is_small(before);
        }
        if c == '\n' {
            line += 1;
            column = 1;
        } else {
            column += 1;
        }
        at += width(c);
        i += 1;
    }
    proof {
        lemma_begun(chars@, offset as int, i as int, chars@.len() as int);
    }
    (line, column)
}

} // verus!
