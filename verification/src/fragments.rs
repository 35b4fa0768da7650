//! What the identity of fragments covers.
//!
//! An identity is the digest of fragments that are joined by a mark. Fragments without the mark can be told apart in
//! the joined text, so different fragments with one identity are a collision of the digest.

use crate::digest::{hex, hex_digit, sha256, text_identity};
use crate::selection::fragments_identity;
use crate::text::{decimal, digit, joined, signed_decimal};
use vstd::prelude::*;
use vstd::utf8::encode_utf8;

verus! {

broadcast use vstd::string::group_string_axioms;

/// Whether a character does not stand in a text.
pub open spec fn lacks(text: Seq<char>, mark: char) -> bool {
    !text.contains(mark)
}

/// Whether two different texts have the same digest.
pub open spec fn collide(a: Seq<char>, b: Seq<char>) -> bool {
    a != b && sha256(encode_utf8(a)) == sha256(encode_utf8(b))
}

/// What stands before the first mark of a text and what stands behind it are determined by the text.
pub proof fn lemma_first_part(a: Seq<char>, x: Seq<char>, b: Seq<char>, y: Seq<char>, mark: char)
    requires
        lacks(a, mark),
        lacks(b, mark),
        a + seq![mark] + x == b + seq![mark] + y,
    ensures
        a == b,
        x == y,
{
    let left = a + seq![mark] + x;
    let right = b + seq![mark] + y;
    if a.len() < b.len() {
        assert(left[a.len() as int] == mark);
        assert(right[a.len() as int] == b[a.len() as int]);
        assert(b.contains(mark));
    } else if b.len() < a.len() {
        assert(right[b.len() as int] == mark);
        assert(left[b.len() as int] == a[b.len() as int]);
        assert(a.contains(mark));
    }
    assert(a =~= left.take(a.len() as int));
    assert(b =~= right.take(b.len() as int));
    assert(x =~= left.skip(a.len() as int + 1));
    assert(y =~= right.skip(b.len() as int + 1));
}

/// What stands behind the last mark of a text and what stands before it are determined by the text.
pub proof fn lemma_last_part(x: Seq<char>, a: Seq<char>, y: Seq<char>, b: Seq<char>, mark: char)
    requires
        lacks(a, mark),
        lacks(b, mark),
        x + seq![mark] + a == y + seq![mark] + b,
    ensures
        a == b,
        x == y,
{
    let left = x + seq![mark] + a;
    let right = y + seq![mark] + b;
    if a.len() < b.len() {
        let at = left.len() - a.len() - 1;
        assert(left[at] == mark);
        assert(right[at] == b[at - y.len() - 1]);
        assert(b.contains(mark));
    } else if b.len() < a.len() {
        let at = right.len() - b.len() - 1;
        assert(right[at] == mark);
        assert(left[at] == a[at - x.len() - 1]);
        assert(a.contains(mark));
    }
    assert(x =~= left.take(x.len() as int));
    assert(y =~= right.take(y.len() as int));
    assert(a =~= left.skip(x.len() as int + 1));
    assert(b =~= right.skip(y.len() as int + 1));
}

/// A text before another one lacks what both lack.
pub proof fn lemma_both_lack(a: Seq<char>, b: Seq<char>, mark: char)
    requires
        lacks(a, mark),
        lacks(b, mark),
    ensures
        lacks(a + b, mark),
{
    assert forall|i: int| 0 <= i < (a + b).len() implies (a + b)[i] != mark by {
        if i < a.len() {
            assert(a.contains(a[i]));
        } else {
            assert(b.contains(b[i - a.len()]));
        }
    }
}

/// A number is spelled with digits alone.
pub proof fn lemma_decimal_digits(value: nat)
    ensures
        decimal(value).len() > 0,
        forall|i: int| 0 <= i < decimal(value).len() ==> 48 <= (#[trigger] decimal(value)[i] as int) <= 57,
    decreases value,
{
    let text = decimal(value);
    if value >= 10 {
        lemma_decimal_digits(value / 10);
        assert forall|i: int| 0 <= i < text.len() implies 48 <= (#[trigger] text[i] as int) <= 57 by {
            if i < text.len() - 1 {
                assert(text[i] == decimal(value / 10)[i]);
            }
        }
    }
}

/// The spelling of a number determines it.
pub proof fn lemma_decimal_determines_value(a: nat, b: nat)
    requires
        decimal(a) == decimal(b),
    ensures
        a == b,
    decreases a,
{
    lemma_decimal_digits(a / 10);
    lemma_decimal_digits(b / 10);
    if a < 10 && b < 10 {
        assert(decimal(a)[0] == digit(a) && decimal(b)[0] == digit(b));
    } else if a < 10 {
        assert(decimal(a).len() == 1);
        assert(decimal(b).len() == decimal(b / 10).len() + 1);
    } else if b < 10 {
        assert(decimal(b).len() == 1);
        assert(decimal(a).len() == decimal(a / 10).len() + 1);
    } else {
        assert(decimal(a).last() == digit(a % 10));
        assert(decimal(b).last() == digit(b % 10));
        assert(decimal(a).drop_last() =~= decimal(a / 10));
        assert(decimal(b).drop_last() =~= decimal(b / 10));
        lemma_decimal_determines_value(a / 10, b / 10);
    }
}

/// The spelling of a signed number determines it.
pub proof fn lemma_signed_decimal_determines_value(a: int, b: int)
    requires
        signed_decimal(a) == signed_decimal(b),
    ensures
        a == b,
{
    let x = decimal(if a < 0 { -a } else { a } as nat);
    let y = decimal(if b < 0 { -b } else { b } as nat);
    lemma_decimal_digits(if a < 0 { -a } else { a } as nat);
    lemma_decimal_digits(if b < 0 { -b } else { b } as nat);
    if a < 0 && b < 0 {
        assert(x =~= signed_decimal(a).skip(1));
        assert(y =~= signed_decimal(b).skip(1));
        lemma_decimal_determines_value((-a) as nat, (-b) as nat);
    } else if a < 0 {
        assert(signed_decimal(a)[0] == '-');
        assert(signed_decimal(b)[0] == y[0]);
    } else if b < 0 {
        assert(signed_decimal(b)[0] == '-');
        assert(signed_decimal(a)[0] == x[0]);
    } else {
        lemma_decimal_determines_value(a as nat, b as nat);
    }
}

proof fn lemma_hex_determines_bytes(a: Seq<u8>, b: Seq<u8>)
    requires
        hex(a) == hex(b),
    ensures
        a == b,
{
    assert(hex(a).len() == 2 * a.len());
    assert(hex(b).len() == 2 * b.len());
    assert forall|i: int| 0 <= i < a.len() implies a[i] == b[i] by {
        assert(hex(a)[2 * i] == hex_digit(a[i] as int / 16));
        assert(hex(b)[2 * i] == hex_digit(b[i] as int / 16));
        assert(hex(a)[2 * i + 1] == hex_digit(a[i] as int % 16));
        assert(hex(b)[2 * i + 1] == hex_digit(b[i] as int % 16));
        assert(a[i] as int / 16 == b[i] as int / 16);
        assert(a[i] as int % 16 == b[i] as int % 16);
    }
    assert(a =~= b);
}

/// Texts with one identity are one text, or they collide.
pub proof fn lemma_one_identity(a: Seq<char>, b: Seq<char>)
    requires
        text_identity(a) == text_identity(b),
    ensures
        a == b || collide(a, b),
{
    let x = hex(sha256(encode_utf8(a)));
    let y = hex(sha256(encode_utf8(b)));
    let prefix = "sha256:"@;
    assert(x =~= (prefix + x).skip(prefix.len() as int));
    assert(y =~= (prefix + y).skip(prefix.len() as int));
    lemma_hex_determines_bytes(sha256(encode_utf8(a)), sha256(encode_utf8(b)));
}

/// The first of joined texts stands before the others.
pub proof fn lemma_joined_first(parts: Seq<Seq<char>>, separator: Seq<char>)
    requires
        parts.len() > 1,
    ensures
        joined(parts, separator) == parts[0] + separator + joined(parts.drop_first(), separator),
    decreases parts.len(),
{
    let front = parts.drop_last();
    let back = parts.drop_first();
    if parts.len() == 2 {
        assert(joined(front, separator) == parts[0]);
        assert(joined(back, separator) == parts[1]);
    } else {
        lemma_joined_first(front, separator);
        assert(front.drop_first() =~= back.drop_last());
        assert(joined(parts, separator) =~= parts[0] + separator + joined(back, separator));
    }
}

proof fn lemma_mark()
    ensures
        "\u{1}"@ == seq!['\u{1}'],
{
    reveal_strlit("\u{1}");
    assert("\u{1}"@ =~= seq!['\u{1}']);
}

/// Whether no fragment but one holds the mark.
pub open spec fn unmarked_but(parts: Seq<Seq<char>>, at: int) -> bool {
    forall|i: int| 0 <= i < parts.len() && i != at ==> lacks(#[trigger] parts[i], '\u{1}')
}

/// Joined fragments are determined by their text, where no fragment but one, which is at the same place in both,
/// holds the mark.
proof fn lemma_fragments(a: Seq<Seq<char>>, b: Seq<Seq<char>>, at: int)
    requires
        a.len() == b.len(),
        0 <= at < a.len(),
        unmarked_but(a, at),
        unmarked_but(b, at),
        joined(a, "\u{1}"@) == joined(b, "\u{1}"@),
    ensures
        a == b,
    decreases a.len(),
{
    lemma_mark();
    let mark = "\u{1}"@;
    if a.len() == 1 {
        assert(a =~= b);
    } else if at > 0 {
        lemma_joined_first(a, mark);
        lemma_joined_first(b, mark);
        lemma_first_part(a[0], joined(a.drop_first(), mark), b[0], joined(b.drop_first(), mark), '\u{1}');
        assert(unmarked_but(a.drop_first(), at - 1)) by {
            assert forall|i: int| 0 <= i < a.drop_first().len() && i != at - 1 implies lacks(
                #[trigger] a.drop_first()[i],
                '\u{1}',
            ) by {
                assert(a.drop_first()[i] == a[i + 1]);
            }
        }
        assert(unmarked_but(b.drop_first(), at - 1)) by {
            assert forall|i: int| 0 <= i < b.drop_first().len() && i != at - 1 implies lacks(
                #[trigger] b.drop_first()[i],
                '\u{1}',
            ) by {
                assert(b.drop_first()[i] == b[i + 1]);
            }
        }
        lemma_fragments(a.drop_first(), b.drop_first(), at - 1);
        assert(a =~= seq![a[0]] + a.drop_first());
        assert(b =~= seq![b[0]] + b.drop_first());
    } else {
        lemma_last_part(joined(a.drop_last(), mark), a.last(), joined(b.drop_last(), mark), b.last(), '\u{1}');
        lemma_fragments(a.drop_last(), b.drop_last(), at);
        assert(a =~= a.drop_last().push(a.last()));
        assert(b =~= b.drop_last().push(b.last()));
    }
}

/// As many fragments with one identity are the same fragments, or they collide. One fragment may hold the mark, at the
/// same place in both.
pub proof fn law_identities_cover_fragments(a: Seq<Seq<char>>, b: Seq<Seq<char>>, at: int)
    requires
        a.len() == b.len(),
        0 <= at < a.len(),
        unmarked_but(a, at),
        unmarked_but(b, at),
        fragments_identity(a) == fragments_identity(b),
    ensures
        a == b || collide(joined(a, "\u{1}"@), joined(b, "\u{1}"@)),
{
    lemma_one_identity(joined(a, "\u{1}"@), joined(b, "\u{1}"@));
    if joined(a, "\u{1}"@) == joined(b, "\u{1}"@) {
        lemma_fragments(a, b, at);
    }
}

} // verus!
