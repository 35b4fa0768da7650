//! Sorted lists of names.
//!
//! Texts are ordered character by character, which is also the order of their UTF-8 bytes.

use crate::text::{chars_of, texts};
use vstd::prelude::*;

verus! {

broadcast use vstd::string::group_string_axioms;

/// Whether a text comes before another.
pub open spec fn comes_before(a: Seq<char>, b: Seq<char>) -> bool
    decreases b.len(),
{
    if b.len() == 0 {
        false
    } else if a.len() == 0 {
        true
    } else if a[0] == b[0] {
        comes_before(a.drop_first(), b.drop_first())
    } else {
        (a[0] as int) < (b[0] as int)
    }
}

/// Whether every text of a list comes before the ones behind it.
pub open spec fn increasing(names: Seq<Seq<char>>) -> bool {
    forall|i: int, j: int| 0 <= i < j < names.len() ==> comes_before(#[trigger] names[i], #[trigger] names[j])
}

/// A sorted list with a name in its place. A name that the list has is not added again.
pub open spec fn inserted(names: Seq<Seq<char>>, name: Seq<char>) -> Seq<Seq<char>>
    decreases names.len(),
{
    if names.len() == 0 {
        seq![name]
    } else if names[0] == name {
        names
    } else if comes_before(name, names[0]) {
        seq![name] + names
    } else {
        seq![names[0]] + inserted(names.drop_first(), name)
    }
}

/// A sorted list with the names from one on in their places.
pub open spec fn all_inserted(names: Seq<Seq<char>>, more: Seq<Seq<char>>, from: int) -> Seq<Seq<char>>
    decreases more.len() - from,
{
    if from < 0 || from >= more.len() {
        names
    } else {
        all_inserted(inserted(names, more[from]), more, from + 1)
    }
}

/// No text comes before itself.
pub proof fn lemma_irreflexive(a: Seq<char>)
    ensures
        !comes_before(a, a),
    decreases a.len(),
{
    if a.len() > 0 {
        lemma_irreflexive(a.drop_first());
    }
}

/// Of two different texts one comes before the other.
pub proof fn lemma_total(a: Seq<char>, b: Seq<char>)
    ensures
        a == b || comes_before(a, b) || comes_before(b, a),
        !(comes_before(a, b) && comes_before(b, a)),
    decreases a.len(),
{
    if a.len() == 0 || b.len() == 0 {
        if a.len() == 0 && b.len() == 0 {
            assert(a =~= b);
        }
    } else if a[0] == b[0] {
        lemma_total(a.drop_first(), b.drop_first());
        if a.drop_first() == b.drop_first() {
            assert(a =~= seq![a[0]] + a.drop_first());
            assert(b =~= seq![b[0]] + b.drop_first());
        }
    }
}

/// What comes before something that comes before a text comes before that text.
pub proof fn lemma_transitive(a: Seq<char>, b: Seq<char>, c: Seq<char>)
    requires
        comes_before(a, b),
        comes_before(b, c),
    ensures
        comes_before(a, c),
    decreases a.len(),
{
    if a.len() > 0 && a[0] == b[0] && b[0] == c[0] {
        lemma_transitive(a.drop_first(), b.drop_first(), c.drop_first());
    }
}

proof fn lemma_insert(names: Seq<Seq<char>>, name: Seq<char>)
    requires
        increasing(names),
    ensures
        increasing(inserted(names, name)),
        forall|other: Seq<char>|
            #[trigger] inserted(names, name).contains(other) <==> other == name || names.contains(other),
        inserted(names, name).len() > 0,
        names.len() == 0 || inserted(names, name)[0] == names[0] || inserted(names, name)[0] == name,
        names.len() == 0 ==> inserted(names, name)[0] == name,
    decreases names.len(),
{
    let result = inserted(names, name);
    if names.len() == 0 {
        assert forall|other: Seq<char>| #[trigger] result.contains(other) <==> other == name || names.contains(
            other,
        ) by {
            assert(result[0] == name);
        }
    } else if names[0] == name {
        assert(names.contains(name));
    } else if comes_before(name, names[0]) {
        assert forall|i: int, j: int| 0 <= i < j < result.len() implies comes_before(
            #[trigger] result[i],
            #[trigger] result[j],
        ) by {
            if i == 0 {
                if j > 1 {
                    lemma_transitive(name, names[0], names[j - 1]);
                }
            } else {
                assert(comes_before(names[i - 1], names[j - 1]));
            }
        }
        assert forall|other: Seq<char>| #[trigger] result.contains(other) <==> other == name || names.contains(
            other,
        ) by {
            assert(result[0] == name);
            if names.contains(other) {
                let i = choose|i: int| 0 <= i < names.len() && names[i] == other;
                assert(result[i + 1] == other);
            }
            if result.contains(other) && other != name {
                let i = choose|i: int| 0 <= i < result.len() && result[i] == other;
                assert(names[i - 1] == other);
            }
        }
    } else {
        let rest = names.drop_first();
        let tail = inserted(rest, name);
        lemma_insert(rest, name);
        lemma_total(name, names[0]);
        assert forall|i: int, j: int| 0 <= i < j < result.len() implies comes_before(
            #[trigger] result[i],
            #[trigger] result[j],
        ) by {
            if i == 0 {
                let other = tail[j - 1];
                assert(tail.contains(other));
                if other != name {
                    assert(rest.contains(other));
                    let k = choose|k: int| 0 <= k < rest.len() && rest[k] == other;
                    assert(comes_before(names[0], names[k + 1]));
                }
            } else {
                assert(comes_before(tail[i - 1], tail[j - 1]));
            }
        }
        assert forall|other: Seq<char>| #[trigger] result.contains(other) <==> other == name || names.contains(
            other,
        ) by {
            if result.contains(other) {
                let i = choose|i: int| 0 <= i < result.len() && result[i] == other;
                if i > 0 {
                    assert(tail[i - 1] == other);
                    assert(tail.contains(other));
                    if other != name {
                        let k = choose|k: int| 0 <= k < rest.len() && rest[k] == other;
                        assert(names[k + 1] == other);
                    }
                } else {
                    assert(names[0] == other);
                }
            }
            if other == name || names.contains(other) {
                if other == names[0] {
                    assert(result[0] == other);
                } else {
                    if other != name {
                        let k = choose|k: int| 0 <= k < names.len() && names[k] == other;
                        assert(rest[k - 1] == other);
                    }
                    assert(tail.contains(other));
                    let i = choose|i: int| 0 <= i < tail.len() && tail[i] == other;
                    assert(result[i + 1] == other);
                }
            }
        }
    }
}

/// Inserting into a sorted list keeps it sorted, adds the name, and loses nothing.
pub proof fn law_insertion_keeps_order(names: Seq<Seq<char>>, name: Seq<char>)
    requires
        increasing(names),
    ensures
        increasing(inserted(names, name)),
        forall|other: Seq<char>|
            #[trigger] inserted(names, name).contains(other) <==> other == name || names.contains(other),
{
    lemma_insert(names, name);
}

proof fn lemma_all_inserted(names: Seq<Seq<char>>, more: Seq<Seq<char>>, from: int)
    requires
        increasing(names),
        0 <= from <= more.len(),
    ensures
        increasing(all_inserted(names, more, from)),
        forall|other: Seq<char>|
            #[trigger] all_inserted(names, more, from).contains(other) <==> names.contains(other) || exists|i: int|
                from <= i < more.len() && #[trigger] more[i] == other,
    decreases more.len() - from,
{
    if from < more.len() {
        let next = inserted(names, more[from]);
        lemma_insert(names, more[from]);
        lemma_all_inserted(next, more, from + 1);
        assert forall|other: Seq<char>|
            #[trigger] all_inserted(names, more, from).contains(other) <==> names.contains(other) || exists|i: int|
                from <= i < more.len() && #[trigger] more[i] == other by {
            assert(next.contains(other) <==> other == more[from] || names.contains(other));
        }
    }
}

/// Sorting a list gives an increasing list of exactly its names.
pub proof fn law_sorting_keeps_names(names: Seq<Seq<char>>)
    ensures
        increasing(all_inserted(Seq::empty(), names, 0)),
        forall|name: Seq<char>|
            #[trigger] all_inserted(Seq::empty(), names, 0).contains(name) <==> names.contains(name),
{
    lemma_all_inserted(Seq::empty(), names, 0);
    assert forall|name: Seq<char>| #[trigger] all_inserted(Seq::empty(), names, 0).contains(name)
        <==> names.contains(name) by {
        assert(!Seq::<Seq<char>>::empty().contains(name));
    }
}

proof fn lemma_less_at(a: Seq<char>, b: Seq<char>, at: int)
    requires
        0 <= at <= a.len(),
        at <= b.len(),
        forall|i: int| 0 <= i < at ==> a[i] == b[i],
    ensures
        comes_before(a, b) == comes_before(a.skip(at), b.skip(at)),
    decreases at,
{
    if at == 0 {
        assert(a.skip(0) =~= a);
        assert(b.skip(0) =~= b);
    } else {
        assert(a[0] == b[0]);
        lemma_less_at(a.drop_first(), b.drop_first(), at - 1);
        assert(a.drop_first().skip(at - 1) =~= a.skip(at));
        assert(b.drop_first().skip(at - 1) =~= b.skip(at));
    }
}

/// Decides whether a character comes before another.
fn char_before(a: char, b: char) -> (before: bool)
    ensures
        before == ((a as int) < (b as int)),
{
    (a as u32) < (b as u32)
}

/// Decides whether a text comes before another.
pub fn text_before(a: &str, b: &str) -> (before: bool)
    ensures
        before == comes_before(a@, b@),
{
    let left: Vec<char> = chars_of(a);
    let right: Vec<char> = chars_of(b);
    let mut i: usize = 0;
    while i < left.len() && i < right.len() && left[i] == right[i]
        invariant
            i <= left@.len(),
            i <= right@.len(),
            left@ == a@,
            right@ == b@,
            forall|j: int| 0 <= j < i ==> left@[j] == right@[j],
        decreases left@.len() - i,
    {
        i += 1;
    }
    proof {
        lemma_less_at(a@, b@, i as int);
        if i < a@.len() {
            assert(a@.skip(i as int)[0] == a@[i as int]);
        }
        if i < b@.len() {
            assert(b@.skip(i as int)[0] == b@[i as int]);
        }
    }
    if i == right.len() {
        false
    } else if i == left.len() {
        true
    } else {
        char_before(left[i], right[i])
    }
}

proof fn lemma_insert_at(names: Seq<Seq<char>>, name: Seq<char>, at: int)
    requires
        0 <= at <= names.len(),
        forall|i: int| 0 <= i < at ==> (#[trigger] names[i]) != name && !comes_before(name, names[i]),
    ensures
        inserted(names, name) == names.take(at) + inserted(names.skip(at), name),
    decreases at,
{
    if at == 0 {
        assert(names.take(0) =~= Seq::empty());
        assert(names.skip(0) =~= names);
        assert(names.take(0) + inserted(names.skip(0), name) =~= inserted(names, name));
    } else {
        let rest = names.drop_first();
        assert forall|i: int| 0 <= i < at - 1 implies (#[trigger] rest[i]) != name && !comes_before(
            name,
            rest[i],
        ) by {
            assert(rest[i] == names[i + 1]);
        }
        assert(names[0] != name);
        lemma_insert_at(rest, name, at - 1);
        assert(rest.skip(at - 1) =~= names.skip(at));
        assert(names.take(at) =~= seq![names[0]] + rest.take(at - 1));
        assert(inserted(names, name) =~= names.take(at) + inserted(names.skip(at), name));
    }
}

/// Puts a name into its place in a sorted list that does not have it.
pub fn insert_name(names: &mut Vec<String>, name: &str)
    ensures
        texts(final(names)@) == inserted(texts(old(names)@), name@),
{
    let mut i: usize = 0;
    let ghost given = texts(names@);
    while i < names.len()
        invariant
            i <= names@.len(),
            *names == *old(names),
            given == texts(names@),
            forall|j: int| 0 <= j < i ==> (#[trigger] given[j]) != name@ && !comes_before(name@, given[j]),
        ensures
            i <= names@.len(),
            *names == *old(names),
            given == texts(names@),
            forall|j: int| 0 <= j < i ==> (#[trigger] given[j]) != name@ && !comes_before(name@, given[j]),
            i < names@.len() ==> comes_before(name@, given[i as int]) && given[i as int] != name@,
        decreases names@.len() - i,
    {
        if crate::text::same_text(names[i].as_str(), name) {
            proof {
                assert(given[i as int] == name@);
                lemma_insert_at(given, name@, i as int);
                assert(given.skip(i as int)[0] == name@);
                assert(given.take(i as int) + given.skip(i as int) =~= given);
            }
            return;
        }
        if text_before(name, names[i].as_str()) {
            break;
        }
        i += 1;
    }
    proof {
        lemma_insert_at(given, name@, i as int);
        let tail = given.skip(i as int);
        if i < given.len() {
            assert(tail[0] == given[i as int]);
        }
        assert(inserted(tail, name@) =~= seq![name@] + tail);
    }
    names.insert(i, name.to_owned());
    proof {
        assert(texts(names@) =~= given.take(i as int) + (seq![name@] + given.skip(i as int)));
    }
}

/// The names of a list in order, each once.
pub fn sorted_names(names: &Vec<String>) -> (sorted: Vec<String>)
    ensures
        texts(sorted@) == all_inserted(Seq::empty(), texts(names@), 0),
{
    let mut sorted: Vec<String> = Vec::new();
    let mut i: usize = 0;
    proof {
        assert(texts(sorted@) =~= Seq::empty());
    }
    while i < names.len()
        invariant
            i <= names@.len(),
            all_inserted(Seq::empty(), texts(names@), 0) == all_inserted(texts(sorted@), texts(names@), i as int),
        decreases names@.len() - i,
    {
        insert_name(&mut sorted, names[i].as_str());
        i += 1;
    }
    sorted
}

proof fn lemma_first_is_least(names: Seq<Seq<char>>, name: Seq<char>)
    requires
        increasing(names),
        names.contains(name),
    ensures
        names[0] == name || comes_before(names[0], name),
{
    let i = choose|i: int| 0 <= i < names.len() && names[i] == name;
    if i > 0 {
        assert(comes_before(names[0], names[i]));
    }
}

/// A sorted list is determined by the names it has.
pub proof fn law_sorted_lists_are_unique(a: Seq<Seq<char>>, b: Seq<Seq<char>>)
    requires
        increasing(a),
        increasing(b),
        forall|name: Seq<char>| #[trigger] a.contains(name) <==> b.contains(name),
    ensures
        a == b,
    decreases a.len(),
{
    if a.len() == 0 {
        if b.len() > 0 {
            assert(b.contains(b[0]));
            assert(a.contains(b[0]));
        }
        assert(a =~= b);
    } else {
        assert(a.contains(a[0]));
        assert(b.contains(a[0]));
        assert(b.contains(b[0]));
        assert(a.contains(b[0]));
        lemma_first_is_least(a, b[0]);
        lemma_first_is_least(b, a[0]);
        lemma_total(a[0], b[0]);
        assert(a[0] == b[0]);
        let x = a.drop_first();
        let y = b.drop_first();
        assert forall|name: Seq<char>| #[trigger] x.contains(name) <==> y.contains(name) by {
            if x.contains(name) {
                let i = choose|i: int| 0 <= i < x.len() && x[i] == name;
                assert(a[i + 1] == name);
                assert(comes_before(a[0], a[i + 1]));
                assert(a.contains(name));
                let j = choose|j: int| 0 <= j < b.len() && b[j] == name;
                lemma_irreflexive(name);
                assert(y[j - 1] == name);
            }
            if y.contains(name) {
                let i = choose|i: int| 0 <= i < y.len() && y[i] == name;
                assert(b[i + 1] == name);
                assert(comes_before(b[0], b[i + 1]));
                assert(b.contains(name));
                assert(a.contains(name));
                let j = choose|j: int| 0 <= j < a.len() && a[j] == name;
                lemma_irreflexive(name);
                assert(x[j - 1] == name);
            }
        }
        assert forall|i: int, j: int| 0 <= i < j < x.len() implies comes_before(#[trigger] x[i], #[trigger] x[j]) by {
            assert(comes_before(a[i + 1], a[j + 1]));
        }
        assert forall|i: int, j: int| 0 <= i < j < y.len() implies comes_before(#[trigger] y[i], #[trigger] y[j]) by {
            assert(comes_before(b[i + 1], b[j + 1]));
        }
        law_sorted_lists_are_unique(x, y);
        assert(a =~= seq![a[0]] + x);
        assert(b =~= seq![b[0]] + y);
    }
}

/// Sorting forgets the order in which names were listed.
pub proof fn law_sorting_forgets_order(a: Seq<Seq<char>>, b: Seq<Seq<char>>)
    requires
        forall|name: Seq<char>| #[trigger] a.contains(name) <==> b.contains(name),
    ensures
        all_inserted(Seq::empty(), a, 0) == all_inserted(Seq::empty(), b, 0),
{
    law_sorting_keeps_names(a);
    law_sorting_keeps_names(b);
    assert forall|name: Seq<char>| #[trigger] all_inserted(Seq::empty(), a, 0).contains(name) <==> all_inserted(
        Seq::empty(),
        b,
        0,
    ).contains(name) by {
        assert(a.contains(name) <==> b.contains(name));
    }
    law_sorted_lists_are_unique(all_inserted(Seq::empty(), a, 0), all_inserted(Seq::empty(), b, 0));
}

/// Texts are ordered by the first character in which they differ, the smaller one first, and a text comes before every
/// longer one that it begins.
pub proof fn law_order_goes_by_the_first_difference(common: Seq<char>, a: Seq<char>, b: Seq<char>)
    ensures
        a.len() > 0 && b.len() > 0 && (a[0] as int) < (b[0] as int) ==> comes_before(common + a, common + b)
            && !comes_before(common + b, common + a),
        b.len() > 0 ==> comes_before(common, common + b) && !comes_before(common + b, common),
    decreases common.len(),
{
    if common.len() == 0 {
        assert(common + a =~= a && common + b =~= b);
        assert(common =~= Seq::<char>::empty());
    } else {
        let rest = common.drop_first();
        law_order_goes_by_the_first_difference(rest, a, b);
        assert((common + a).drop_first() =~= rest + a);
        assert((common + b).drop_first() =~= rest + b);
    }
}

} // verus!
