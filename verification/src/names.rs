//! Maps from names to values.

use crate::text::same_text;
use vstd::prelude::*;

verus! {

/// A map keyed by name.
#[derive(Debug)]
pub struct NameMap<V> {
    /// The entries. A later entry of a name hides an earlier one.
    pub entries: Vec<(String, V)>,
}

/// The map that a run of entries gives when each is entered after the other.
pub open spec fn entered<V>(entries: Seq<(String, V)>) -> Map<Seq<char>, V>
    decreases entries.len(),
{
    if entries.len() == 0 {
        Map::empty()
    } else {
        entered(entries.drop_last()).insert(entries.last().0@, entries.last().1)
    }
}

impl<V> View for NameMap<V> {
    type V = Map<Seq<char>, V>;

    open spec fn view(&self) -> Map<Seq<char>, V> {
        entered(self.entries@)
    }
}

impl<V> NameMap<V> {
    /// Whether no name has two entries.
    pub open spec fn distinct(&self) -> bool {
        forall|i: int, j: int|
            0 <= i < j < self.entries@.len() ==> (#[trigger] self.entries@[i]).0@ != (#[trigger] self.entries@[j]).0@
    }
}

/// The place that decides what a name is mapped to.
proof fn lemma_entered<V>(entries: Seq<(String, V)>, name: Seq<char>, at: int)
    requires
        -1 <= at < entries.len(),
        at >= 0 ==> entries[at].0@ == name,
        forall|j: int| at < j < entries.len() ==> (#[trigger] entries[j]).0@ != name,
    ensures
        entered(entries).contains_key(name) <==> at >= 0,
        at >= 0 ==> entered(entries)[name] == entries[at].1,
    decreases entries.len(),
{
    if entries.len() > 0 && at < entries.len() - 1 {
        let front = entries.drop_last();
        assert forall|j: int| at < j < front.len() implies (#[trigger] front[j]).0@ != name by {
            assert(front[j] == entries[j]);
        }
        lemma_entered(front, name, at);
        assert(entries[entries.len() - 1].0@ != name);
    }
}

/// Every entered name is known.
proof fn lemma_entry_is_known<V>(entries: Seq<(String, V)>, at: int)
    requires
        0 <= at < entries.len(),
    ensures
        entered(entries).contains_key(entries[at].0@),
    decreases entries.len(),
{
    if at < entries.len() - 1 {
        lemma_entry_is_known(entries.drop_last(), at);
    }
}

/// Overwriting the place that decides a name's value enters the new value.
proof fn lemma_overwritten<V>(entries: Seq<(String, V)>, at: int, entry: (String, V))
    requires
        0 <= at < entries.len(),
        entries[at].0@ == entry.0@,
        forall|j: int| at < j < entries.len() ==> (#[trigger] entries[j]).0@ != entry.0@,
    ensures
        entered(entries.update(at, entry)) == entered(entries).insert(entry.0@, entry.1),
    decreases entries.len(),
{
    let updated = entries.update(at, entry);
    if at == entries.len() - 1 {
        assert(updated.drop_last() =~= entries.drop_last());
        assert(entered(updated) =~= entered(entries).insert(entry.0@, entry.1));
    } else {
        let front = entries.drop_last();
        assert forall|j: int| at < j < front.len() implies (#[trigger] front[j]).0@ != entry.0@ by {
            assert(front[j] == entries[j]);
        }
        lemma_overwritten(front, at, entry);
        assert(updated.drop_last() =~= front.update(at, entry));
        assert(entries[entries.len() - 1].0@ != entry.0@);
        assert(entered(updated) =~= entered(entries).insert(entry.0@, entry.1));
    }
}

impl<V> NameMap<V> {
    /// The map without entries.
    pub fn new() -> (map: Self)
        ensures
            map@ == Map::<Seq<char>, V>::empty(),
            map.entries@.len() == 0,
            map.distinct(),
    {
        NameMap { entries: Vec::new() }
    }

    /// The place of a name's entry.
    fn find(&self, name: &str) -> (place: Option<usize>)
        ensures
            place is Some <==> self@.contains_key(name@),
            place matches Some(at) ==> at < self.entries@.len() && self.entries@[at as int].0@ == name@
                && self.entries@[at as int].1 == self@[name@] && forall|j: int|
                at < j < self.entries@.len() ==> (#[trigger] self.entries@[j]).0@ != name@,
    {
        let mut i: usize = self.entries.len();
        while i > 0
            invariant
                i <= self.entries@.len(),
                forall|j: int| i <= j < self.entries@.len() ==> (#[trigger] self.entries@[j]).0@ != name@,
            decreases i,
        {
            i -= 1;
            if same_text(self.entries[i].0.as_str(), name) {
                proof {
                    lemma_entered(self.entries@, name@, i as int);
                }
                return Some(i);
            }
        }
        proof {
            lemma_entered(self.entries@, name@, -1);
        }
        None
    }

    /// Decides whether a name is in the map.
    pub fn contains_key(&self, name: &str) -> (found: bool)
        ensures
            found == self@.contains_key(name@),
    {
        self.find(name).is_some()
    }

    /// What a name is mapped to.
    pub fn get(&self, name: &str) -> (value: Option<&V>)
        ensures
            value is Some <==> self@.contains_key(name@),
            value matches Some(v) ==> *v == self@[name@],
    {
        match self.find(name) {
            Some(at) => Some(&self.entries[at].1),
            None => None,
        }
    }

    /// Maps a name to a value, in place of what it was mapped to.
    pub fn insert(&mut self, name: String, value: V)
        ensures
            final(self)@ == old(self)@.insert(name@, value),
            final(self).entries@.len() == old(self).entries@.len() + if old(self)@.contains_key(name@) {
                0int
            } else {
                1int
            },
            old(self).distinct() ==> final(self).distinct(),
    {
        match self.find(name.as_str()) {
            Some(at) => {
                proof {
                    lemma_overwritten(self.entries@, at as int, (name, value));
                }
                self.entries.set(at, (name, value));
            },
            None => {
                proof {
                    assert(self.entries@.push((name, value)).drop_last() =~= self.entries@);
                    assert forall|i: int| 0 <= i < self.entries@.len() implies (#[trigger] self.entries@[i]).0@
                        != name@ by {
                        lemma_entry_is_known(self.entries@, i);
                    }
                }
                self.entries.push((name, value));
            },
        }
    }
}

} // verus!
