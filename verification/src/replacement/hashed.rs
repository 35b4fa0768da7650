//! Hashed sets and dictionaries for membership tests.
//!
//! A membership test is a hashed lookup. A key is admitted exactly where it is a collection scalar: an integer, a
//! flag, a string or the unit value. Anything else is refused, when a container is built and when it is asked.
//!
//! The containers can be built, asked, compared and rendered. They keep no source order; rendering sorts the keys.

use crate::order::{comes_before, lemma_irreflexive, lemma_total, lemma_transitive, text_before};
use crate::replacement::equality::{equal_values, is_data, is_equal_value, law_equal_data_is_the_same};
use crate::replacement::value::{models, observable, scalar, ReplacementValue, ValueModel};
use crate::text::{bool_spelling, bool_text, integer_text, join, joined, same_text, signed_decimal, texts};
use std::collections::HashSet;
use vstd::hash_set::StringHashSet;
use vstd::prelude::*;

verus! {

broadcast use {vstd::string::group_string_axioms, vstd::std_specs::hash::group_hash_axioms};

/// A value that cannot be a key.
#[derive(Debug, Clone, Copy, PartialEq, Eq)]
pub struct NonScalarKey {
    /// What kind of value was refused.
    pub kind: &'static str,
}

impl NonScalarKey {
    /// The refusal in words.
    pub fn message(&self) -> (text: String)
        ensures
            text@ == "a "@ + self.kind@ + " value cannot key a hashed container in the replacement profile"@,
    {
        "a ".to_owned().concat(self.kind).concat(" value cannot key a hashed container in the replacement profile")
    }
}

/// A key of a hashed container.
#[derive(Debug, PartialEq, Eq)]
#[allow(inconsistent_fields)]
pub enum HashedKey {
    /// An integer.
    Int(i64),
    /// A flag.
    Bool(bool),
    /// A string.
    Str(String),
    /// The unit value.
    Unit,
}

/// What a key is.
#[allow(inconsistent_fields)]
pub ghost enum KeyModel {
    /// An integer.
    Int(i64),
    /// A flag.
    Bool(bool),
    /// A string.
    Str(Seq<char>),
    /// The unit value.
    Unit,
}

/// The key that a value is; `None` for a value that is no collection scalar.
pub open spec fn key_of(value: ValueModel) -> Option<KeyModel> {
    match value {
        ValueModel::Int(value) => Some(KeyModel::Int(value)),
        ValueModel::Bool(value) => Some(KeyModel::Bool(value)),
        ValueModel::Str(value) => Some(KeyModel::Str(value)),
        ValueModel::Unit => Some(KeyModel::Unit),
        _ => None,
    }
}

/// The label of a refused value's kind.
pub open spec fn kind_label(value: ValueModel) -> Seq<char> {
    match value {
        ValueModel::Int(_) => "int"@,
        ValueModel::Bool(_) => "bool"@,
        ValueModel::Str(_) => "str"@,
        ValueModel::Float(_) => "float"@,
        ValueModel::Unit => "unit"@,
        ValueModel::Range { .. } => "range"@,
        ValueModel::List { .. } => "list"@,
        ValueModel::Tuple(_) => "tuple"@,
        ValueModel::Callable(_) => "callable"@,
        ValueModel::Generator(_) => "generator"@,
        ValueModel::Adapter { .. } => "generator-adapter"@,
        ValueModel::CollectedGenerator { .. } => "collected-generator"@,
    }
}

/// How a key is rendered.
pub open spec fn key_text(key: KeyModel) -> Seq<char> {
    match key {
        KeyModel::Int(value) => signed_decimal(value as int),
        KeyModel::Bool(value) => bool_spelling(value),
        KeyModel::Str(value) => value,
        KeyModel::Unit => "None"@,
    }
}

/// The place of a key's kind among the kinds.
pub open spec fn key_rank(key: KeyModel) -> int {
    match key {
        KeyModel::Int(_) => 0,
        KeyModel::Bool(_) => 1,
        KeyModel::Str(_) => 2,
        KeyModel::Unit => 3,
    }
}

/// Whether a key is rendered before another.
pub open spec fn key_before(a: KeyModel, b: KeyModel) -> bool {
    match (a, b) {
        (KeyModel::Int(x), KeyModel::Int(y)) => x < y,
        (KeyModel::Bool(x), KeyModel::Bool(y)) => !x && y,
        (KeyModel::Str(x), KeyModel::Str(y)) => comes_before(x, y),
        _ => key_rank(a) < key_rank(b),
    }
}

proof fn lemma_keys_are_ordered(a: KeyModel, b: KeyModel)
    ensures
        a == b || key_before(a, b) || key_before(b, a),
        !(key_before(a, b) && key_before(b, a)),
        !key_before(a, a),
{
    match (a, b) {
        (KeyModel::Str(x), KeyModel::Str(y)) => {
            lemma_total(x, y);
            lemma_irreflexive(x);
        },
        (KeyModel::Str(x), _) => {
            lemma_irreflexive(x);
        },
        _ => {},
    }
}

proof fn lemma_keys_chain(a: KeyModel, b: KeyModel, c: KeyModel)
    requires
        key_before(a, b),
        key_before(b, c),
    ensures
        key_before(a, c),
{
    match (a, b, c) {
        (KeyModel::Str(x), KeyModel::Str(y), KeyModel::Str(z)) => {
            lemma_transitive(x, y, z);
        },
        _ => {},
    }
}

/// Whether keys are listed in order, each once.
pub open spec fn ordered(keys: Seq<KeyModel>) -> bool {
    forall|i: int, j: int| 0 <= i < j < keys.len() ==> key_before(#[trigger] keys[i], #[trigger] keys[j])
}

impl HashedKey {
    /// What the key is.
    pub open spec fn model(self) -> KeyModel {
        match self {
            HashedKey::Int(value) => KeyModel::Int(value),
            HashedKey::Bool(value) => KeyModel::Bool(value),
            HashedKey::Str(value) => KeyModel::Str(value@),
            HashedKey::Unit => KeyModel::Unit,
        }
    }

    /// Admits a value as a key, or refuses it with its kind.
    pub fn try_from_value(value: ReplacementValue) -> (outcome: Result<Self, NonScalarKey>)
        ensures
            match outcome {
                Ok(key) => key_of(value.model()) == Some(key.model()),
                Err(refusal) => key_of(value.model()) is None && refusal.kind@ == kind_label(value.model()),
            },
    {
        match value {
            ReplacementValue::Int(value) => Ok(HashedKey::Int(value)),
            ReplacementValue::Bool(value) => Ok(HashedKey::Bool(value)),
            ReplacementValue::Str(value) => Ok(HashedKey::Str(value)),
            ReplacementValue::Unit => Ok(HashedKey::Unit),
            other => Err(NonScalarKey { kind: value_kind_label(&other) }),
        }
    }

    /// Renders the key as the value it came from is rendered.
    fn observable_text(&self) -> (text: String)
        ensures
            text@ == key_text(self.model()),
    {
        match self {
            HashedKey::Int(value) => integer_text(*value),
            HashedKey::Bool(value) => bool_text(*value),
            HashedKey::Str(value) => value.clone(),
            HashedKey::Unit => "None".to_owned(),
        }
    }

    /// Decides whether two keys are the same.
    fn same(&self, other: &HashedKey) -> (same: bool)
        ensures
            same == (self.model() == other.model()),
    {
        match (self, other) {
            (HashedKey::Int(a), HashedKey::Int(b)) => *a == *b,
            (HashedKey::Bool(a), HashedKey::Bool(b)) => *a == *b,
            (HashedKey::Str(a), HashedKey::Str(b)) => same_text(a.as_str(), b.as_str()),
            (HashedKey::Unit, HashedKey::Unit) => true,
            _ => false,
        }
    }

    /// Decides whether a key is rendered before another.
    fn before(&self, other: &HashedKey) -> (before: bool)
        ensures
            before == key_before(self.model(), other.model()),
    {
        match (self, other) {
            (HashedKey::Int(a), HashedKey::Int(b)) => *a < *b,
            (HashedKey::Bool(a), HashedKey::Bool(b)) => !*a && *b,
            (HashedKey::Str(a), HashedKey::Str(b)) => text_before(a.as_str(), b.as_str()),
            _ => self.rank() < other.rank(),
        }
    }

    /// The place of the key's kind among the kinds.
    fn rank(&self) -> (rank: u8)
        ensures
            rank == key_rank(self.model()),
    {
        match self {
            HashedKey::Int(_) => 0,
            HashedKey::Bool(_) => 1,
            HashedKey::Str(_) => 2,
            HashedKey::Unit => 3,
        }
    }
}

/// The label of a refused value's kind.
fn value_kind_label(value: &ReplacementValue) -> (label: &'static str)
    ensures
        label@ == kind_label(value.model()),
{
    match value {
        ReplacementValue::Int(_) => "int",
        ReplacementValue::Bool(_) => "bool",
        ReplacementValue::Str(_) => "str",
        ReplacementValue::Float(_) => "float",
        ReplacementValue::Unit => "unit",
        ReplacementValue::Range { .. } => "range",
        ReplacementValue::List { .. } => "list",
        ReplacementValue::Tuple(_) => "tuple",
        ReplacementValue::Callable(_) => "callable",
        ReplacementValue::Generator(_) => "generator",
        ReplacementValue::Adapter(_) => "generator-adapter",
        ReplacementValue::CollectedGenerator { .. } => "collected-generator",
    }
}

// ---------------------------------------------------------------------------
// The hashed index
// ---------------------------------------------------------------------------

/// A hashed index of keys, by kind.
struct KeyIndex {
    ints: HashSet<i64>,
    strs: StringHashSet,
    truths: bool,
    lies: bool,
    unit: bool,
}

impl KeyIndex {
    /// Whether the index has a key.
    spec fn has(self, key: KeyModel) -> bool {
        match key {
            KeyModel::Int(value) => self.ints@.contains(value),
            KeyModel::Bool(value) => if value {
                self.truths
            } else {
                self.lies
            },
            KeyModel::Str(value) => self.strs@.contains(value),
            KeyModel::Unit => self.unit,
        }
    }

    /// The index without keys.
    fn new() -> (index: Self)
        ensures
            forall|key: KeyModel| !(#[trigger] index.has(key)),
    {
        KeyIndex { ints: HashSet::new(), strs: StringHashSet::new(), truths: false, lies: false, unit: false }
    }

    /// Decides whether the index has a key.
    fn contains(&self, key: &HashedKey) -> (found: bool)
        ensures
            found == self.has(key.model()),
    {
        match key {
            HashedKey::Int(value) => self.ints.contains(value),
            HashedKey::Bool(value) => if *value {
                self.truths
            } else {
                self.lies
            },
            HashedKey::Str(value) => self.strs.contains(value.as_str()),
            HashedKey::Unit => self.unit,
        }
    }

    /// Enters a key.
    fn insert(&mut self, key: &HashedKey)
        ensures
            forall|other: KeyModel|
                #[trigger] final(self).has(other) <==> old(self).has(other) || other == key.model(),
    {
        match key {
            HashedKey::Int(value) => {
                let _ = self.ints.insert(*value);
            },
            HashedKey::Bool(value) => {
                if *value {
                    self.truths = true;
                } else {
                    self.lies = true;
                }
            },
            HashedKey::Str(value) => {
                let _ = self.strs.insert(value.clone());
            },
            HashedKey::Unit => {
                self.unit = true;
            },
        }
    }
}

// ---------------------------------------------------------------------------
// Sets
// ---------------------------------------------------------------------------

/// What a run of keys is.
pub open spec fn key_models(keys: Seq<HashedKey>) -> Seq<KeyModel> {
    Seq::new(keys.len(), |i: int| keys[i].model())
}

/// The keys of a list.
pub open spec fn key_set(keys: Seq<KeyModel>) -> Set<KeyModel> {
    Set::new(|key: KeyModel| keys.contains(key))
}

/// A set of collection scalars.
pub struct ReplacementSet {
    index: KeyIndex,
    keys: Vec<HashedKey>,
}

/// The keys that the elements from one on give, with those found so far; the kind of the first element that cannot be
/// a key.
pub open spec fn elements_keys(elements: Seq<ValueModel>, from: int, found: Set<KeyModel>) -> Result<
    Set<KeyModel>,
    Seq<char>,
>
    decreases elements.len() - from,
{
    if from < 0 || from >= elements.len() {
        Ok(found)
    } else {
        match key_of(elements[from]) {
            Some(key) => elements_keys(elements, from + 1, found.insert(key)),
            None => Err(kind_label(elements[from])),
        }
    }
}

/// How a set is rendered whose keys are listed in order.
pub open spec fn set_text(keys: Seq<KeyModel>) -> Seq<char> {
    if keys.len() == 0 {
        "Set()"@
    } else {
        "{"@ + joined(Seq::new(keys.len(), |i: int| key_text(keys[i])), ", "@) + "}"@
    }
}

impl ReplacementSet {
    #[verifier::type_invariant]
    spec fn well_formed(self) -> bool {
        &&& ordered(key_models(self.keys@))
        &&& forall|key: KeyModel|
            #[trigger] self.index.has(key) <==> key_models(self.keys@).contains(key)
    }

    /// The keys, listed in order.
    pub closed spec fn listed(self) -> Seq<KeyModel> {
        key_models(self.keys@)
    }

    /// The keys.
    pub open spec fn view(self) -> Set<KeyModel> {
        key_set(self.listed())
    }

    /// The set without elements.
    #[must_use]
    pub fn empty() -> (set: Self)
        ensures
            set@ == Set::<KeyModel>::empty(),
    {
        let set = ReplacementSet { index: KeyIndex::new(), keys: Vec::new() };
        proof {
            assert(set@ =~= Set::<KeyModel>::empty());
        }
        set
    }

    /// Builds a set from evaluated elements. The first element that cannot be a key is refused; repeated ones count
    /// once.
    pub fn from_elements(elements: Vec<ReplacementValue>) -> (outcome: Result<Self, NonScalarKey>)
        ensures
            match outcome {
                Ok(set) => elements_keys(models(elements@), 0, Set::empty()) == Ok::<Set<KeyModel>, Seq<char>>(set@),
                Err(refusal) => elements_keys(models(elements@), 0, Set::empty()) == Err::<Set<KeyModel>, Seq<char>>(
                    refusal.kind@,
                ),
            },
    {
        let ghost values = models(elements@);
        let mut set: ReplacementSet = ReplacementSet::empty();
        for value in it: elements
            invariant
                it.seq() == elements@,
                values == models(elements@),
                elements_keys(values, 0, Set::empty()) == elements_keys(values, it.index(), set@),
        {
            proof {
                assert(values[it.index()] == value.model());
            }
            let key: HashedKey = HashedKey::try_from_value(value)?;
            set = set.with(key);
        }
        Ok(set)
    }

    /// The set with one more key.
    fn with(self, key: HashedKey) -> (set: Self)
        ensures
            set@ == self@.insert(key.model()),
    {
        let ghost given = self@;
        proof {
            use_type_invariant(&self);
        }
        let ReplacementSet { index, keys } = self;
        if index.contains(&key) {
            proof {
                assert(given.insert(key.model()) =~= given);
            }
            return ReplacementSet { index, keys };
        }
        let mut index = index;
        let mut keys = keys;
        let ghost before = key_models(keys@);
        let at: usize = place_of(&keys, &key);
        index.insert(&key);
        let ghost model = key.model();
        keys.insert(at, key);
        proof {
            let after = key_models(keys@);
            assert(after =~= before.insert(at as int, model));
            lemma_placed(before, at as int, model);
            let set = ReplacementSet { index, keys };
            assert forall|other: KeyModel| #[trigger] index.has(other) <==> after.contains(other) by {
                assert(after.contains(other) <==> before.contains(other) || other == model);
            }
            assert(set@ =~= given.insert(model)) by {
                assert forall|other: KeyModel| set@.contains(other) <==> given.insert(model).contains(other) by {
                    assert(after.contains(other) <==> before.contains(other) || other == model);
                }
            }
        }
        ReplacementSet { index, keys }
    }

    /// Decides whether the set has an element. One that cannot be a key is refused, even by the empty set.
    pub fn contains(&self, needle: ReplacementValue) -> (outcome: Result<bool, NonScalarKey>)
        ensures
            match outcome {
                Ok(found) => key_of(needle.model()) matches Some(key) && found == self@.contains(key),
                Err(refusal) => key_of(needle.model()) is None && refusal.kind@ == kind_label(needle.model()),
            },
    {
        proof {
            use_type_invariant(self);
        }
        let key: HashedKey = HashedKey::try_from_value(needle)?;
        Ok(self.index.contains(&key))
    }

    /// Decides whether two sets have the same elements.
    pub fn equals(&self, other: &ReplacementSet) -> (same: bool)
        ensures
            same == (self@ == other@),
    {
        proof {
            use_type_invariant(self);
            use_type_invariant(other);
        }
        let ghost a = self.listed();
        let ghost b = other.listed();
        if self.keys.len() != other.keys.len() {
            proof {
                assert(a.len() == self.keys@.len() && b.len() == other.keys@.len());
                if self@ == other@ {
                    lemma_ordered_is_unique(a, b);
                }
            }
            return false;
        }
        let mut i: usize = 0;
        while i < self.keys.len()
            invariant
                i <= self.keys@.len() == other.keys@.len(),
                a == self.listed(),
                b == other.listed(),
                a == key_models(self.keys@),
                b == key_models(other.keys@),
                ordered(a),
                ordered(b),
                forall|j: int| 0 <= j < i ==> a[j] == b[j],
            decreases self.keys@.len() - i,
        {
            if !self.keys[i].same(&other.keys[i]) {
                proof {
                    assert(a[i as int] != b[i as int]);
                    if self@ == other@ {
                        lemma_ordered_is_unique(a, b);
                    }
                }
                return false;
            }
            i += 1;
        }
        proof {
            assert(a =~= b);
        }
        true
    }

    /// Renders the set with its keys in order. The empty set is rendered as its constructor.
    #[must_use]
    pub fn observable_text(&self) -> (text: String)
        ensures
            text@ == set_text(self.listed()),
            ordered(self.listed()),
    {
        proof {
            use_type_invariant(self);
        }
        if self.keys.len() == 0 {
            return "Set()".to_owned();
        }
        let mut parts: Vec<String> = Vec::new();
        let mut i: usize = 0;
        while i < self.keys.len()
            invariant
                i <= self.keys@.len(),
                parts@.len() == i,
                forall|j: int| 0 <= j < i ==> (#[trigger] parts@[j])@ == key_text(self.keys@[j].model()),
            decreases self.keys@.len() - i,
        {
            parts.push(self.keys[i].observable_text());
            i += 1;
        }
        proof {
            assert(texts(parts@) =~= Seq::new(self.listed().len(), |i: int| key_text(self.listed()[i])));
        }
        "{".to_owned().concat(join(&parts, ", ").as_str()).concat("}")
    }
}

/// The place of a key in an ordered list that does not have it.
fn place_of(keys: &Vec<HashedKey>, key: &HashedKey) -> (at: usize)
    requires
        ordered(key_models(keys@)),
        !key_models(keys@).contains(key.model()),
    ensures
        at <= keys@.len(),
        forall|i: int| 0 <= i < at ==> key_before(#[trigger] key_models(keys@)[i], key.model()),
        forall|i: int| at <= i < keys@.len() ==> key_before(key.model(), #[trigger] key_models(keys@)[i]),
{
    let ghost list = key_models(keys@);
    let mut at: usize = 0;
    while at < keys.len() && keys[at].before(key)
        invariant
            at <= keys@.len(),
            list == key_models(keys@),
            forall|i: int| 0 <= i < at ==> key_before(#[trigger] list[i], key.model()),
        ensures
            at <= keys@.len(),
            forall|i: int| 0 <= i < at ==> key_before(#[trigger] list[i], key.model()),
            at < keys@.len() ==> !key_before(list[at as int], key.model()),
        decreases keys@.len() - at,
    {
        at += 1;
    }
    proof {
        if at < list.len() {
            assert(list[at as int] != key.model()) by {
                if list[at as int] == key.model() {
                    assert(list.contains(key.model()));
                }
            }
            lemma_keys_are_ordered(list[at as int], key.model());
            assert forall|i: int| at <= i < list.len() implies key_before(key.model(), #[trigger] list[i]) by {
                if i > at {
                    lemma_keys_chain(key.model(), list[at as int], list[i]);
                }
            }
        }
    }
    at
}

proof fn lemma_placed(keys: Seq<KeyModel>, at: int, key: KeyModel)
    requires
        0 <= at <= keys.len(),
        ordered(keys),
        forall|i: int| 0 <= i < at ==> key_before(#[trigger] keys[i], key),
        forall|i: int| at <= i < keys.len() ==> key_before(key, #[trigger] keys[i]),
    ensures
        ordered(keys.insert(at, key)),
        forall|other: KeyModel| #[trigger] keys.insert(at, key).contains(other) <==> keys.contains(other) || other == key,
{
    let all = keys.insert(at, key);
    assert forall|i: int, j: int| 0 <= i < j < all.len() implies key_before(#[trigger] all[i], #[trigger] all[j]) by {
        if j < at {
            assert(all[i] == keys[i] && all[j] == keys[j]);
        } else if j == at {
            assert(all[i] == keys[i]);
        } else if i < at {
            assert(all[i] == keys[i] && all[j] == keys[j - 1]);
        } else if i == at {
            assert(all[j] == keys[j - 1]);
        } else {
            assert(all[i] == keys[i - 1] && all[j] == keys[j - 1]);
        }
    }
    assert forall|other: KeyModel| #[trigger] all.contains(other) <==> keys.contains(other) || other == key by {
        assert(all[at] == key);
        if keys.contains(other) {
            let i = choose|i: int| 0 <= i < keys.len() && keys[i] == other;
            if i < at {
                assert(all[i] == other);
            } else {
                assert(all[i + 1] == other);
            }
        }
        if all.contains(other) && other != key {
            let i = choose|i: int| 0 <= i < all.len() && all[i] == other;
            if i < at {
                assert(keys[i] == other);
            } else {
                assert(keys[i - 1] == other);
            }
        }
    }
}

/// Keys are listed in order in one way only.
pub proof fn lemma_ordered_is_unique(a: Seq<KeyModel>, b: Seq<KeyModel>)
    requires
        ordered(a),
        ordered(b),
        key_set(a) == key_set(b),
    ensures
        a == b,
    decreases a.len(),
{
    assert forall|key: KeyModel| #[trigger] a.contains(key) <==> b.contains(key) by {
        assert(key_set(a).contains(key) == a.contains(key));
        assert(key_set(b).contains(key) == b.contains(key));
    }
    if a.len() == 0 {
        if b.len() > 0 {
            assert(b.contains(b[0]));
            assert(a.contains(b[0]));
        }
        assert(a =~= b);
    } else {
        assert(a.contains(a[0]));
        let i = choose|i: int| 0 <= i < b.len() && b[i] == a[0];
        assert(b.contains(b[0]));
        assert(a.contains(b[0]));
        let j = choose|j: int| 0 <= j < a.len() && a[j] == b[0];
        if i > 0 && j > 0 {
            assert(key_before(b[0], b[i]));
            assert(key_before(a[0], a[j]));
            lemma_keys_are_ordered(a[0], b[0]);
        }
        assert(a[0] == b[0]);
        let x = a.drop_first();
        let y = b.drop_first();
        assert forall|m: int, n: int| 0 <= m < n < x.len() implies key_before(#[trigger] x[m], #[trigger] x[n]) by {
            assert(key_before(a[m + 1], a[n + 1]));
        }
        assert forall|m: int, n: int| 0 <= m < n < y.len() implies key_before(#[trigger] y[m], #[trigger] y[n]) by {
            assert(key_before(b[m + 1], b[n + 1]));
        }
        assert(key_set(x) =~= key_set(y)) by {
            assert forall|key: KeyModel| key_set(x).contains(key) <==> key_set(y).contains(key) by {
                lemma_keys_are_ordered(key, key);
                if x.contains(key) {
                    let m = choose|m: int| 0 <= m < x.len() && x[m] == key;
                    assert(a[m + 1] == key);
                    assert(key_before(a[0], a[m + 1]));
                    assert(a.contains(key));
                    let n = choose|n: int| 0 <= n < b.len() && b[n] == key;
                    assert(y[n - 1] == key);
                }
                if y.contains(key) {
                    let m = choose|m: int| 0 <= m < y.len() && y[m] == key;
                    assert(b[m + 1] == key);
                    assert(key_before(b[0], b[m + 1]));
                    assert(b.contains(key));
                    assert(a.contains(key));
                    let n = choose|n: int| 0 <= n < a.len() && a[n] == key;
                    assert(x[n - 1] == key);
                }
            }
        }
        lemma_ordered_is_unique(x, y);
        assert(a =~= seq![a[0]] + x);
        assert(b =~= seq![b[0]] + y);
    }
}

/// Sets with the same elements are rendered the same, however they were built.
pub proof fn law_rendering_forgets_order(a: ReplacementSet, b: ReplacementSet)
    requires
        a@ == b@,
        ordered(a.listed()),
        ordered(b.listed()),
    ensures
        set_text(a.listed()) == set_text(b.listed()),
{
    lemma_ordered_is_unique(a.listed(), b.listed());
}

/// A key is admitted exactly where the value is a collection scalar, and different scalars are different keys.
pub proof fn law_keys_are_scalars(a: ValueModel, b: ValueModel)
    ensures
        key_of(a) is Some <==> scalar(a),
        key_of(a) is Some && key_of(a) == key_of(b) ==> a == b,
{
}

// ---------------------------------------------------------------------------
// Dictionaries
// ---------------------------------------------------------------------------

/// A dictionary keyed by collection scalars.
pub struct ReplacementDict {
    index: KeyIndex,
    entries: Vec<(HashedKey, ReplacementValue)>,
}

/// The keys of a run of entries.
pub open spec fn entry_keys(entries: Seq<(HashedKey, ReplacementValue)>) -> Seq<KeyModel> {
    Seq::new(entries.len(), |i: int| entries[i].0.model())
}

/// What a run of entries is.
pub open spec fn entry_models(entries: Seq<(HashedKey, ReplacementValue)>) -> Seq<(KeyModel, ValueModel)> {
    Seq::new(entries.len(), |i: int| (entries[i].0.model(), entries[i].1.model()))
}

/// The dictionary that the pairs from one on give over the entries so far; the kind of the first key that cannot be
/// one. A later entry replaces an earlier one of its key.
pub open spec fn pairs_entries(
    pairs: Seq<(ValueModel, ValueModel)>,
    from: int,
    found: Map<KeyModel, ValueModel>,
) -> Result<Map<KeyModel, ValueModel>, Seq<char>>
    decreases pairs.len() - from,
{
    if from < 0 || from >= pairs.len() {
        Ok(found)
    } else {
        match key_of(pairs[from].0) {
            Some(key) => pairs_entries(pairs, from + 1, found.insert(key, pairs[from].1)),
            None => Err(kind_label(pairs[from].0)),
        }
    }
}

/// What a run of pairs is.
pub open spec fn pair_models(pairs: Seq<(ReplacementValue, ReplacementValue)>) -> Seq<(ValueModel, ValueModel)> {
    Seq::new(pairs.len(), |i: int| (pairs[i].0.model(), pairs[i].1.model()))
}

/// How a dictionary is rendered whose entries are listed in order.
pub open spec fn dict_text(entries: Seq<(KeyModel, ValueModel)>) -> Seq<char> {
    "{"@ + joined(
        Seq::new(entries.len(), |i: int| key_text(entries[i].0) + ": "@ + observable(entries[i].1)),
        ", "@,
    ) + "}"@
}

/// The keys of listed entries.
pub open spec fn listed_keys(entries: Seq<(KeyModel, ValueModel)>) -> Seq<KeyModel> {
    Seq::new(entries.len(), |i: int| entries[i].0)
}

/// A place of a key among listed entries.
pub open spec fn entry_place(entries: Seq<(KeyModel, ValueModel)>, key: KeyModel) -> int {
    choose|i: int| 0 <= i < entries.len() && listed_keys(entries)[i] == key
}

/// The map that entries listed in order give.
pub open spec fn listed_map(entries: Seq<(KeyModel, ValueModel)>) -> Map<KeyModel, ValueModel> {
    Map::new(
        |key: KeyModel| listed_keys(entries).contains(key),
        |key: KeyModel| entries[entry_place(entries, key)].1,
    )
}

proof fn lemma_listed_value(entries: Seq<(KeyModel, ValueModel)>, at: int)
    requires
        ordered(listed_keys(entries)),
        0 <= at < entries.len(),
    ensures
        listed_map(entries).contains_key(entries[at].0),
        listed_map(entries)[entries[at].0] == entries[at].1,
{
    let key = entries[at].0;
    let keys = listed_keys(entries);
    assert(keys[at] == key);
    let i = entry_place(entries, key);
    assert(0 <= i < entries.len() && keys[i] == key);
    if i != at {
        lemma_keys_are_ordered(key, key);
        if i < at {
            assert(key_before(keys[i], keys[at]));
        } else {
            assert(key_before(keys[at], keys[i]));
        }
    }
}

impl ReplacementDict {
    #[verifier::type_invariant]
    spec fn well_formed(self) -> bool {
        &&& ordered(entry_keys(self.entries@))
        &&& forall|key: KeyModel|
            #[trigger] self.index.has(key) <==> entry_keys(self.entries@).contains(key)
    }

    /// The entries, listed in the order of their keys.
    pub closed spec fn listed(self) -> Seq<(KeyModel, ValueModel)> {
        entry_models(self.entries@)
    }

    /// The entries.
    pub open spec fn view(self) -> Map<KeyModel, ValueModel> {
        listed_map(self.listed())
    }

    /// The dictionary without entries.
    #[must_use]
    pub fn empty() -> (dict: Self)
        ensures
            dict@ == Map::<KeyModel, ValueModel>::empty(),
    {
        let dict = ReplacementDict { index: KeyIndex::new(), entries: Vec::new() };
        proof {
            assert(dict@ =~= Map::<KeyModel, ValueModel>::empty());
        }
        dict
    }

    /// Builds a dictionary from evaluated pairs. The first key that cannot be one is refused; values are not
    /// restricted.
    pub fn from_entries(pairs: Vec<(ReplacementValue, ReplacementValue)>) -> (outcome: Result<Self, NonScalarKey>)
        ensures
            match outcome {
                Ok(dict) => pairs_entries(pair_models(pairs@), 0, Map::empty()) == Ok::<
                    Map<KeyModel, ValueModel>,
                    Seq<char>,
                >(dict@),
                Err(refusal) => pairs_entries(pair_models(pairs@), 0, Map::empty()) == Err::<
                    Map<KeyModel, ValueModel>,
                    Seq<char>,
                >(refusal.kind@),
            },
    {
        let ghost given = pair_models(pairs@);
        let mut dict: ReplacementDict = ReplacementDict::empty();
        for pair in it: pairs
            invariant
                it.seq() == pairs@,
                given == pair_models(pairs@),
                pairs_entries(given, 0, Map::empty()) == pairs_entries(given, it.index(), dict@),
        {
            proof {
                assert(given[it.index()] == (pair.0.model(), pair.1.model()));
            }
            let (key, value) = pair;
            let key: HashedKey = HashedKey::try_from_value(key)?;
            dict = dict.with(key, value);
        }
        Ok(dict)
    }

    /// The dictionary with an entry, in place of an earlier one of its key.
    fn with(self, key: HashedKey, value: ReplacementValue) -> (dict: Self)
        ensures
            dict@ == self@.insert(key.model(), value.model()),
    {
        let ghost given = self@;
        let ghost list = self.listed();
        proof {
            use_type_invariant(&self);
            assert(listed_keys(list) =~= entry_keys(self.entries@));
        }
        let ReplacementDict { index, entries } = self;
        let mut index = index;
        let mut entries = entries;
        let ghost model = key.model();
        let ghost bound = value.model();
        let ghost keys = entry_keys(entries@);
        let mut at: usize = 0;
        while at < entries.len() && entries[at].0.before(&key)
            invariant
                at <= entries@.len(),
                keys == entry_keys(entries@),
                list == entry_models(entries@),
                model == key.model(),
                forall|i: int| 0 <= i < at ==> key_before(#[trigger] keys[i], model),
            ensures
                at <= entries@.len(),
                forall|i: int| 0 <= i < at ==> key_before(#[trigger] keys[i], model),
                at < entries@.len() ==> !key_before(keys[at as int], model),
            decreases entries@.len() - at,
        {
            at += 1;
        }
        if at < entries.len() && entries[at].0.same(&key) {
            entries.set(at, (key, value));
            proof {
                assert(keys[at as int] == model);
                assert(entry_keys(entries@) =~= keys);
                let after = entry_models(entries@);
                assert(listed_keys(after) =~= keys);
                lemma_replaced(list, after, at as int, model, bound);
            }
            return ReplacementDict { index, entries };
        }
        index.insert(&key);
        entries.insert(at, (key, value));
        proof {
            let after = entry_models(entries@);
            let after_keys = entry_keys(entries@);
            assert(after_keys =~= keys.insert(at as int, model));
            assert(listed_keys(after) =~= after_keys);
            assert(after =~= list.insert(at as int, (model, bound)));
            if at < keys.len() {
                assert(keys[at as int] != model);
                lemma_keys_are_ordered(keys[at as int], model);
                assert forall|i: int| at <= i < keys.len() implies key_before(model, #[trigger] keys[i]) by {
                    if i > at {
                        lemma_keys_chain(model, keys[at as int], keys[i]);
                    }
                }
            }
            lemma_placed(keys, at as int, model);
            assert forall|other: KeyModel| #[trigger] index.has(other) <==> after_keys.contains(other) by {
                assert(keys.insert(at as int, model).contains(other) <==> keys.contains(other) || other == model);
            }
            lemma_added(list, after, at as int, model, bound);
        }
        ReplacementDict { index, entries }
    }

    /// Decides whether the dictionary has an entry of a key. A needle that cannot be a key is refused, even by the
    /// empty dictionary.
    pub fn contains_key(&self, needle: ReplacementValue) -> (outcome: Result<bool, NonScalarKey>)
        ensures
            match outcome {
                Ok(found) => key_of(needle.model()) matches Some(key) && found == self@.contains_key(key),
                Err(refusal) => key_of(needle.model()) is None && refusal.kind@ == kind_label(needle.model()),
            },
    {
        proof {
            use_type_invariant(self);
            assert(listed_keys(self.listed()) =~= entry_keys(self.entries@));
        }
        let key: HashedKey = HashedKey::try_from_value(needle)?;
        Ok(self.index.contains(&key))
    }

    /// Renders the dictionary with its entries in the order of their keys.
    #[must_use]
    pub fn observable_text(&self) -> (text: String)
        ensures
            text@ == dict_text(self.listed()),
            ordered(listed_keys(self.listed())),
    {
        proof {
            use_type_invariant(self);
            assert(listed_keys(self.listed()) =~= entry_keys(self.entries@));
        }
        let mut parts: Vec<String> = Vec::new();
        let mut i: usize = 0;
        while i < self.entries.len()
            invariant
                i <= self.entries@.len(),
                parts@.len() == i,
                forall|j: int|
                    0 <= j < i ==> (#[trigger] parts@[j])@ == key_text(self.entries@[j].0.model()) + ": "@ + observable(
                        self.entries@[j].1.model(),
                    ),
            decreases self.entries@.len() - i,
        {
            let entry: &(HashedKey, ReplacementValue) = &self.entries[i];
            parts.push(entry.0.observable_text().concat(": ").concat(entry.1.observable_text().as_str()));
            i += 1;
        }
        proof {
            assert(texts(parts@) =~= Seq::new(
                self.listed().len(),
                |i: int| key_text(self.listed()[i].0) + ": "@ + observable(self.listed()[i].1),
            ));
        }
        "{".to_owned().concat(join(&parts, ", ").as_str()).concat("}")
    }
}

proof fn lemma_replaced(
    before: Seq<(KeyModel, ValueModel)>,
    after: Seq<(KeyModel, ValueModel)>,
    at: int,
    key: KeyModel,
    value: ValueModel,
)
    requires
        0 <= at < before.len(),
        after.len() == before.len(),
        ordered(listed_keys(before)),
        listed_keys(after) == listed_keys(before),
        before[at].0 == key,
        after[at] == (key, value),
        forall|i: int| 0 <= i < before.len() && i != at ==> after[i] == before[i],
    ensures
        listed_map(after) == listed_map(before).insert(key, value),
{
    let keys = listed_keys(before);
    assert(keys[at] == key);
    assert forall|other: KeyModel| listed_map(after).contains_key(other) implies listed_map(after)[other]
        == listed_map(before).insert(key, value)[other] by {
        let i = choose|i: int| 0 <= i < keys.len() && keys[i] == other;
        lemma_listed_value(after, i);
        lemma_listed_value(before, i);
        assert(listed_keys(after)[i] == after[i].0);
        if other == key {
            lemma_listed_value(after, at);
        }
    }
    assert(listed_map(after).dom() =~= listed_map(before).insert(key, value).dom());
    assert(listed_map(after) =~= listed_map(before).insert(key, value));
}

proof fn lemma_added(
    before: Seq<(KeyModel, ValueModel)>,
    after: Seq<(KeyModel, ValueModel)>,
    at: int,
    key: KeyModel,
    value: ValueModel,
)
    requires
        0 <= at <= before.len(),
        ordered(listed_keys(before)),
        ordered(listed_keys(after)),
        after == before.insert(at, (key, value)),
        forall|other: KeyModel|
            #[trigger] listed_keys(after).contains(other) <==> listed_keys(before).contains(other) || other == key,
    ensures
        listed_map(after) == listed_map(before).insert(key, value),
{
    let keys = listed_keys(before);
    assert forall|other: KeyModel| listed_map(after).contains_key(other) implies listed_map(after)[other]
        == listed_map(before).insert(key, value)[other] by {
        if other == key {
            lemma_listed_value(after, at);
        } else {
            assert(keys.contains(other));
            let i = choose|i: int| 0 <= i < keys.len() && keys[i] == other;
            lemma_listed_value(before, i);
            let j = if i < at {
                i
            } else {
                i + 1
            };
            assert(after[j] == before[i]);
            lemma_listed_value(after, j);
        }
    }
    assert(listed_map(after).dom() =~= listed_map(before).insert(key, value).dom()) by {
        assert forall|other: KeyModel| listed_map(after).dom().contains(other) <==> listed_map(before).insert(
            key,
            value,
        ).dom().contains(other) by {
            assert(listed_keys(after).contains(other) <==> keys.contains(other) || other == key);
        }
    }
    assert(listed_map(after) =~= listed_map(before).insert(key, value));
}

/// Appending a pair enters it, in place of an earlier entry of its key.
pub proof fn law_later_entries_win(
    pairs: Seq<(ValueModel, ValueModel)>,
    from: int,
    found: Map<KeyModel, ValueModel>,
    key: ValueModel,
    value: ValueModel,
)
    requires
        0 <= from <= pairs.len(),
        pairs_entries(pairs, from, found) is Ok,
        key_of(key) is Some,
    ensures
        pairs_entries(pairs.push((key, value)), from, found) == Ok::<Map<KeyModel, ValueModel>, Seq<char>>(
            pairs_entries(pairs, from, found)->Ok_0.insert(key_of(key)->Some_0, value),
        ),
    decreases pairs.len() - from,
{
    let longer = pairs.push((key, value));
    if from < pairs.len() {
        assert(longer[from] == pairs[from]);
        law_later_entries_win(pairs, from + 1, found.insert(key_of(pairs[from].0)->Some_0, pairs[from].1), key, value);
    } else {
        assert(longer[from] == (key, value));
        assert(pairs_entries(longer, from + 1, found.insert(key_of(key)->Some_0, value)) == Ok::<
            Map<KeyModel, ValueModel>,
            Seq<char>,
        >(found.insert(key_of(key)->Some_0, value)));
    }
}

/// Whether a key is that of an element behind a place.
pub open spec fn is_element(elements: Seq<ValueModel>, from: int, key: KeyModel) -> bool {
    exists|i: int| from <= i < elements.len() && #[trigger] key_of(elements[i]) == Some(key)
}

/// A set has exactly the elements that it was built from.
pub proof fn law_sets_have_their_elements(
    elements: Seq<ValueModel>,
    from: int,
    found: Set<KeyModel>,
    keys: Set<KeyModel>,
    key: KeyModel,
)
    requires
        0 <= from <= elements.len(),
        elements_keys(elements, from, found) == Ok::<Set<KeyModel>, Seq<char>>(keys),
    ensures
        keys.contains(key) <==> found.contains(key) || is_element(elements, from, key),
    decreases elements.len() - from,
{
    if from < elements.len() {
        let first = key_of(elements[from])->Some_0;
        law_sets_have_their_elements(elements, from + 1, found.insert(first), keys, key);
        if is_element(elements, from + 1, key) {
            let i = choose|i: int| from + 1 <= i < elements.len() && #[trigger] key_of(elements[i]) == Some(key);
            assert(from <= i < elements.len() && key_of(elements[i]) == Some(key));
        }
        if is_element(elements, from, key) {
            let i = choose|i: int| from <= i < elements.len() && #[trigger] key_of(elements[i]) == Some(key);
            if i > from {
                assert(from + 1 <= i < elements.len() && key_of(elements[i]) == Some(key));
            }
        }
    }
}

/// A dictionary has exactly the keys of the pairs that it was built from.
pub proof fn law_dictionaries_have_their_keys(
    pairs: Seq<(ValueModel, ValueModel)>,
    from: int,
    found: Map<KeyModel, ValueModel>,
    entries: Map<KeyModel, ValueModel>,
    key: KeyModel,
)
    requires
        0 <= from <= pairs.len(),
        pairs_entries(pairs, from, found) == Ok::<Map<KeyModel, ValueModel>, Seq<char>>(entries),
    ensures
        entries.contains_key(key) <==> found.contains_key(key) || exists|i: int|
            from <= i < pairs.len() && #[trigger] key_of(pairs[i].0) == Some(key),
    decreases pairs.len() - from,
{
    if from < pairs.len() {
        let first = key_of(pairs[from].0)->Some_0;
        law_dictionaries_have_their_keys(pairs, from + 1, found.insert(first, pairs[from].1), entries, key);
        if exists|i: int| from + 1 <= i < pairs.len() && #[trigger] key_of(pairs[i].0) == Some(key) {
            let i = choose|i: int| from + 1 <= i < pairs.len() && #[trigger] key_of(pairs[i].0) == Some(key);
            assert(from <= i < pairs.len() && key_of(pairs[i].0) == Some(key));
        }
        if exists|i: int| from <= i < pairs.len() && #[trigger] key_of(pairs[i].0) == Some(key) {
            let i = choose|i: int| from <= i < pairs.len() && #[trigger] key_of(pairs[i].0) == Some(key);
            if i > from {
                assert(from + 1 <= i < pairs.len() && key_of(pairs[i].0) == Some(key));
            }
        }
    }
}

// ---------------------------------------------------------------------------
// Equality
// ---------------------------------------------------------------------------

/// Whether two dictionaries are equal: whether they have the same keys, with equal values.
pub open spec fn equal_dicts(a: Map<KeyModel, ValueModel>, b: Map<KeyModel, ValueModel>) -> bool {
    &&& a.dom() == b.dom()
    &&& forall|key: KeyModel| #[trigger] a.contains_key(key) ==> equal_values(a[key], b[key])
}

/// Dictionaries whose values hold no callable are equal exactly where they are the same.
pub proof fn law_equal_dictionaries_are_the_same(a: Map<KeyModel, ValueModel>, b: Map<KeyModel, ValueModel>)
    requires
        forall|key: KeyModel| a.contains_key(key) ==> is_data(#[trigger] a[key]),
    ensures
        equal_dicts(a, b) <==> a == b,
{
    assert forall|key: KeyModel| a.contains_key(key) implies (equal_values(#[trigger] a[key], b[key]) <==> a[key]
        == b[key]) by {
        law_equal_data_is_the_same(a[key], b[key]);
    }
    if equal_dicts(a, b) {
        assert forall|key: KeyModel| a.contains_key(key) implies #[trigger] a[key] == b[key] by {
            assert(equal_values(a[key], b[key]));
        }
        assert(a =~= b);
    }
    if a == b {
        assert forall|key: KeyModel| #[trigger] a.contains_key(key) implies equal_values(a[key], b[key]) by {
            assert(is_data(a[key]));
        }
    }
}

/// Entries that are listed in order and give maps with the same keys list the keys alike.
proof fn lemma_listed_keys_are_unique(a: Seq<(KeyModel, ValueModel)>, b: Seq<(KeyModel, ValueModel)>)
    requires
        ordered(listed_keys(a)),
        ordered(listed_keys(b)),
        listed_map(a).dom() == listed_map(b).dom(),
    ensures
        listed_keys(a) == listed_keys(b),
{
    assert(key_set(listed_keys(a)) =~= key_set(listed_keys(b))) by {
        assert forall|key: KeyModel| listed_keys(a).contains(key) == listed_keys(b).contains(key) by {
            assert(listed_map(a).dom().contains(key) == listed_keys(a).contains(key));
            assert(listed_map(b).dom().contains(key) == listed_keys(b).contains(key));
        }
    }
    lemma_ordered_is_unique(listed_keys(a), listed_keys(b));
}

impl ReplacementDict {
    /// Decides whether two dictionaries are equal, however they were built.
    pub fn equals(&self, other: &ReplacementDict) -> (same: bool)
        ensures
            same == equal_dicts(self@, other@),
    {
        proof {
            use_type_invariant(self);
            use_type_invariant(other);
        }
        let ghost a = self.listed();
        let ghost b = other.listed();
        proof {
            assert(listed_keys(a) =~= entry_keys(self.entries@));
            assert(listed_keys(b) =~= entry_keys(other.entries@));
            if self@.dom() == other@.dom() {
                lemma_listed_keys_are_unique(a, b);
            }
        }
        if self.entries.len() != other.entries.len() {
            proof {
                assert(listed_keys(a).len() != listed_keys(b).len());
            }
            return false;
        }
        let mut i: usize = 0;
        while i < self.entries.len()
            invariant
                i <= self.entries@.len() == other.entries@.len(),
                a == entry_models(self.entries@),
                b == entry_models(other.entries@),
                a == self.listed(),
                b == other.listed(),
                ordered(listed_keys(a)),
                ordered(listed_keys(b)),
                self@.dom() == other@.dom() ==> listed_keys(a) == listed_keys(b),
                forall|j: int| 0 <= j < i ==> (#[trigger] a[j]).0 == b[j].0 && equal_values(a[j].1, b[j].1),
            decreases self.entries@.len() - i,
        {
            if !self.entries[i].0.same(&other.entries[i].0) {
                proof {
                    assert(listed_keys(a)[i as int] != listed_keys(b)[i as int]);
                }
                return false;
            }
            if !is_equal_value(&self.entries[i].1, &other.entries[i].1) {
                proof {
                    lemma_listed_value(a, i as int);
                    lemma_listed_value(b, i as int);
                    assert(self@.contains_key(a[i as int].0));
                }
                return false;
            }
            i += 1;
        }
        proof {
            assert(listed_keys(a) =~= listed_keys(b));
            assert(self@.dom() =~= other@.dom());
            assert forall|key: KeyModel| #[trigger] self@.contains_key(key) implies equal_values(
                self@[key],
                other@[key],
            ) by {
                let at = entry_place(a, key);
                assert(listed_keys(a).contains(key));
                lemma_listed_value(a, at);
                lemma_listed_value(b, at);
                assert(a[at].0 == key && b[at].0 == key);
            }
        }
        true
    }
}

} // verus!
