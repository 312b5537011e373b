use crate::text::{same_text, texts_of};
use vstd::prelude::*;

verus! {

/// An insertion-ordered map from names to values.
///
/// The entries are kept in the order in which their names were first
/// inserted; no name occurs twice.
#[derive(Debug, Clone, PartialEq, Eq)]
pub struct NameMap<V> {
    entries: Vec<(String, V)>,
}

/// The position of the first entry of `entries` named `name`, or the length of
/// `entries` when there is none.
pub open spec fn first_index_of<V>(entries: Seq<(String, V)>, name: Seq<char>) -> int
    decreases entries.len(),
{
    if entries.len() == 0 {
        0
    } else if entries[0].0@ == name {
        0
    } else {
        1 + first_index_of(entries.skip(1), name)
    }
}

/// Whether some entry of `entries` is named `name`.
pub open spec fn has_name<V>(entries: Seq<(String, V)>, name: Seq<char>) -> bool {
    exists|i: int| 0 <= i < entries.len() && (#[trigger] entries[i]).0@ == name
}

/// The names of `entries`, in order.
pub open spec fn names_of<V>(entries: Seq<(String, V)>) -> Seq<Seq<char>> {
    entries.map_values(|e: (String, V)| e.0@)
}

/// Whether no two entries of `entries` share a name.
pub open spec fn distinct_names<V>(entries: Seq<(String, V)>) -> bool {
    forall|i: int, j: int|
        0 <= i < entries.len() && 0 <= j < entries.len() && i != j ==> (#[trigger] entries[i]).0@
            != (#[trigger] entries[j]).0@
}

/// The first index of a name is within the entries exactly where the name
/// occurs; the entry there has the name, and no entry before it has.
pub proof fn lemma_first_index_of<V>(entries: Seq<(String, V)>, name: Seq<char>)
    ensures
        0 <= first_index_of(entries, name) <= entries.len(),
        has_name(entries, name) <==> first_index_of(entries, name) < entries.len(),
        first_index_of(entries, name) < entries.len() ==> entries[first_index_of(
            entries,
            name,
        )].0@ == name,
        forall|i: int|
            0 <= i < first_index_of(entries, name) ==> (#[trigger] entries[i]).0@ != name,
    decreases entries.len(),
{
    if entries.len() == 0 {
    } else if entries[0].0@ == name {
    } else {
        let rest = entries.skip(1);
        lemma_first_index_of(rest, name);
        let k = first_index_of(rest, name);
        assert forall|i: int| 0 <= i < 1 + k implies (#[trigger] entries[i]).0@ != name by {
            if i > 0 {
                assert(rest[i - 1] == entries[i]);
            }
        }
        if k < rest.len() {
            assert(rest[k] == entries[k + 1]);
        }
        if has_name(entries, name) {
            let i = choose|i: int| 0 <= i < entries.len() && (#[trigger] entries[i]).0@ == name;
            assert(rest[i - 1] == entries[i]);
        }
    }
}

/// The entries after storing `value` under `name`: the first entry of that
/// name is replaced in place, or the pair is appended.
pub open spec fn inserted<V>(entries: Seq<(String, V)>, name: String, value: V) -> Seq<
    (String, V),
> {
    if has_name(entries, name@) {
        entries.update(first_index_of(entries, name@), (name, value))
    } else {
        entries.push((name, value))
    }
}

/// Storing a value keeps names distinct, makes the name present with that
/// value, and leaves every other name as it was.
pub proof fn lemma_inserted<V>(entries: Seq<(String, V)>, name: String, value: V)
    ensures
        distinct_names(entries) ==> distinct_names(inserted(entries, name, value)),
        has_name(inserted(entries, name, value), name@),
        inserted(entries, name, value)[first_index_of(inserted(entries, name, value), name@)].1
            == value,
        forall|other: Seq<char>|
            other != name@ ==> (has_name(inserted(entries, name, value), other) <==> has_name(
                entries,
                other,
            )),
        forall|other: Seq<char>|
            other != name@ && has_name(entries, other) ==> inserted(
                entries,
                name,
                value,
            )[first_index_of(inserted(entries, name, value), other)].1
                == entries[first_index_of(entries, other)].1,
{
    let after = inserted(entries, name, value);
    lemma_first_index_of(entries, name@);
    let at = first_index_of(entries, name@);
    assert(after[at] == (name, value));
    lemma_first_index_of(after, name@);
    assert forall|i: int| 0 <= i < after.len() && i < at implies (#[trigger] after[i]).0@
        != name@ by {
        assert(after[i] == entries[i]);
    }
    assert(first_index_of(after, name@) == at);
    assert forall|other: Seq<char>| other != name@ implies (has_name(after, other) <==> has_name(
        entries,
        other,
    )) by {
        if has_name(after, other) {
            let i = choose|i: int| 0 <= i < after.len() && (#[trigger] after[i]).0@ == other;
            assert(entries[i].0@ == other);
        }
        if has_name(entries, other) {
            let i = choose|i: int| 0 <= i < entries.len() && (#[trigger] entries[i]).0@ == other;
            assert(after[i].0@ == other);
        }
    }
    assert forall|other: Seq<char>| other != name@ && has_name(entries, other) implies after[first_index_of(
        after,
        other,
    )].1 == entries[first_index_of(entries, other)].1 by {
        lemma_first_index_of(entries, other);
        lemma_first_index_of(after, other);
        let a = first_index_of(entries, other);
        let b = first_index_of(after, other);
        assert(after[a].0@ == other);
        assert(entries[b].0@ == other) by {
            assert(after[b].0@ == other);
            if b < entries.len() {
                assert(b != at);
            }
        }
        assert(a == b);
    }
    if distinct_names(entries) {
        assert forall|i: int, j: int|
            0 <= i < after.len() && 0 <= j < after.len() && i != j implies (#[trigger] after[i]).0@
            != (#[trigger] after[j]).0@ by {
            if i < entries.len() && i != at {
                assert(after[i] == entries[i]);
            }
            if j < entries.len() && j != at {
                assert(after[j] == entries[j]);
            }
            if at < entries.len() {
                assert(entries[at].0@ == name@);
            }
        }
    }
}

/// The position of the first entry of `entries` named `name`, if there is one.
pub fn find_name<V>(entries: &Vec<(String, V)>, name: &str) -> (found: Option<usize>)
    ensures
        found.is_some() <==> has_name(entries@, name@),
        found.is_some() ==> found.unwrap() == first_index_of(entries@, name@),
        found.is_some() ==> found.unwrap() < entries@.len(),
{
    let mut i: usize = 0;
    while i < entries.len()
        invariant
            i <= entries@.len(),
            forall|j: int| 0 <= j < i ==> (#[trigger] entries@[j]).0@ != name@,
        decreases entries@.len() - i,
    {
        if same_text(entries[i].0.as_str(), name) {
            proof {
                lemma_first_index_of(entries@, name@);
            }
            return Some(i);
        }
        i = i + 1;
    }
    proof {
        lemma_first_index_of(entries@, name@);
    }
    None
}

impl<V> View for NameMap<V> {
    type V = Seq<(String, V)>;

    closed spec fn view(&self) -> Seq<(String, V)> {
        self.entries@
    }
}

impl<V> NameMap<V> {
    /// Whether no name occurs twice. Every map made by `new` and `insert` is
    /// well formed.
    pub open spec fn wf(self) -> bool {
        distinct_names(self@)
    }

    /// Whether the map holds an entry named `name`.
    pub open spec fn has(self, name: Seq<char>) -> bool {
        has_name(self@, name)
    }

    /// The value stored under `name`; meaningful only where `self.has(name)`.
    pub open spec fn value_of(self, name: Seq<char>) -> V {
        self@[first_index_of(self@, name)].1
    }

    /// An empty map.
    pub fn new() -> (m: Self)
        ensures
            m@.len() == 0,
            m.wf(),
    {
        NameMap { entries: Vec::new() }
    }

    /// The number of entries.
    pub fn len(&self) -> (n: usize)
        ensures
            n == self@.len(),
    {
        self.entries.len()
    }

    /// Whether the map has no entries.
    pub fn is_empty(&self) -> (b: bool)
        ensures
            b == (self@.len() == 0),
    {
        self.entries.len() == 0
    }

    /// The name of the entry at position `i`.
    pub fn name_at(&self, i: usize) -> (name: &String)
        requires
            i < self@.len(),
        ensures
            *name == self@[i as int].0,
    {
        &self.entries[i].0
    }

    /// The value of the entry at position `i`.
    pub fn value_at(&self, i: usize) -> (value: &V)
        requires
            i < self@.len(),
        ensures
            *value == self@[i as int].1,
    {
        &self.entries[i].1
    }

    /// The position of the entry named `name`, if there is one.
    pub fn position(&self, name: &str) -> (found: Option<usize>)
        ensures
            found.is_some() <==> self.has(name@),
            found.is_some() ==> found.unwrap() == first_index_of(self@, name@),
            found.is_some() ==> found.unwrap() < self@.len(),
    {
        find_name(&self.entries, name)
    }

    /// Whether an entry is named `name`.
    pub fn contains_key(&self, name: &str) -> (found: bool)
        ensures
            found == self.has(name@),
    {
        self.position(name).is_some()
    }

    /// The value stored under `name`, if there is one.
    pub fn get(&self, name: &str) -> (found: Option<&V>)
        ensures
            found.is_some() <==> self.has(name@),
            found.is_some() ==> *found.unwrap() == self.value_of(name@),
    {
        match self.position(name) {
            Some(i) => Some(&self.entries[i].1),
            None => None,
        }
    }

    /// Stores `value` under `name`. An entry of that name keeps its place and
    /// gets the new value, and its former value is returned; otherwise the
    /// entry is added at the end.
    pub fn insert(&mut self, name: String, value: V) -> (former: Option<V>)
        ensures
            former.is_some() <==> old(self).has(name@),
            former.is_some() ==> former.unwrap() == old(self).value_of(name@),
            final(self)@ == inserted(old(self)@, name, value),
            old(self).wf() ==> final(self).wf(),
    {
        proof {
            lemma_first_index_of(self.entries@, name@);
            lemma_inserted(self.entries@, name, value);
        }
        match self.position(name.as_str()) {
            Some(i) => {
                let former = self.entries.remove(i);
                self.entries.insert(i, (name, value));
                proof {
                    assert(self.entries@ =~= inserted(old(self)@, name, value));
                }
                Some(former.1)
            },
            None => {
                self.entries.push((name, value));
                None
            },
        }
    }

    /// The names, in order.
    pub fn names(&self) -> (list: Vec<String>)
        ensures
            texts_of(list@) == names_of(self@),
    {
        let mut list: Vec<String> = Vec::new();
        let mut i: usize = 0;
        while i < self.entries.len()
            invariant
                i <= self.entries@.len(),
                list@.len() == i,
                forall|j: int| 0 <= j < i ==> (#[trigger] list@[j])@ == self.entries@[j].0@,
            decreases self.entries@.len() - i,
        {
            list.push(self.entries[i].0.clone());
            i = i + 1;
        }
        proof {
            assert(texts_of(list@) =~= names_of(self@));
        }
        list
    }

    /// The value of the entry at position `i`, for changing it in place.
    pub fn value_at_mut(&mut self, i: usize) -> (value: &mut V)
        requires
            i < old(self)@.len(),
        ensures
            *value == old(self)@[i as int].1,
            final(self)@ == old(self)@.update(i as int, (old(self)@[i as int].0, *final(value))),
    {
        &mut self.entries[i].1
    }
}

} // verus!
