//! A map from names to values.

use crate::text::same_text;
use vstd::prelude::*;

verus! {

/// The map that `entries` describe: where a name comes twice, the last entry
/// counts.
pub open spec fn entry_map<V>(entries: Seq<(String, V)>) -> Map<Seq<char>, V>
    decreases entries.len(),
{
    if entries.len() == 0 {
        Map::empty()
    } else {
        entry_map(entries.drop_last()).insert(entries.last().0@, entries.last().1)
    }
}

/// No name comes twice.
pub open spec fn names_distinct<V>(entries: Seq<(String, V)>) -> bool {
    forall|i: int, j: int|
        0 <= i < j < entries.len() ==> (#[trigger] entries[i]).0@ != (#[trigger] entries[j]).0@
}

/// Where no name comes twice, the map holds the entries and nothing else.
pub proof fn lemma_entry_map<V>(entries: Seq<(String, V)>)
    requires
        names_distinct(entries),
    ensures
        forall|i: int|
            0 <= i < entries.len() ==> entry_map(entries).contains_key(
                (#[trigger] entries[i]).0@,
            ) && entry_map(entries)[entries[i].0@] == entries[i].1,
        forall|name: Seq<char>| #[trigger]
            entry_map(entries).contains_key(name) ==> exists|i: int|
                0 <= i < entries.len() && (#[trigger] entries[i]).0@ == name,
    decreases entries.len(),
{
    if entries.len() > 0 {
        let front = entries.drop_last();
        assert forall|i: int, j: int| 0 <= i < j < front.len() implies (#[trigger] front[i]).0@ != (
        #[trigger] front[j]).0@ by {
            assert(front[i] == entries[i] && front[j] == entries[j]);
        }
        lemma_entry_map(front);
        assert forall|i: int| 0 <= i < entries.len() implies entry_map(entries).contains_key(
            (#[trigger] entries[i]).0@,
        ) && entry_map(entries)[entries[i].0@] == entries[i].1 by {
            if i < front.len() {
                assert(front[i] == entries[i]);
                assert(entries[i].0@ != entries[entries.len() - 1].0@);
            }
        }
        assert forall|name: Seq<char>| #[trigger]
            entry_map(entries).contains_key(name) implies exists|i: int|
            0 <= i < entries.len() && (#[trigger] entries[i]).0@ == name by {
            if name == entries.last().0@ {
                assert(entries[entries.len() - 1].0@ == name);
            } else {
                assert(entry_map(front).contains_key(name));
                let i = choose|i: int| 0 <= i < front.len() && (#[trigger] front[i]).0@ == name;
                assert(entries[i].0@ == name);
            }
        }
    }
}

/// A map from names to values, without an order.
#[derive(Debug)]
pub struct NameMap<V> {
    entries: Vec<(String, V)>,
}

impl<V> View for NameMap<V> {
    type V = Map<Seq<char>, V>;

    closed spec fn view(&self) -> Map<Seq<char>, V> {
        entry_map(self.entries@)
    }
}

impl<V> NameMap<V> {
    #[verifier::type_invariant]
    spec fn distinct(self) -> bool {
        names_distinct(self.entries@)
    }

    /// A map without entries.
    pub fn new() -> (map: NameMap<V>)
        ensures
            map@ == Map::<Seq<char>, V>::empty(),
    {
        NameMap { entries: Vec::new() }
    }

    /// The position of the entry with this name.
    fn position(&self, name: &str) -> (position: Option<usize>)
        ensures
            match position {
                Some(i) => i < self.entries@.len() && self.entries@[i as int].0@ == name@
                    && self@.contains_key(name@) && self@[name@] == self.entries@[i as int].1,
                None => !self@.contains_key(name@) && forall|i: int|
                    0 <= i < self.entries@.len() ==> (#[trigger] self.entries@[i]).0@ != name@,
            },
    {
        proof {
            use_type_invariant(self);
            lemma_entry_map(self.entries@);
        }
        let mut i: usize = 0;
        while i < self.entries.len()
            invariant
                i <= self.entries@.len(),
                names_distinct(self.entries@),
                forall|k: int| 0 <= k < i ==> (#[trigger] self.entries@[k]).0@ != name@,
            decreases self.entries@.len() - i,
        {
            if same_text(self.entries[i].0.as_str(), name) {
                proof {
                    lemma_entry_map(self.entries@);
                }
                return Some(i);
            }
            i += 1;
        }
        None
    }

    /// The value under `name`.
    pub fn get(&self, name: &str) -> (value: Option<&V>)
        ensures
            match value {
                Some(value) => self@.contains_key(name@) && self@[name@] == *value,
                None => !self@.contains_key(name@),
            },
    {
        match self.position(name) {
            Some(i) => Some(&self.entries[i].1),
            None => None,
        }
    }

    /// Whether there is a value under `name`.
    pub fn contains_key(&self, name: &str) -> (found: bool)
        ensures
            found == self@.contains_key(name@),
    {
        self.position(name).is_some()
    }

    /// This map with `value` under `name`, in place of what was there.
    pub fn with(self, name: String, value: V) -> (map: NameMap<V>)
        ensures
            map@ == self@.insert(name@, value),
    {
        let position: Option<usize> = self.position(name.as_str());
        let ghost before = self.entries@;
        proof {
            use_type_invariant(&self);
            lemma_entry_map(before);
        }
        let mut entries: Vec<(String, V)> = self.entries;
        match position {
            Some(i) => {
                entries.set(i, (name, value));
                let ghost after = entries@;
                proof {
                    assert forall|k: int, j: int| 0 <= k < j < after.len() implies (
                    #[trigger] after[k]).0@ != (#[trigger] after[j]).0@ by {
                        assert(before[k].0@ == after[k].0@ && before[j].0@ == after[j].0@);
                    }
                    lemma_entry_map(after);
                    assert forall|key: Seq<char>|
                        entry_map(after).contains_key(key) == entry_map(before).insert(
                            name@,
                            value,
                        ).contains_key(key) by {
                        if entry_map(after).contains_key(key) {
                            let k = choose|k: int|
                                0 <= k < after.len() && (#[trigger] after[k]).0@ == key;
                            assert(before[k].0@ == key);
                        }
                        if entry_map(before).contains_key(key) {
                            let k = choose|k: int|
                                0 <= k < before.len() && (#[trigger] before[k]).0@ == key;
                            assert(after[k].0@ == key);
                        }
                        assert(after[i as int].0@ == name@);
                    }
                    assert forall|key: Seq<char>| #[trigger]
                        entry_map(after).contains_key(key) implies entry_map(after)[key]
                        == entry_map(before).insert(name@, value)[key] by {
                        let k = choose|k: int|
                            0 <= k < after.len() && (#[trigger] after[k]).0@ == key;
                        assert(before[k].0@ == key);
                    }
                    assert(entry_map(after) =~= entry_map(before).insert(name@, value));
                }
            },
            None => {
                entries.push((name, value));
                assert(entries@.drop_last() =~= before);
            },
        }
        NameMap { entries }
    }

    /// The entries, each name once.
    pub fn entries(&self) -> (entries: &Vec<(String, V)>)
        ensures
            entry_map(entries@) == self@,
            names_distinct(entries@),
    {
        proof {
            use_type_invariant(self);
        }
        &self.entries
    }

    /// Takes the map apart into its entries, each name once.
    pub fn into_entries(self) -> (entries: Vec<(String, V)>)
        ensures
            entry_map(entries@) == self@,
            names_distinct(entries@),
    {
        proof {
            use_type_invariant(&self);
        }
        self.entries
    }
}

} // verus!
