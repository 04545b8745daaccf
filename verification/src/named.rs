//! Values held under names, as the arguments of a node are.

use vstd::prelude::*;
use vstd::string::*;

verus! {

/// The value that `entries` holds under `name`: that of the last entry with
/// that name.
pub open spec fn lookup<V>(entries: Seq<(String, V)>, name: Seq<char>) -> Option<V>
    decreases entries.len(),
{
    if entries.len() == 0 {
        None
    } else if entries.last().0@ == name {
        Some(entries.last().1)
    } else {
        lookup(entries.drop_last(), name)
    }
}

/// An entry that is added last decides its name and leaves the others.
pub proof fn lemma_lookup_push<V>(entries: Seq<(String, V)>, name: String, value: V, other: Seq<char>)
    ensures
        lookup(entries.push((name, value)), other) == if other == name@ {
            Some(value)
        } else {
            lookup(entries, other)
        },
{
    assert(entries.push((name, value)).drop_last() =~= entries);
}

/// A map from names to values. A name that is inserted again takes the new
/// value. `==` compares the entries as they were inserted.
#[derive(Debug, PartialEq)]
pub struct NamedMap<V> {
    /// The entries in the order of their insertion; of two entries with one
    /// name the later one counts.
    pub entries: Vec<(String, V)>,
}

impl<V> NamedMap<V> {
    /// The value held under `name`.
    pub open spec fn lookup(self, name: Seq<char>) -> Option<V> {
        lookup(self.entries@, name)
    }

    /// The map as a mathematical map from names to values.
    pub open spec fn names_view(self) -> Map<Seq<char>, V> {
        Map::new(
            |name: Seq<char>| self.lookup(name) is Some,
            |name: Seq<char>| self.lookup(name)->0,
        )
    }

    /// The map without entries.
    pub fn new() -> (r: NamedMap<V>)
        ensures
            r.entries@ == Seq::<(String, V)>::empty(),
            forall|name: Seq<char>| r.lookup(name) is None,
    {
        NamedMap { entries: Vec::new() }
    }

    /// Holds `value` under `name` from now on.
    pub fn insert(&mut self, name: String, value: V)
        ensures
            final(self).entries@ == old(self).entries@.push((name, value)),
            forall|other: Seq<char>|
                #[trigger] final(self).lookup(other) == if other == name@ {
                    Some(value)
                } else {
                    old(self).lookup(other)
                },
    {
        proof {
            assert forall|other: Seq<char>|
                #[trigger] lookup(self.entries@.push((name, value)), other) == if other == name@ {
                    Some(value)
                } else {
                    lookup(self.entries@, other)
                } by {
                lemma_lookup_push(self.entries@, name, value, other);
            }
        }
        self.entries.push((name, value));
    }

    /// The value held under `name`, if there is one.
    pub fn get(&self, name: &str) -> (r: Option<&V>)
        ensures
            match r {
                Some(value) => self.lookup(name@) == Some(*value),
                None => self.lookup(name@) is None,
            },
    {
        let key = String::from_str(name);
        let mut i: usize = self.entries.len();
        assert(self.entries@.take(i as int) =~= self.entries@);
        while i > 0
            invariant
                i <= self.entries.len(),
                key@ == name@,
                lookup(self.entries@, name@) == lookup(self.entries@.take(i as int), name@),
            decreases i,
        {
            i = i - 1;
            proof {
                let seen = self.entries@.take(i + 1);
                assert(seen.drop_last() =~= self.entries@.take(i as int));
                assert(seen.last() == self.entries@[i as int]);
            }
            if self.entries[i].0 == key {
                return Some(&self.entries[i].1);
            }
        }
        None
    }

    /// Whether a value is held under `name`.
    pub fn contains_key(&self, name: &str) -> (r: bool)
        ensures
            r == self.lookup(name@) is Some,
    {
        self.get(name).is_some()
    }
}

} // verus!
