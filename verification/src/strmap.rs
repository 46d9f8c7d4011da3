//! A map from texts to values, kept as a list of entries.

use vstd::prelude::*;
use vstd::string::*;

use crate::text;

verus! {

/// The value of the first entry with the given key.
pub open spec fn lookup<V>(entries: Seq<(String, V)>, key: Seq<char>) -> Option<V>
    decreases entries.len(),
{
    if entries.len() == 0 {
        None
    } else if entries[0].0@ == key {
        Some(entries[0].1)
    } else {
        lookup(entries.drop_first(), key)
    }
}

/// A map from texts to values.
pub struct StrMap<V> {
    entries: Vec<(String, V)>,
}

impl<V> View for StrMap<V> {
    type V = Map<Seq<char>, V>;

    closed spec fn view(&self) -> Map<Seq<char>, V> {
        Map::new(
            |k: Seq<char>| lookup(self.entries@, k) is Some,
            |k: Seq<char>| lookup(self.entries@, k)->0,
        )
    }
}

impl<V> StrMap<V> {
    /// No key stands in the list twice.
    #[verifier::type_invariant]
    spec fn keys_once(self) -> bool {
        keys_differ(self.entries@)
    }
}

/// Whether no two entries have the same key.
pub open spec fn keys_differ<V>(entries: Seq<(String, V)>) -> bool {
    forall|i: int, j: int|
        0 <= i < j < entries.len() ==> (#[trigger] entries[i]).0@ != (#[trigger] entries[j]).0@
}

proof fn lemma_lookup_absent<V>(entries: Seq<(String, V)>, key: Seq<char>)
    requires
        forall|i: int| 0 <= i < entries.len() ==> (#[trigger] entries[i]).0@ != key,
    ensures
        lookup(entries, key) is None,
    decreases entries.len(),
{
    if entries.len() > 0 {
        let rest = entries.drop_first();
        assert forall|i: int| 0 <= i < rest.len() implies (#[trigger] rest[i]).0@ != key by {
            assert(rest[i] == entries[i + 1]);
        }
        assert(entries[0].0@ != key);
        lemma_lookup_absent(rest, key);
    }
}

proof fn lemma_lookup_at<V>(entries: Seq<(String, V)>, key: Seq<char>, at: int)
    requires
        0 <= at < entries.len(),
        entries[at].0@ == key,
        forall|i: int| 0 <= i < at ==> (#[trigger] entries[i]).0@ != key,
    ensures
        lookup(entries, key) == Some(entries[at].1),
    decreases entries.len(),
{
    if at > 0 {
        let rest = entries.drop_first();
        assert forall|i: int| 0 <= i < at - 1 implies (#[trigger] rest[i]).0@ != key by {
            assert(rest[i] == entries[i + 1]);
        }
        assert(entries[0].0@ != key);
        lemma_lookup_at(rest, key, at - 1);
    }
}

proof fn lemma_lookup_push<V>(entries: Seq<(String, V)>, entry: (String, V), key: Seq<char>)
    ensures
        lookup(entries.push(entry), key) == (if lookup(entries, key) is Some {
            lookup(entries, key)
        } else if entry.0@ == key {
            Some(entry.1)
        } else {
            None
        }),
    decreases entries.len(),
{
    if entries.len() > 0 {
        assert(entries.push(entry).drop_first() =~= entries.drop_first().push(entry));
        lemma_lookup_push(entries.drop_first(), entry, key);
    } else {
        let none = Seq::<(String, V)>::empty();
        assert(entries.push(entry).drop_first() =~= none);
        assert(lookup(none, key) is None);
    }
}

proof fn lemma_lookup_update<V>(
    entries: Seq<(String, V)>,
    at: int,
    entry: (String, V),
    key: Seq<char>,
)
    requires
        0 <= at < entries.len(),
        entries[at].0@ == entry.0@,
        key != entry.0@,
    ensures
        lookup(entries.update(at, entry), key) == lookup(entries, key),
    decreases entries.len(),
{
    if at == 0 {
        assert(entries.update(at, entry).drop_first() =~= entries.drop_first());
    } else {
        assert(entries.update(at, entry).drop_first() =~= entries.drop_first().update(
            at - 1,
            entry,
        ));
        lemma_lookup_update(entries.drop_first(), at - 1, entry, key);
    }
}

impl<V> StrMap<V> {
    /// A map without entries.
    pub fn new() -> (r: Self)
        ensures
            r@ == Map::<Seq<char>, V>::empty(),
    {
        let r = StrMap { entries: Vec::new() };
        assert(r@ =~= Map::<Seq<char>, V>::empty());
        r
    }

    fn position(&self, key: &str) -> (r: Option<usize>)
        ensures
            match r {
                Some(i) => {
                    &&& i < self.entries.len()
                    &&& self.entries@[i as int].0@ == key@
                    &&& forall|k: int|
                        0 <= k < i ==> (#[trigger] self.entries@[k]).0@ != key@
                    &&& lookup(self.entries@, key@) == Some(self.entries@[i as int].1)
                },
                None => lookup(self.entries@, key@) is None,
            },
    {
        let mut i: usize = 0;
        while i < self.entries.len()
            invariant
                i <= self.entries.len(),
                forall|k: int| 0 <= k < i ==> (#[trigger] self.entries@[k]).0@ != key@,
            decreases self.entries.len() - i,
        {
            if text::str_eq(self.entries[i].0.as_str(), key) {
                proof {
                    lemma_lookup_at(self.entries@, key@, i as int);
                }
                return Some(i);
            }
            i = i + 1;
        }
        proof {
            lemma_lookup_absent(self.entries@, key@);
        }
        None
    }

    /// Whether the map has an entry with the key.
    pub fn contains(&self, key: &str) -> (r: bool)
        ensures
            r == self@.contains_key(key@),
    {
        self.position(key).is_some()
    }

    /// The value under the key.
    pub fn get(&self, key: &str) -> (r: Option<&V>)
        ensures
            match r {
                Some(v) => self@.contains_key(key@) && *v == self@[key@],
                None => !self@.contains_key(key@),
            },
    {
        match self.position(key) {
            Some(i) => Some(&self.entries[i].1),
            None => None,
        }
    }

    /// Puts a value under the key and gives back the one that was there.
    pub fn insert(&mut self, key: String, value: V) -> (r: Option<V>)
        ensures
            final(self)@ == old(self)@.insert(key@, value),
            match r {
                Some(v) => old(self)@.contains_key(key@) && v == old(self)@[key@],
                None => !old(self)@.contains_key(key@),
            },
    {
        proof {
            use_type_invariant(&*self);
        }
        let found: Option<usize> = self.position(key.as_str());
        let ghost before = self.entries@;
        let ghost view = self@;
        let ghost entry = (key, value);
        let mut entries: Vec<(String, V)> = Vec::new();
        std::mem::swap(&mut entries, &mut self.entries);
        match found {
            Some(i) => {
                let taken: (String, V) = entries.remove(i);
                entries.insert(i, (key, value));
                proof {
                    assert(entries@ =~= before.update(i as int, entry));
                    assert(keys_differ(entries@)) by {
                        assert forall|a: int, b: int| 0 <= a < b < entries@.len() implies (
                        #[trigger] entries@[a]).0@ != (#[trigger] entries@[b]).0@ by {
                            assert(before[a].0@ != before[b].0@);
                        }
                    }
                }
                self.entries = entries;
                proof {
                    lemma_lookup_at(self.entries@, key@, i as int);
                    assert forall|k: Seq<char>| k != key@ implies lookup(self.entries@, k)
                        == lookup(before, k) by {
                        lemma_lookup_update(before, i as int, entry, k);
                    }
                    assert(self@ =~= view.insert(key@, value));
                }
                Some(taken.1)
            },
            None => {
                entries.push((key, value));
                proof {
                    assert forall|a: int| 0 <= a < before.len() implies (#[trigger] before[a]).0@
                        != key@ by {
                        if before[a].0@ == key@ {
                            lemma_key_found(before, a);
                        }
                    }
                    assert(keys_differ(entries@)) by {
                        assert forall|a: int, b: int| 0 <= a < b < entries@.len() implies (
                        #[trigger] entries@[a]).0@ != (#[trigger] entries@[b]).0@ by {
                            assert(before[a].0@ != key@);
                            if b < before.len() {
                                assert(before[a].0@ != before[b].0@);
                            }
                        }
                    }
                }
                self.entries = entries;
                proof {
                    assert forall|k: Seq<char>| true implies lookup(self.entries@, k) == (if k
                        == key@ {
                        Some(value)
                    } else {
                        lookup(before, k)
                    }) by {
                        lemma_lookup_push(before, entry, k);
                    }
                    assert(self@ =~= view.insert(key@, value));
                }
                None
            },
        }
    }
}

proof fn lemma_key_found<V>(entries: Seq<(String, V)>, at: int)
    requires
        0 <= at < entries.len(),
    ensures
        lookup(entries, entries[at].0@) is Some,
    decreases entries.len(),
{
    if at > 0 {
        lemma_key_found(entries.drop_first(), at - 1);
    }
}

} // verus!
