//! A map from texts to values.

use vstd::prelude::*;

use crate::text::{clone_texts, same, texts};

verus! {

/// A map from texts to values. It lists its keys in the order in which they came first.
#[verifier::reject_recursive_types(V)]
pub struct TextMap<V> {
    entries: Vec<(String, V)>,
}

/// The map that a list of entries spells: a later one replaces an earlier one of the same key.
pub open spec fn entry_map<V>(entries: Seq<(String, V)>) -> Map<Seq<char>, V>
    decreases entries.len(),
{
    if entries.len() == 0 {
        Map::empty()
    } else {
        entry_map(entries.drop_last()).insert(entries.last().0@, entries.last().1)
    }
}

/// Whether no key occurs twice.
pub open spec fn distinct_keys<V>(entries: Seq<(String, V)>) -> bool {
    forall|i: int, j: int|
        0 <= i < j < entries.len() ==> (#[trigger] entries[i]).0@ != (#[trigger] entries[j]).0@
}

/// The keys of the map are those of its entries, and a key listed once has its entry's value.
proof fn entry_map_lookup<V>(entries: Seq<(String, V)>, key: Seq<char>)
    ensures
        entry_map(entries).contains_key(key) <==> exists|i: int|
            0 <= i < entries.len() && (#[trigger] entries[i]).0@ == key,
        distinct_keys(entries) ==> forall|i: int|
            0 <= i < entries.len() && (#[trigger] entries[i]).0@ == key ==> entry_map(entries)[key]
                == entries[i].1,
    decreases entries.len(),
{
    if entries.len() > 0 {
        let init = entries.drop_last();
        entry_map_lookup(init, key);
        let n = entries.len() - 1;
        if distinct_keys(entries) {
            assert(distinct_keys(init)) by {
                assert forall|i: int, j: int| 0 <= i < j < init.len() implies (#[trigger]
                init[i]).0@ != (#[trigger] init[j]).0@ by {
                    assert(init[i] == entries[i] && init[j] == entries[j]);
                }
            }
        }
        assert forall|i: int| 0 <= i < n implies init[i] == entries[i] by {}
        if entry_map(entries).contains_key(key) {
            if entries[n].0@ != key {
                let i = choose|i: int| 0 <= i < init.len() && (#[trigger] init[i]).0@ == key;
                assert(entries[i].0@ == key);
            }
        }
        assert forall|i: int| 0 <= i < entries.len() && (#[trigger] entries[i]).0@ == key implies
            entry_map(entries).contains_key(key) by {
            if i < n {
                assert(init[i].0@ == key);
            }
        }
        if distinct_keys(entries) {
            assert forall|i: int|
                0 <= i < entries.len() && (#[trigger] entries[i]).0@ == key implies entry_map(
                entries,
            )[key] == entries[i].1 by {
                if i < n {
                    assert(init[i].0@ == key);
                    assert(entries[i].0@ != entries[n].0@);
                }
            }
        }
    }
}

/// A new value at a listed key changes the map at that key alone.
proof fn entry_map_update<V>(entries: Seq<(String, V)>, at: int, value: V)
    requires
        0 <= at < entries.len(),
        distinct_keys(entries),
    ensures
        entry_map(entries.update(at, (entries[at].0, value))) == entry_map(entries).insert(
            entries[at].0@,
            value,
        ),
        distinct_keys(entries.update(at, (entries[at].0, value))),
{
    let new = entries.update(at, (entries[at].0, value));
    assert forall|i: int| 0 <= i < entries.len() implies (#[trigger] new[i]).0 == entries[i].0 by {}
    assert(distinct_keys(new)) by {
        assert forall|i: int, j: int| 0 <= i < j < new.len() implies (#[trigger] new[i]).0@ != (
        #[trigger] new[j]).0@ by {
            assert(entries[i].0@ != entries[j].0@);
        }
    }
    let want = entry_map(entries).insert(entries[at].0@, value);
    assert forall|k: Seq<char>|
        (#[trigger] entry_map(new).contains_key(k) <==> want.contains_key(k)) && (entry_map(
            new,
        ).contains_key(k) ==> entry_map(new)[k] == want[k]) by {
        entry_map_lookup(new, k);
        entry_map_lookup(entries, k);
        if exists|i: int| 0 <= i < entries.len() && (#[trigger] entries[i]).0@ == k {
            let i = choose|i: int| 0 <= i < entries.len() && (#[trigger] entries[i]).0@ == k;
            assert(new[i].0@ == k);
        }
        if exists|i: int| 0 <= i < new.len() && (#[trigger] new[i]).0@ == k {
            let i = choose|i: int| 0 <= i < new.len() && (#[trigger] new[i]).0@ == k;
            assert(entries[i].0@ == k);
        }
        assert(new[at].0@ == entries[at].0@);
    }
    assert(entry_map(new) =~= want);
}

/// A new entry extends the map, and keeps the keys distinct where it has a new one.
proof fn entry_map_push<V>(entries: Seq<(String, V)>, e: (String, V))
    requires
        distinct_keys(entries),
        !entry_map(entries).contains_key(e.0@),
    ensures
        entry_map(entries.push(e)) == entry_map(entries).insert(e.0@, e.1),
        distinct_keys(entries.push(e)),
{
    assert(entries.push(e).drop_last() =~= entries);
    entry_map_lookup(entries, e.0@);
    let new = entries.push(e);
    assert forall|i: int, j: int| 0 <= i < j < new.len() implies (#[trigger] new[i]).0@ != (
    #[trigger] new[j]).0@ by {
        assert(new[i] == entries[i]);
        if j < entries.len() {
            assert(new[j] == entries[j]);
        }
    }
}

/// Distinct keys are as many as their entries.
proof fn entry_map_size<V>(entries: Seq<(String, V)>)
    requires
        distinct_keys(entries),
    ensures
        entry_map(entries).dom().finite(),
        entry_map(entries).dom().len() == entries.len(),
    decreases entries.len(),
{
    if entries.len() > 0 {
        let init = entries.drop_last();
        assert forall|i: int, j: int| 0 <= i < j < init.len() implies (#[trigger] init[i]).0@ != (
        #[trigger] init[j]).0@ by {
            assert(init[i] == entries[i] && init[j] == entries[j]);
        }
        entry_map_size(init);
        entry_map_lookup(init, entries.last().0@);
        assert forall|i: int| 0 <= i < init.len() implies (#[trigger] init[i]).0@
            != entries.last().0@ by {
            assert(init[i] == entries[i]);
        }
        assert(entry_map(entries).dom() =~= entry_map(init).dom().insert(entries.last().0@));
    }
}

impl<V> View for TextMap<V> {
    type V = Map<Seq<char>, V>;

    closed spec fn view(&self) -> Map<Seq<char>, V> {
        entry_map(self.entries@)
    }
}

impl<V> TextMap<V> {
    #[verifier::type_invariant]
    spec fn well_formed(self) -> bool {
        distinct_keys(self.entries@)
    }

    /// A map without entries.
    pub fn new() -> (r: Self)
        ensures
            r@ == Map::<Seq<char>, V>::empty(),
    {
        TextMap { entries: Vec::new() }
    }

    /// Whether the map has no key.
    pub fn is_empty(&self) -> (r: bool)
        ensures
            r == (self@ == Map::<Seq<char>, V>::empty()),
    {
        proof {
            if self.entries@.len() > 0 {
                entry_map_lookup(self.entries@, self.entries@[0].0@);
            }
        }
        self.entries.len() == 0
    }

    /// The number of keys.
    pub fn len(&self) -> (r: usize)
        ensures
            r == self@.dom().len(),
    {
        proof {
            use_type_invariant(self);
            entry_map_size(self.entries@);
        }
        self.entries.len()
    }

    /// The place of a key among the entries.
    fn position(&self, key: &str) -> (r: Option<usize>)
        ensures
            match r {
                Some(i) => i < self.entries@.len() && self.entries@[i as int].0@ == key@
                    && self@.contains_key(key@) && self@[key@] == self.entries@[i as int].1,
                None => !self@.contains_key(key@),
            },
    {
        proof {
            use_type_invariant(self);
            entry_map_lookup(self.entries@, key@);
        }
        let mut i: usize = 0;
        while i < self.entries.len()
            invariant
                i <= self.entries@.len(),
                forall|j: int| 0 <= j < i ==> (#[trigger] self.entries@[j]).0@ != key@,
                self@.contains_key(key@) <==> exists|j: int|
                    0 <= j < self.entries@.len() && (#[trigger] self.entries@[j]).0@ == key@,
                forall|j: int|
                    0 <= j < self.entries@.len() && (#[trigger] self.entries@[j]).0@ == key@
                        ==> self@[key@] == self.entries@[j].1,
            decreases self.entries.len() - i,
        {
            if same(self.entries[i].0.as_str(), key) {
                return Some(i);
            }
            i = i + 1;
        }
        None
    }

    /// The value of a key.
    pub fn get(&self, key: &str) -> (r: Option<&V>)
        ensures
            match r {
                Some(v) => self@.contains_key(key@) && *v == self@[key@],
                None => !self@.contains_key(key@),
            },
    {
        match self.position(key) {
            Some(i) => Some(&self.entries[i].1),
            None => None,
        }
    }

    /// Whether the map has the key.
    pub fn contains_key(&self, key: &str) -> (r: bool)
        ensures
            r == self@.contains_key(key@),
    {
        self.position(key).is_some()
    }

    /// Gives the key a value, in place of one that it may have had.
    pub fn insert(&mut self, key: &str, value: V)
        ensures
            final(self)@ == old(self)@.insert(key@, value),
    {
        let at = self.position(key);
        proof {
            use_type_invariant(&*self);
        }
        let mut entries: Vec<(String, V)> = Vec::new();
        std::mem::swap(&mut entries, &mut self.entries);
        match at {
            Some(i) => {
                proof {
                    entry_map_update(entries@, i as int, value);
                }
                let k = entries[i].0.clone();
                entries.set(i, (k, value));
            },
            None => {
                let e = (key.to_owned(), value);
                proof {
                    entry_map_push(entries@, e);
                }
                entries.push(e);
            },
        }
        self.entries = entries;
    }

    /// The entries of the map, each key once.
    pub fn entries(&self) -> (r: &Vec<(String, V)>)
        ensures
            entry_map(r@) == self@,
            distinct_keys(r@),
    {
        proof {
            use_type_invariant(self);
        }
        &self.entries
    }
}

/// The characters of the texts that a map gives.
pub open spec fn text_values(m: Map<Seq<char>, String>) -> Map<Seq<char>, Seq<char>> {
    m.map_values(|t: String| t@)
}

/// The characters of the lists of texts that a map gives.
pub open spec fn list_values(m: Map<Seq<char>, Vec<String>>) -> Map<Seq<char>, Seq<Seq<char>>> {
    m.map_values(|v: Vec<String>| texts(v@))
}

/// The map with one text more in the list of a key; a new key starts with an empty list.
pub open spec fn with_listed(
    m: Map<Seq<char>, Seq<Seq<char>>>,
    key: Seq<char>,
    value: Seq<char>,
) -> Map<Seq<char>, Seq<Seq<char>>> {
    if m.contains_key(key) {
        m.insert(key, m[key].push(value))
    } else {
        m.insert(key, seq![value])
    }
}

impl TextMap<Vec<String>> {
    /// Adds a text behind those that the key has.
    pub fn add(&mut self, key: &str, value: &str)
        ensures
            list_values(final(self)@) == with_listed(list_values(old(self)@), key@, value@),
    {
        let ghost before = self@;
        let mut list: Vec<String> = match self.get(key) {
            Some(v) => clone_texts(v),
            None => Vec::new(),
        };
        let ghost head = list@;
        let item = value.to_owned();
        list.push(item);
        self.insert(key, list);
        proof {
            assert(texts(list@) =~= texts(head).push(value@));
            if !before.contains_key(key@) {
                assert(texts(list@) =~= seq![value@]);
            }
            assert(list_values(self@) =~= with_listed(list_values(before), key@, value@));
        }
    }
}

} // verus!
