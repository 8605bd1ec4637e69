//! Small maps with text keys, kept in insertion order.
use vstd::prelude::*;

use crate::text::same_text;

verus! {

/// Whether some entry has the key.
pub open spec fn has_key<W>(entries: Seq<(Seq<char>, W)>, key: Seq<char>) -> bool {
    exists|at: int| 0 <= at < entries.len() && (#[trigger] entries[at]).0 == key
}

/// Where the entry with the key stands.
pub open spec fn key_index<W>(entries: Seq<(Seq<char>, W)>, key: Seq<char>) -> int {
    choose|at: int| 0 <= at < entries.len() && (#[trigger] entries[at]).0 == key
}

/// The value of the key.
pub open spec fn value_of<W>(entries: Seq<(Seq<char>, W)>, key: Seq<char>) -> W {
    entries[key_index(entries, key)].1
}

/// The value of the key, where it has one.
pub open spec fn lookup<W>(entries: Seq<(Seq<char>, W)>, key: Seq<char>) -> Option<W> {
    if has_key(entries, key) {
        Some(value_of(entries, key))
    } else {
        None
    }
}

/// The entries with the key bound to a value: in its old place, else at the
/// end.
pub open spec fn bind<W>(
    entries: Seq<(Seq<char>, W)>,
    key: Seq<char>,
    value: W,
) -> Seq<(Seq<char>, W)> {
    if has_key(entries, key) {
        entries.update(key_index(entries, key), (key, value))
    } else {
        entries.push((key, value))
    }
}

/// The entries without the key.
pub open spec fn unbind<W>(entries: Seq<(Seq<char>, W)>, key: Seq<char>) -> Seq<(Seq<char>, W)> {
    if has_key(entries, key) {
        entries.remove(key_index(entries, key))
    } else {
        entries
    }
}

/// No key occurs twice.
pub open spec fn unique_keys<W>(entries: Seq<(Seq<char>, W)>) -> bool {
    forall|i: int, j: int|
        0 <= i < j < entries.len() ==> (#[trigger] entries[i]).0 != (#[trigger] entries[j]).0
}

/// A key has one place.
pub proof fn lemma_key_index<W>(entries: Seq<(Seq<char>, W)>, at: int)
    requires
        unique_keys(entries),
        0 <= at < entries.len(),
    ensures
        has_key(entries, entries[at].0),
        key_index(entries, entries[at].0) == at,
{
    let key = entries[at].0;
    assert(entries[at].0 == key);
    let found = key_index(entries, key);
    assert(0 <= found < entries.len() && entries[found].0 == key);
    if found < at {
        assert(entries[found].0 != entries[at].0);
    } else if at < found {
        assert(entries[at].0 != entries[found].0);
    }
}

/// Binding and unbinding keep keys unique.
pub proof fn lemma_bind_unique<W>(entries: Seq<(Seq<char>, W)>, key: Seq<char>, value: W)
    requires
        unique_keys(entries),
    ensures
        unique_keys(bind(entries, key, value)),
        unique_keys(unbind(entries, key)),
        bind(entries, key, value).len() == entries.len() + if has_key(entries, key) {
            0int
        } else {
            1int
        },
        unbind(entries, key).len() == entries.len() - if has_key(entries, key) {
            1int
        } else {
            0int
        },
{
    let next = bind(entries, key, value);
    assert forall|i: int, j: int| 0 <= i < j < next.len() implies (#[trigger] next[i]).0 != (
    #[trigger] next[j]).0 by {
        if has_key(entries, key) {
            let at = key_index(entries, key);
            assert(entries[at].0 == key);
            assert(entries[i].0 != entries[j].0);
        } else if j < entries.len() {
            assert(entries[i].0 != entries[j].0);
        } else {
            assert(entries[i].0 != key);
        }
    }
    if has_key(entries, key) {
        let at = key_index(entries, key);
        let rest = entries.remove(at);
        assert forall|i: int, j: int| 0 <= i < j < rest.len() implies (#[trigger] rest[i]).0 != (
        #[trigger] rest[j]).0 by {
            let from_i = if i < at {
                i
            } else {
                i + 1
            };
            let from_j = if j < at {
                j
            } else {
                j + 1
            };
            assert(rest[i] == entries[from_i]);
            assert(rest[j] == entries[from_j]);
            assert(entries[from_i].0 != entries[from_j].0);
        }
    }
}

/// What binding a key leaves and what it changes.
pub proof fn lemma_bind_lookup<W>(
    entries: Seq<(Seq<char>, W)>,
    key: Seq<char>,
    value: W,
    other: Seq<char>,
)
    requires
        unique_keys(entries),
    ensures
        lookup(bind(entries, key, value), key) == Some(value),
        other != key ==> lookup(bind(entries, key, value), other) == lookup(entries, other),
{
    lemma_bind_unique(entries, key, value);
    let next = bind(entries, key, value);
    let at = if has_key(entries, key) {
        key_index(entries, key)
    } else {
        entries.len() as int
    };
    assert(next[at] == (key, value));
    lemma_key_index(next, at);
    if other != key {
        if has_key(entries, other) {
            let place = key_index(entries, other);
            assert(entries[place].0 == other);
            assert(next[place] == entries[place]);
            lemma_key_index(next, place);
            lemma_key_index(entries, place);
        } else if has_key(next, other) {
            let place = key_index(next, other);
            assert(next[place].0 == other);
            assert(place != at);
            assert(entries[place] == next[place]);
        }
    }
}

/// What unbinding a key leaves and what it takes away.
pub proof fn lemma_unbind_lookup<W>(
    entries: Seq<(Seq<char>, W)>,
    key: Seq<char>,
    other: Seq<char>,
)
    requires
        unique_keys(entries),
    ensures
        lookup(unbind(entries, key), key) is None,
        other != key ==> lookup(unbind(entries, key), other) == lookup(entries, other),
{
    if has_key(entries, key) {
        let at = key_index(entries, key);
        let rest = entries.remove(at);
        assert(entries[at].0 == key);
        assert forall|i: int| 0 <= i < rest.len() implies (#[trigger] rest[i]).0 != key by {
            if i < at {
                assert(rest[i] == entries[i]);
                assert(entries[i].0 != entries[at].0);
            } else {
                assert(rest[i] == entries[i + 1]);
                assert(entries[at].0 != entries[i + 1].0);
            }
        }
        if other != key {
            lemma_bind_unique(entries, key, entries[at].1);
            if has_key(entries, other) {
                let place = key_index(entries, other);
                assert(entries[place].0 == other);
                let moved = if place < at {
                    place
                } else {
                    place - 1
                };
                assert(rest[moved] == entries[place]);
                lemma_key_index(rest, moved);
            } else if has_key(rest, other) {
                let place = key_index(rest, other);
                assert(rest[place].0 == other);
                let from = if place < at {
                    place
                } else {
                    place + 1
                };
                assert(entries[from] == rest[place]);
            }
        }
    }
}

/// A map from texts to values.
pub struct Keyed<V> {
    entries: Vec<(String, V)>,
}

impl<V: View> View for Keyed<V> {
    type V = Seq<(Seq<char>, V::V)>;

    closed spec fn view(&self) -> Seq<(Seq<char>, V::V)> {
        self.entries@.map_values(|entry: (String, V)| (entry.0@, entry.1@))
    }
}

impl<V: View> Keyed<V> {
    /// The values themselves, in the order of the keys.
    pub closed spec fn values(&self) -> Seq<V> {
        self.entries@.map_values(|entry: (String, V)| entry.1)
    }

    /// The views of the values are the values of the view.
    pub proof fn lemma_values(&self)
        ensures
            self.values().len() == self@.len(),
            forall|at: int| 0 <= at < self@.len() ==> (#[trigger] self@[at]).1 == self.values()[at]@,
            forall|at: int| 0 <= at < self@.len() ==> self@[at].1 == (#[trigger] self.values()[at])@,
    {
    }

    pub fn new() -> (map: Keyed<V>)
        ensures
            map@ == Seq::<(Seq<char>, V::V)>::empty(),
            map.values() == Seq::<V>::empty(),
    {
        let map = Keyed { entries: Vec::new() };
        proof {
            assert(map@ =~= Seq::empty());
            assert(map.values() =~= Seq::empty());
        }
        map
    }

    pub fn len(&self) -> (length: usize)
        ensures
            length == self@.len(),
    {
        self.entries.len()
    }

    /// Where the key stands.
    pub fn position(&self, key: &str) -> (place: Option<usize>)
        requires
            unique_keys(self@),
        ensures
            place is Some == has_key(self@, key@),
            place matches Some(at) ==> at < self@.len() && at == key_index(self@, key@)
                && self@[at as int].0 == key@,
    {
        let mut at: usize = 0;
        while at < self.entries.len()
            invariant
                unique_keys(self@),
                at <= self.entries@.len(),
                self@.len() == self.entries@.len(),
                forall|k: int| 0 <= k < at ==> (#[trigger] self@[k]).0 != key@,
            decreases self.entries@.len() - at,
        {
            proof {
                assert(self@[at as int].0 == self.entries@[at as int].0@);
            }
            if same_text(self.entries[at].0.as_str(), key) {
                proof {
                    lemma_key_index(self@, at as int);
                }
                return Some(at);
            }
            at += 1;
        }
        None
    }

    pub fn contains(&self, key: &str) -> (found: bool)
        requires
            unique_keys(self@),
        ensures
            found == has_key(self@, key@),
    {
        self.position(key).is_some()
    }

    /// The key at a place.
    pub fn key_at(&self, at: usize) -> (key: &str)
        requires
            at < self@.len(),
        ensures
            key@ == self@[at as int].0,
    {
        self.entries[at].0.as_str()
    }

    /// The value at a place.
    pub fn value_at(&self, at: usize) -> (value: &V)
        requires
            at < self@.len(),
        ensures
            *value == self.values()[at as int],
            value@ == self@[at as int].1,
    {
        &self.entries[at].1
    }

    /// The value at a place, to be changed.
    pub fn value_mut(&mut self, at: usize) -> (value: &mut V)
        requires
            at < old(self)@.len(),
        ensures
            *value == old(self).values()[at as int],
            value@ == old(self)@[at as int].1,
            final(self)@ == old(self)@.update(
                at as int,
                (old(self)@[at as int].0, final(value)@),
            ),
            final(self).values() == old(self).values().update(at as int, *final(value)),
    {
        let ghost before = self@;
        let ghost values = self.values();
        let entry = &mut self.entries[at];
        proof {
            assert(values[at as int] == entry.1);
        }
        &mut entry.1
    }

    /// Binds the key to a value.
    pub fn set(&mut self, key: &str, value: V)
        requires
            unique_keys(old(self)@),
        ensures
            final(self)@ == bind(old(self)@, key@, value@),
            unique_keys(final(self)@),
            has_key(old(self)@, key@) ==> final(self).values() == old(self).values().update(
                key_index(old(self)@, key@),
                value,
            ),
            !has_key(old(self)@, key@) ==> final(self).values() == old(self).values().push(value),
    {
        proof {
            lemma_bind_unique(self@, key@, value@);
        }
        match self.position(key) {
            Some(at) => {
                *self.value_mut(at) = value;
            },
            None => {
                self.entries.push((key.to_owned(), value));
                proof {
                    assert(self@ =~= old(self)@.push((key@, value@)));
                    assert(self.values() =~= old(self).values().push(value));
                }
            },
        }
    }

    /// Takes out the entry at a place.
    pub fn remove_at(&mut self, at: usize) -> (value: V)
        requires
            at < old(self)@.len(),
        ensures
            value@ == old(self)@[at as int].1,
            value == old(self).values()[at as int],
            final(self)@ == old(self)@.remove(at as int),
            final(self).values() == old(self).values().remove(at as int),
    {
        let entry = self.entries.remove(at);
        proof {
            assert(self@ =~= old(self)@.remove(at as int));
            assert(self.values() =~= old(self).values().remove(at as int));
        }
        entry.1
    }

    /// Takes out the entry with the key.
    pub fn remove(&mut self, key: &str) -> (value: Option<V>)
        requires
            unique_keys(old(self)@),
        ensures
            final(self)@ == unbind(old(self)@, key@),
            unique_keys(final(self)@),
            value is Some == has_key(old(self)@, key@),
            value matches Some(held) ==> held@ == value_of(old(self)@, key@) && held
                == old(self).values()[key_index(old(self)@, key@)] && final(self).values()
                == old(self).values().remove(key_index(old(self)@, key@)),
            value is None ==> final(self).values() == old(self).values(),
    {
        match self.position(key) {
            Some(at) => {
                proof {
                    lemma_bind_unique(self@, key@, self@[at as int].1);
                }
                Some(self.remove_at(at))
            },
            None => None,
        }
    }
}

/// A set of pairs with one more.
pub open spec fn pair_added(
    pairs: Seq<(Seq<char>, Seq<char>)>,
    pair: (Seq<char>, Seq<char>),
) -> Seq<(Seq<char>, Seq<char>)> {
    if pairs.contains(pair) {
        pairs
    } else {
        pairs.push(pair)
    }
}

/// A set of pairs of texts, kept in insertion order.
pub struct PairSet {
    pairs: Vec<(String, String)>,
}

impl View for PairSet {
    type V = Seq<(Seq<char>, Seq<char>)>;

    closed spec fn view(&self) -> Seq<(Seq<char>, Seq<char>)> {
        self.pairs@.map_values(|pair: (String, String)| (pair.0@, pair.1@))
    }
}

impl PairSet {
    pub fn new() -> (set: PairSet)
        ensures
            set@ == Seq::<(Seq<char>, Seq<char>)>::empty(),
    {
        let set = PairSet { pairs: Vec::new() };
        proof {
            assert(set@ =~= Seq::empty());
        }
        set
    }

    pub fn len(&self) -> (length: usize)
        ensures
            length == self@.len(),
    {
        self.pairs.len()
    }

    pub fn first_at(&self, at: usize) -> (text: &str)
        requires
            at < self@.len(),
        ensures
            text@ == self@[at as int].0,
    {
        self.pairs[at].0.as_str()
    }

    pub fn second_at(&self, at: usize) -> (text: &str)
        requires
            at < self@.len(),
        ensures
            text@ == self@[at as int].1,
    {
        self.pairs[at].1.as_str()
    }

    pub fn contains(&self, first: &str, second: &str) -> (found: bool)
        ensures
            found == self@.contains((first@, second@)),
    {
        let mut at: usize = 0;
        while at < self.pairs.len()
            invariant
                at <= self.pairs@.len(),
                self@.len() == self.pairs@.len(),
                forall|k: int| 0 <= k < at ==> (#[trigger] self@[k]) != (first@, second@),
            decreases self.pairs@.len() - at,
        {
            proof {
                assert(self@[at as int] == (
                    self.pairs@[at as int].0@,
                    self.pairs@[at as int].1@,
                ));
            }
            if same_text(self.pairs[at].0.as_str(), first) && same_text(
                self.pairs[at].1.as_str(),
                second,
            ) {
                return true;
            }
            at += 1;
        }
        false
    }

    /// Adds a pair, once.
    pub fn insert(&mut self, first: &str, second: &str)
        ensures
            final(self)@ == pair_added(old(self)@, (first@, second@)),
    {
        if !self.contains(first, second) {
            self.pairs.push((first.to_owned(), second.to_owned()));
            proof {
                assert(self@ =~= old(self)@.push((first@, second@)));
            }
        }
    }
}

} // verus!
