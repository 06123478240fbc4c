//! A map from strings to values that keeps its keys in ascending order, so that
//! walking it is deterministic.

use crate::text::{
    lemma_text_lt_irreflexive, lemma_text_lt_total, lemma_text_lt_transitive, text_before, text_eq,
    text_lt,
};
use vstd::prelude::*;

verus! {

/// Whether `keys` is strictly ascending.
pub open spec fn ascending(keys: Seq<Seq<char>>) -> bool {
    forall|i: int, j: int| 0 <= i < j < keys.len() ==> text_lt(#[trigger] keys[i], #[trigger] keys[j])
}

/// In an ascending sequence a key stands at one place only.
pub proof fn lemma_ascending_index(keys: Seq<Seq<char>>, i: int)
    requires
        ascending(keys),
        0 <= i < keys.len(),
    ensures
        keys.contains(keys[i]),
        keys.index_of(keys[i]) == i,
{
    let j = keys.index_of(keys[i]);
    lemma_text_lt_irreflexive(keys[i]);
    if j < i {
        assert(text_lt(keys[j], keys[i]));
    } else if i < j {
        assert(text_lt(keys[i], keys[j]));
    }
}

/// A map from strings to values of type `V`, held in ascending key order.
#[derive(Debug)]
pub struct TextMap<V> {
    keys: Vec<String>,
    values: Vec<V>,
}

impl<V> TextMap<V> {
    /// The keys, in ascending order.
    pub closed spec fn ordered_keys(&self) -> Seq<Seq<char>> {
        self.keys.deep_view()
    }

    /// The values, in the order of their keys.
    pub closed spec fn ordered_values(&self) -> Seq<V> {
        self.values@
    }

    /// The invariant: one value for each key, and the keys strictly ascending.
    pub closed spec fn wf(&self) -> bool {
        &&& self.keys.len() == self.values.len()
        &&& ascending(self.ordered_keys())
    }

    /// The map that this value stands for.
    pub open spec fn view(&self) -> Map<Seq<char>, V> {
        Map::new(
            |key: Seq<char>| self.ordered_keys().contains(key),
            |key: Seq<char>| self.ordered_values()[self.ordered_keys().index_of(key)],
        )
    }

    /// What the ordered keys and values have to do with the map.
    pub proof fn lemma_ordered(&self)
        requires
            self.wf(),
        ensures
            ascending(self.ordered_keys()),
            self.ordered_keys().len() == self.ordered_values().len(),
            forall|i: int|
                0 <= i < self.ordered_keys().len() ==> self@.contains_key(
                    #[trigger] self.ordered_keys()[i],
                ) && self@[self.ordered_keys()[i]] == self.ordered_values()[i],
            forall|key: Seq<char>|
                self@.contains_key(key) ==> self.ordered_keys().contains(key),
    {
        assert forall|i: int| 0 <= i < self.ordered_keys().len() implies self@.contains_key(
            #[trigger] self.ordered_keys()[i],
        ) && self@[self.ordered_keys()[i]] == self.ordered_values()[i] by {
            lemma_ascending_index(self.ordered_keys(), i);
        }
    }

    /// The empty map.
    pub fn new() -> (map: Self)
        ensures
            map.wf(),
            map@ == Map::<Seq<char>, V>::empty(),
            map.ordered_keys().len() == 0,
    {
        let map = TextMap { keys: Vec::new(), values: Vec::new() };
        assert(map@ =~= Map::<Seq<char>, V>::empty());
        map
    }

    /// How many keys the map holds.
    pub fn len(&self) -> (n: usize)
        requires
            self.wf(),
        ensures
            n == self.ordered_keys().len(),
    {
        self.keys.len()
    }

    /// The `i`-th key in ascending order.
    pub fn key_at(&self, i: usize) -> (key: &String)
        requires
            self.wf(),
            i < self.ordered_keys().len(),
        ensures
            key@ == self.ordered_keys()[i as int],
    {
        &self.keys[i]
    }

    /// The value of the `i`-th key in ascending order.
    pub fn value_at(&self, i: usize) -> (value: &V)
        requires
            self.wf(),
            i < self.ordered_keys().len(),
        ensures
            *value == self.ordered_values()[i as int],
    {
        &self.values[i]
    }

    /// The place of `key`: the index of the first key that is not below it, and
    /// whether that key is `key` itself.
    fn locate(&self, key: &str) -> (place: (usize, bool))
        requires
            self.wf(),
        ensures
            place.0 <= self.ordered_keys().len(),
            forall|i: int| 0 <= i < place.0 ==> text_lt(#[trigger] self.ordered_keys()[i], key@),
            place.1 ==> place.0 < self.ordered_keys().len() && self.ordered_keys()[place.0 as int]
                == key@,
            !place.1 ==> !self.ordered_keys().contains(key@),
            !place.1 && place.0 < self.ordered_keys().len() ==> text_lt(
                key@,
                self.ordered_keys()[place.0 as int],
            ),
    {
        let mut i: usize = 0;
        while i < self.keys.len()
            invariant
                self.wf(),
                i <= self.keys.len(),
                forall|j: int| 0 <= j < i ==> text_lt(#[trigger] self.ordered_keys()[j], key@),
            decreases self.keys.len() - i,
        {
            if !text_before(self.keys[i].as_str(), key) {
                let same = text_eq(self.keys[i].as_str(), key);
                proof {
                    let keys = self.ordered_keys();
                    if !same {
                        if !text_lt(key@, keys[i as int]) {
                            lemma_text_lt_total(keys[i as int], key@);
                        }
                        assert forall|j: int| 0 <= j < keys.len() implies keys[j] != key@ by {
                            lemma_text_lt_irreflexive(key@);
                            if j > i {
                                assert(text_lt(keys[i as int], keys[j]));
                                lemma_text_lt_transitive(key@, keys[i as int], keys[j]);
                            }
                        }
                    }
                }
                return (i, same);
            }
            i += 1;
        }
        proof {
            let keys = self.ordered_keys();
            assert forall|j: int| 0 <= j < keys.len() implies keys[j] != key@ by {
                lemma_text_lt_irreflexive(key@);
            }
        }
        (i, false)
    }

    /// Whether the map holds `key`.
    pub fn contains_key(&self, key: &str) -> (held: bool)
        requires
            self.wf(),
        ensures
            held == self@.contains_key(key@),
    {
        let (_, found) = self.locate(key);
        found
    }

    /// The value of `key`, if the map holds it.
    pub fn get(&self, key: &str) -> (value: Option<&V>)
        requires
            self.wf(),
        ensures
            match value {
                Some(v) => self@.contains_key(key@) && *v == self@[key@],
                None => !self@.contains_key(key@),
            },
    {
        let (at, found) = self.locate(key);
        if found {
            proof {
                lemma_ascending_index(self.ordered_keys(), at as int);
            }
            Some(&self.values[at])
        } else {
            None
        }
    }

    /// Sets the value of `key`, and hands back the value it had before.
    pub fn insert(&mut self, key: String, value: V) -> (previous: Option<V>)
        requires
            old(self).wf(),
        ensures
            final(self).wf(),
            final(self)@ == old(self)@.insert(key@, value),
            match previous {
                Some(v) => old(self)@.contains_key(key@) && v == old(self)@[key@],
                None => !old(self)@.contains_key(key@),
            },
    {
        let (at, found) = self.locate(key.as_str());
        let ghost before_keys = self.ordered_keys();
        let ghost before_values = self.ordered_values();
        let ghost before = self@;
        if found {
            proof {
                lemma_ascending_index(before_keys, at as int);
            }
            let previous = self.values.remove(at);
            self.values.insert(at, value);
            proof {
                assert(self.ordered_keys() == before_keys);
                assert(self.ordered_values() =~= before_values.update(at as int, value));
                assert forall|k: Seq<char>| #[trigger] before_keys.contains(k) implies self@[k]
                    == before.insert(key@, value)[k] by {
                    let i = before_keys.index_of(k);
                    if k != key@ {
                        assert(i != at);
                    }
                }
                assert(self@ =~= before.insert(key@, value));
            }
            Some(previous)
        } else {
            self.keys.insert(at, key);
            self.values.insert(at, value);
            proof {
                let after_keys = self.ordered_keys();
                let after_values = self.ordered_values();
                assert(after_keys =~= before_keys.insert(at as int, key@));
                assert(after_values =~= before_values.insert(at as int, value));
                assert forall|i: int, j: int| 0 <= i < j < after_keys.len() implies text_lt(
                    #[trigger] after_keys[i],
                    #[trigger] after_keys[j],
                ) by {
                    if i == at {
                        assert(after_keys[j] == before_keys[j - 1]);
                        if j - 1 > at {
                            assert(text_lt(before_keys[at as int], before_keys[j - 1]));
                            lemma_text_lt_transitive(key@, before_keys[at as int], before_keys[j - 1]);
                        }
                    } else if j == at {
                        assert(after_keys[i] == before_keys[i]);
                    } else if i < at && at < j {
                        assert(after_keys[i] == before_keys[i]);
                        assert(after_keys[j] == before_keys[j - 1]);
                    } else if j < at {
                        assert(after_keys[i] == before_keys[i]);
                        assert(after_keys[j] == before_keys[j]);
                    } else {
                        assert(after_keys[i] == before_keys[i - 1]);
                        assert(after_keys[j] == before_keys[j - 1]);
                    }
                }
                lemma_ascending_index(after_keys, at as int);
                assert forall|k: Seq<char>| before_keys.contains(k) implies after_keys.contains(k)
                    && self@[k] == before[k] by {
                    let i = before_keys.index_of(k);
                    let moved = if i < at {
                        i
                    } else {
                        i + 1
                    };
                    assert(after_keys[moved] == k);
                    lemma_ascending_index(after_keys, moved);
                }
                assert forall|k: Seq<char>| after_keys.contains(k) && k != key@
                    implies before_keys.contains(k) by {
                    let i = after_keys.index_of(k);
                    if i < at {
                        assert(before_keys[i] == k);
                    } else {
                        assert(before_keys[i - 1] == k);
                    }
                }
                assert(self@ =~= before.insert(key@, value));
            }
            None
        }
    }

    /// Takes `key` out of the map, and hands back the value it had.
    pub fn remove(&mut self, key: &str) -> (previous: Option<V>)
        requires
            old(self).wf(),
        ensures
            final(self).wf(),
            final(self)@ == old(self)@.remove(key@),
            match previous {
                Some(v) => old(self)@.contains_key(key@) && v == old(self)@[key@],
                None => !old(self)@.contains_key(key@),
            },
    {
        let (at, found) = self.locate(key);
        let ghost before_keys = self.ordered_keys();
        let ghost before_values = self.ordered_values();
        let ghost before = self@;
        if !found {
            assert(self@ =~= before.remove(key@));
            return None;
        }
        proof {
            lemma_ascending_index(before_keys, at as int);
        }
        let _ = self.keys.remove(at);
        let previous = self.values.remove(at);
        proof {
            let after_keys = self.ordered_keys();
            assert(after_keys =~= before_keys.remove(at as int));
            assert(self.ordered_values() =~= before_values.remove(at as int));
            assert forall|i: int, j: int| 0 <= i < j < after_keys.len() implies text_lt(
                #[trigger] after_keys[i],
                #[trigger] after_keys[j],
            ) by {
                let from_i = if i < at {
                    i
                } else {
                    i + 1
                };
                let from_j = if j < at {
                    j
                } else {
                    j + 1
                };
                assert(after_keys[i] == before_keys[from_i]);
                assert(after_keys[j] == before_keys[from_j]);
            }
            assert forall|k: Seq<char>| before_keys.contains(k) && k != key@
                implies after_keys.contains(k) && self@[k] == before[k] by {
                let i = before_keys.index_of(k);
                let moved = if i < at {
                    i
                } else {
                    i - 1
                };
                assert(after_keys[moved] == k);
                lemma_ascending_index(after_keys, moved);
            }
            assert forall|k: Seq<char>| after_keys.contains(k) implies before_keys.contains(k) && k
                != key@ by {
                let i = after_keys.index_of(k);
                let from = if i < at {
                    i
                } else {
                    i + 1
                };
                assert(before_keys[from] == k);
                lemma_ascending_index(before_keys, from);
            }
            assert(self@ =~= before.remove(key@));
        }
        Some(previous)
    }
}

/// Two ascending sequences that hold the same keys are equal.
pub proof fn lemma_same_keys(a: Seq<Seq<char>>, b: Seq<Seq<char>>)
    requires
        ascending(a),
        ascending(b),
        forall|k: Seq<char>| a.contains(k) <==> b.contains(k),
    ensures
        a == b,
    decreases a.len(),
{
    if a.len() == 0 {
        if b.len() > 0 {
            assert(b.contains(b[0]));
        }
        assert(a =~= b);
    } else {
        assert(a.contains(a[0]));
        let last_a = a.last();
        assert(a.contains(last_a));
        let jb = b.index_of(last_a);
        let last_b = b.last();
        assert(b.contains(last_b));
        let ja = a.index_of(last_b);
        // the greatest key of each is the greatest key of the other
        if jb < b.len() - 1 {
            assert(text_lt(b[jb], last_b));
            if ja < a.len() - 1 {
                assert(text_lt(a[ja], last_a));
                lemma_text_lt_transitive(last_a, last_b, last_a);
                lemma_text_lt_irreflexive(last_a);
            } else {
                lemma_text_lt_irreflexive(last_a);
            }
        }
        assert(last_a == last_b);
        let a0 = a.drop_last();
        let b0 = b.drop_last();
        assert forall|k: Seq<char>| a0.contains(k) <==> b0.contains(k) by {
            lemma_text_lt_irreflexive(last_a);
            if a0.contains(k) {
                let i = a0.index_of(k);
                assert(a[i] == k);
                assert(a.contains(k));
                assert(text_lt(a[i], last_a));
                let j = b.index_of(k);
                assert(b0[j] == k);
            }
            if b0.contains(k) {
                let i = b0.index_of(k);
                assert(b[i] == k);
                assert(b.contains(k));
                assert(text_lt(b[i], last_b));
                let j = a.index_of(k);
                assert(a0[j] == k);
            }
        }
        lemma_same_keys(a0, b0);
        assert(a =~= a0.push(last_a));
        assert(b =~= b0.push(last_b));
    }
}

} // verus!
